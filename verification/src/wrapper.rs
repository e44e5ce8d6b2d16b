//! The typed wrapper layer: what a typed wrapper does on either side of the
//! trampoline.
//!
//! Before the call each typed argument becomes one register-sized word, in
//! declaration order: an address is its own value, a signed integer is
//! sign-extended to the width of a register. After the call the one raw word
//! that came back is read as the declared result type, bit for bit.
//!
//! Reading the raw word as the declared type trusts the table. Nothing at run
//! time checks that the kernel's handler produced a value of that type: a
//! table row that declares a result type other than the handler's is a
//! programming error whose consequences this layer cannot see. A result type
//! narrower than a register takes the low bits of the word and ignores the
//! rest; `void` ignores the word altogether.

use crate::table::{entry_valid, EntryView, OperationEntry};
use crate::trampoline::{
    register_input, syscall_raw, Register, TrampolineCall, TrampolineCallView,
};
use crate::types::TypeTag;
use vstd::prelude::*;

verus! {

/// A typed value: an argument of an operation or its result.
#[derive(Clone, Copy, PartialEq, Eq, Debug, Structural)]
pub enum Value {
    /// The result of an operation that hands nothing back.
    Void,
    /// A signed 32-bit integer.
    Int32(i32),
    /// A signed integer as wide as a register.
    SignedWord(isize),
    /// An unsigned integer as wide as a register.
    UnsignedWord(usize),
    /// The address of a byte that the callee only reads.
    ConstBytePtr(usize),
    /// The address of a byte that the callee may write.
    MutBytePtr(usize),
}

/// The number of values a register can hold: two to the power of its width.
pub open spec fn word_modulus() -> int {
    usize::MAX + 1
}

/// The register-sized word that holds the signed integer `x` in two's
/// complement, for `x` within the range of a signed word.
pub open spec fn signed_to_word(x: int) -> usize {
    if x >= 0 {
        x as usize
    } else {
        (x + word_modulus()) as usize
    }
}

/// The signed integer that the word `w` holds in two's complement.
pub open spec fn word_to_signed(w: usize) -> int {
    if w <= isize::MAX {
        w as int
    } else {
        w - word_modulus()
    }
}

/// The signed integer that the low 32 bits of the word `w` hold in two's
/// complement.
pub open spec fn word_to_signed32(w: usize) -> int {
    let low = w as int % 0x1_0000_0000;
    if low < 0x8000_0000 {
        low
    } else {
        low - 0x1_0000_0000
    }
}

impl Value {
    /// The tag of the value's type.
    pub open spec fn spec_tag(self) -> TypeTag {
        match self {
            Value::Void => TypeTag::Void,
            Value::Int32(_) => TypeTag::Int32,
            Value::SignedWord(_) => TypeTag::SignedWord,
            Value::UnsignedWord(_) => TypeTag::UnsignedWord,
            Value::ConstBytePtr(_) => TypeTag::ConstBytePtr,
            Value::MutBytePtr(_) => TypeTag::MutBytePtr,
        }
    }

    /// The register-sized word that carries the value: an address or an
    /// unsigned word as it is, a signed integer sign-extended. `Void` has no
    /// word.
    pub open spec fn spec_to_word(self) -> Option<usize> {
        match self {
            Value::Void => None,
            Value::Int32(x) => Some(signed_to_word(x as int)),
            Value::SignedWord(x) => Some(signed_to_word(x as int)),
            Value::UnsignedWord(w) => Some(w),
            Value::ConstBytePtr(a) => Some(a),
            Value::MutBytePtr(a) => Some(a),
        }
    }

    /// The tag of the value's type.
    pub fn tag(self) -> (t: TypeTag)
        ensures
            t == self.spec_tag(),
    {
        match self {
            Value::Void => TypeTag::Void,
            Value::Int32(_) => TypeTag::Int32,
            Value::SignedWord(_) => TypeTag::SignedWord,
            Value::UnsignedWord(_) => TypeTag::UnsignedWord,
            Value::ConstBytePtr(_) => TypeTag::ConstBytePtr,
            Value::MutBytePtr(_) => TypeTag::MutBytePtr,
        }
    }

    /// Converts the value to the register-sized word that carries it; `None`
    /// for `Void`, which no register carries.
    pub fn to_word(self) -> (r: Option<usize>)
        ensures
            r == self.spec_to_word(),
    {
        match self {
            Value::Void => None,
            Value::Int32(x) => Some(i32_to_word(x)),
            Value::SignedWord(x) => Some(isize_to_word(x)),
            Value::UnsignedWord(w) => Some(w),
            Value::ConstBytePtr(a) => Some(a),
            Value::MutBytePtr(a) => Some(a),
        }
    }
}

/// Widens a signed 32-bit integer to a register-sized word by sign extension.
pub fn i32_to_word(x: i32) -> (w: usize)
    ensures
        w == signed_to_word(x as int),
{
    if x >= 0 {
        x as usize
    } else {
        let below: i32 = -(x + 1);
        usize::MAX - (below as usize)
    }
}

/// Reads a signed register-sized integer as the word of the same bits.
pub fn isize_to_word(x: isize) -> (w: usize)
    ensures
        w == signed_to_word(x as int),
{
    if x >= 0 {
        x as usize
    } else {
        let below: isize = -(x + 1);
        usize::MAX - (below as usize)
    }
}

/// Reads a word as the signed register-sized integer of the same bits.
pub fn word_to_isize(w: usize) -> (x: isize)
    ensures
        x == word_to_signed(w),
{
    if w <= isize::MAX as usize {
        w as isize
    } else {
        let above: usize = usize::MAX - w;
        -(above as isize) - 1
    }
}

/// Reads the low 32 bits of a word as a signed 32-bit integer.
pub fn word_to_i32(w: usize) -> (x: i32)
    ensures
        x == word_to_signed32(w),
{
    let low: u64 = (w as u64) % 0x1_0000_0000u64;
    if low < 0x8000_0000u64 {
        low as i32
    } else {
        ((low as i64) - 0x1_0000_0000i64) as i32
    }
}

/// The raw word `raw` read as a value of the type `tag`.
pub open spec fn reinterpreted(tag: TypeTag, raw: usize) -> Value {
    match tag {
        TypeTag::Void => Value::Void,
        TypeTag::Int32 => Value::Int32(word_to_signed32(raw) as i32),
        TypeTag::SignedWord => Value::SignedWord(word_to_signed(raw) as isize),
        TypeTag::UnsignedWord => Value::UnsignedWord(raw),
        TypeTag::ConstBytePtr => Value::ConstBytePtr(raw),
        TypeTag::MutBytePtr => Value::MutBytePtr(raw),
    }
}

/// Reads the raw result word as a value of the declared result type. This is
/// the one place where an untyped word becomes a typed value.
pub fn reinterpret(tag: TypeTag, raw: usize) -> (v: Value)
    ensures
        v == reinterpreted(tag, raw),
        v.spec_tag() == tag,
{
    match tag {
        TypeTag::Void => Value::Void,
        TypeTag::Int32 => Value::Int32(word_to_i32(raw)),
        TypeTag::SignedWord => Value::SignedWord(word_to_isize(raw)),
        TypeTag::UnsignedWord => Value::UnsignedWord(raw),
        TypeTag::ConstBytePtr => Value::ConstBytePtr(raw),
        TypeTag::MutBytePtr => Value::MutBytePtr(raw),
    }
}

/// Whether `args` are arguments for the entry `e`: as many as `e` declares
/// parameters, each of its parameter's type.
pub open spec fn accepts(e: EntryView, args: Seq<Value>) -> bool {
    &&& args.len() == e.parameters.len()
    &&& forall|i: int| 0 <= i < args.len() ==> (#[trigger] args[i]).spec_tag() == e.parameters[i].tag
}

/// The argument words of a call with `args`: each argument converted, in
/// declaration order.
pub open spec fn words_of(args: Seq<Value>) -> Seq<usize> {
    Seq::new(args.len(), |i: int| args[i].spec_to_word().unwrap())
}

/// The one trampoline call that the typed wrapper of `e` makes for `args`.
pub open spec fn wrapper_call(e: EntryView, args: Seq<Value>) -> TrampolineCallView {
    TrampolineCallView { numeric_id: e.numeric_id, argument_words: words_of(args) }
}

impl OperationEntry {
    /// The first half of the operation's typed wrapper: the one trampoline
    /// call for the typed arguments `args`, with the operation's numeric id
    /// and the arguments converted to words in declaration order.
    ///
    /// `None` means that `args` are not arguments for this operation: their
    /// number or one of their types is not what the table declares.
    pub fn invoke(&self, args: &[Value]) -> (r: Option<TrampolineCall>)
        ensures
            match r {
                Some(call) => accepts(self@, args@) && call@ == wrapper_call(self@, args@),
                None => !accepts(self@, args@),
            },
    {
        let ps = self.parameters();
        if args.len() != ps.len() {
            return None;
        }
        let mut words: Vec<usize> = Vec::new();
        let mut i: usize = 0;
        while i < args.len()
            invariant
                i <= args@.len(),
                args@.len() == ps@.len(),
                ps@.len() == self@.parameters.len(),
                forall|j: int| 0 <= j < ps@.len() ==> (#[trigger] ps@[j])@ == self@.parameters[j],
                entry_valid(self@),
                words@.len() == i,
                forall|j: int|
                    0 <= j < i ==> (#[trigger] args@[j]).spec_tag() == self@.parameters[j].tag,
                forall|j: int| 0 <= j < i ==> args@[j].spec_to_word() == Some(#[trigger] words@[j]),
            decreases args@.len() - i,
        {
            let arg: Value = args[i];
            if arg.tag() != ps[i].tag() {
                return None;
            }
            match arg.to_word() {
                Some(w) => {
                    words.push(w);
                },
                None => {
                    return None;
                },
            }
            i += 1;
        }
        assert(words@ =~= words_of(args@));
        Some(syscall_raw(self.numeric_id(), words.as_slice()))
    }

    /// The second half of the operation's typed wrapper: the raw word that
    /// came back, read as the declared result type.
    pub fn complete(&self, raw: usize) -> (v: Value)
        ensures
            v == reinterpreted(self@.return_type, raw),
    {
        reinterpret(self.return_type(), raw)
    }
}

/// Where the arguments of a typed wrapper end up: the selector of the call is
/// the entry's numeric id and travels in `a7`, the argument at position `i`
/// travels as its word in the argument register of that position, and a
/// register beyond the last argument is left alone.
pub proof fn lemma_arguments_travel_by_position(e: EntryView, args: Seq<Value>)
    requires
        entry_valid(e),
        accepts(e, args),
        e.numeric_id <= usize::MAX,
    ensures
        wrapper_call(e, args).argument_words.len() == e.parameters.len(),
        register_input(wrapper_call(e, args), Register::A7) == Some(e.numeric_id as usize),
        register_input(wrapper_call(e, args), Register::A0) == if args.len() > 0 {
            args[0].spec_to_word()
        } else {
            None
        },
        register_input(wrapper_call(e, args), Register::A1) == if args.len() > 1 {
            args[1].spec_to_word()
        } else {
            None
        },
        register_input(wrapper_call(e, args), Register::A2) == if args.len() > 2 {
            args[2].spec_to_word()
        } else {
            None
        },
{
    assert forall|i: int| 0 <= i < args.len() implies (#[trigger] args[i]).spec_to_word() is Some by {
        assert(e.parameters[i].tag.spec_is_parameter_type());
    }
}

/// A typed value that crosses the boundary in a register and is read back
/// under its own type is the value that was sent.
pub proof fn lemma_value_survives_its_word(v: Value)
    requires
        v.spec_tag().spec_is_parameter_type(),
    ensures
        v.spec_to_word() is Some,
        reinterpreted(v.spec_tag(), v.spec_to_word().unwrap()) == v,
{
    match v {
        Value::Int32(x) => {
            lemma_signed32_round_trip(x);
        },
        Value::SignedWord(x) => {
            lemma_signed_word_round_trip(x);
        },
        _ => {},
    }
}

/// Reading a raw word as a register-sized type loses nothing: the value's
/// word is the raw word again. A narrower type keeps the low bits only, and
/// `void` keeps none.
pub proof fn lemma_register_sized_reading_is_exact(tag: TypeTag, raw: usize)
    requires
        tag.spec_is_register_sized(),
    ensures
        reinterpreted(tag, raw).spec_tag() == tag,
        reinterpreted(tag, raw).spec_to_word() == Some(raw),
{
    lemma_word_round_trip(raw);
}

/// A signed register-sized integer comes back unchanged from the word of
/// its bits.
pub proof fn lemma_signed_word_round_trip(x: isize)
    ensures
        word_to_signed(signed_to_word(x as int)) == x,
{
}

/// A word comes back unchanged from the signed integer of its bits.
pub proof fn lemma_word_round_trip(w: usize)
    ensures
        signed_to_word(word_to_signed(w)) == w,
{
}

/// A signed 32-bit integer comes back unchanged from the low half of the word
/// that it was widened to.
pub proof fn lemma_signed32_round_trip(x: i32)
    ensures
        word_to_signed32(signed_to_word(x as int)) == x,
{
    let w = signed_to_word(x as int);
    if x >= 0 {
        assert(w == x);
        assert((x as int) % 0x1_0000_0000 == x) by (nonlinear_arith)
            requires
                0 <= x < 0x8000_0000,
        ;
    } else {
        if usize::MAX == 0xffff_ffff {
            assert(w == x + 0x1_0000_0000);
            assert((x + 0x1_0000_0000) % 0x1_0000_0000 == x + 0x1_0000_0000) by (nonlinear_arith)
                requires
                    -0x8000_0000 <= x < 0,
            ;
        } else {
            assert(usize::MAX == 0xffff_ffff_ffff_ffff);
            assert(w == x + 0x1_0000_0000_0000_0000);
            assert((x + 0x1_0000_0000_0000_0000) % 0x1_0000_0000 == x + 0x1_0000_0000)
                by (nonlinear_arith)
                requires
                    -0x8000_0000 <= x < 0,
            ;
        }
    }
}

} // verus!
