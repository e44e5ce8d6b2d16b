//! The raw trampoline's calling convention.
//!
//! A call across the boundary is a selector and up to three register-sized
//! argument words. The selector travels in `a7`, the arguments in `a0`, `a1`
//! and `a2` in order; one privilege-transferring instruction is issued and one
//! raw word comes back in `a0`, or control does not come back at all. This
//! module decides what goes into which register. Issuing the instruction is
//! left to the caller, who holds the machine.

use vstd::prelude::*;

verus! {

/// How many registers carry arguments: `a0`, `a1` and `a2`.
pub const ARGUMENT_REGISTERS: usize = 3;

/// The registers that carry a call.
#[derive(Clone, Copy, PartialEq, Eq, Debug, Structural)]
pub enum Register {
    /// The first argument, and the result on return.
    A0,
    /// The second argument.
    A1,
    /// The third argument.
    A2,
    /// The selector: which operation is requested.
    A7,
}

/// One call of the trampoline: which operation, and with which argument
/// words. It lives for the one invocation only.
#[derive(Debug)]
pub struct TrampolineCall {
    numeric_id: usize,
    argument_words: Vec<usize>,
}

/// What a call is, as a mathematical value.
pub struct TrampolineCallView {
    pub numeric_id: nat,
    pub argument_words: Seq<usize>,
}

/// What `register` holds when the privilege-transferring instruction is
/// issued for `call`; `None` if the call leaves the register alone.
pub open spec fn register_input(call: TrampolineCallView, register: Register) -> Option<usize> {
    match register {
        Register::A7 => Some(call.numeric_id as usize),
        Register::A0 => if call.argument_words.len() > 0 {
            Some(call.argument_words[0])
        } else {
            None
        },
        Register::A1 => if call.argument_words.len() > 1 {
            Some(call.argument_words[1])
        } else {
            None
        },
        Register::A2 => if call.argument_words.len() > 2 {
            Some(call.argument_words[2])
        } else {
            None
        },
    }
}

impl View for TrampolineCall {
    type V = TrampolineCallView;

    closed spec fn view(&self) -> TrampolineCallView {
        TrampolineCallView {
            numeric_id: self.numeric_id as nat,
            argument_words: self.argument_words@,
        }
    }
}

impl TrampolineCall {
    /// The invariant of the type: a call never has more argument words than
    /// there are argument registers.
    #[verifier::type_invariant]
    pub open spec fn inv(&self) -> bool {
        self@.argument_words.len() <= ARGUMENT_REGISTERS
    }

    /// The selector.
    pub fn numeric_id(&self) -> (id: usize)
        ensures
            id == self@.numeric_id,
    {
        self.numeric_id
    }

    /// The argument words in order: never more than there are argument
    /// registers.
    pub fn argument_words(&self) -> (words: &[usize])
        ensures
            words@ == self@.argument_words,
            words@.len() <= ARGUMENT_REGISTERS,
    {
        proof {
            use_type_invariant(self);
        }
        self.argument_words.as_slice()
    }

    /// What `register` is loaded with before the instruction is issued, or
    /// `None` if the call does not use it.
    pub fn register(&self, register: Register) -> (r: Option<usize>)
        ensures
            r == register_input(self@, register),
    {
        match register {
            Register::A7 => Some(self.numeric_id),
            Register::A0 => if self.argument_words.len() > 0 {
                Some(self.argument_words[0])
            } else {
                None
            },
            Register::A1 => if self.argument_words.len() > 1 {
                Some(self.argument_words[1])
            } else {
                None
            },
            Register::A2 => if self.argument_words.len() > 2 {
                Some(self.argument_words[2])
            } else {
                None
            },
        }
    }
}

/// The call that the trampoline makes for operation `nr` with the argument
/// words `args`: the selector and the words unchanged and in order. Nothing is
/// extended, truncated or coerced here.
///
/// More argument words than there are argument registers cannot be carried.
/// No table entry declares that many, so no wrapper asks for it.
pub fn syscall_raw(nr: usize, args: &[usize]) -> (call: TrampolineCall)
    requires
        args@.len() <= ARGUMENT_REGISTERS,
    ensures
        call@ == (TrampolineCallView { numeric_id: nr as nat, argument_words: args@ }),
{
    let mut words: Vec<usize> = Vec::new();
    let mut i: usize = 0;
    while i < args.len()
        invariant
            i <= args@.len(),
            words@ == args@.take(i as int),
        decreases args@.len() - i,
    {
        words.push(args[i]);
        assert(args@.take(i + 1) =~= args@.take(i as int).push(args@[i as int]));
        i += 1;
    }
    assert(args@.take(i as int) =~= args@);
    TrampolineCall { numeric_id: nr, argument_words: words }
}

/// The call for operation `nr` with as many of `args` as there are argument
/// registers; `None` if `args` holds more words than that.
pub fn try_syscall_raw(nr: usize, args: &[usize]) -> (r: Option<TrampolineCall>)
    ensures
        match r {
            Some(call) => args@.len() <= ARGUMENT_REGISTERS && call@ == (TrampolineCallView {
                numeric_id: nr as nat,
                argument_words: args@,
            }),
            None => args@.len() > ARGUMENT_REGISTERS,
        },
{
    if args.len() <= ARGUMENT_REGISTERS {
        Some(syscall_raw(nr, args))
    } else {
        None
    }
}

} // verus!
