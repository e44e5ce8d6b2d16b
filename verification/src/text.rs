//! Byte-level text primitives.
//!
//! Every artifact is a sequence of bytes. Names and templates enter as strings
//! and are rendered through their UTF-8 encoding; what is decided about a name
//! (whether it is an identifier, what its upper-case form is) is decided on
//! those bytes.

use vstd::prelude::*;
use vstd::utf8::*;

verus! {

/// The bytes that a piece of text contributes to an artifact.
pub open spec fn lit(s: &str) -> Seq<u8> {
    encode_utf8(s@)
}

/// `b` is an ASCII letter or an underscore.
pub open spec fn is_identifier_start(b: u8) -> bool {
    ||| 0x41 <= b <= 0x5a
    ||| 0x61 <= b <= 0x7a
    ||| b == 0x5f
}

/// `b` is an ASCII letter, an ASCII digit or an underscore.
pub open spec fn is_identifier_continue(b: u8) -> bool {
    ||| is_identifier_start(b)
    ||| 0x30 <= b <= 0x39
}

/// `s` is a non-empty run of letters, digits and underscores that does not
/// start with a digit.
pub open spec fn is_identifier(s: Seq<u8>) -> bool {
    &&& s.len() > 0
    &&& is_identifier_start(s[0])
    &&& forall|i: int| 0 <= i < s.len() ==> is_identifier_continue(#[trigger] s[i])
}

/// `c` may stand in an identifier: an ASCII letter, an ASCII digit or an
/// underscore.
pub open spec fn is_identifier_char(c: char) -> bool {
    ||| 'a' <= c <= 'z'
    ||| 'A' <= c <= 'Z'
    ||| '0' <= c <= '9'
    ||| c == '_'
}

/// The upper-case form of an ASCII byte; every other byte stands for itself.
pub open spec fn upper_byte(b: u8) -> u8 {
    if 0x61 <= b <= 0x7a {
        (b - 0x20) as u8
    } else {
        b
    }
}

/// `s` with each ASCII lower-case letter replaced by its upper-case form.
pub open spec fn ascii_upper(s: Seq<u8>) -> Seq<u8> {
    Seq::new(s.len(), |i: int| upper_byte(s[i]))
}

/// The ASCII digit for `d`, where `d < 10`.
pub open spec fn digit(d: nat) -> u8 {
    (0x30 + d) as u8
}

/// The decimal numeral of `n`, most significant digit first, without leading
/// zeros.
pub open spec fn decimal(n: nat) -> Seq<u8>
    decreases n,
{
    if n < 10 {
        seq![digit(n)]
    } else {
        decimal(n / 10).push(digit(n % 10))
    }
}

/// The number that a run of ASCII digits denotes.
pub open spec fn decimal_value(s: Seq<u8>) -> nat
    decreases s.len(),
{
    if s.len() == 0 {
        0
    } else {
        decimal_value(s.drop_last()) * 10 + (s.last() - 0x30) as nat
    }
}

/// The parts of `parts` one after another, `sep` between each two.
pub open spec fn join(parts: Seq<Seq<u8>>, sep: Seq<u8>) -> Seq<u8>
    decreases parts.len(),
{
    if parts.len() == 0 {
        Seq::empty()
    } else if parts.len() == 1 {
        parts[0]
    } else {
        join(parts.drop_last(), sep) + sep + parts.last()
    }
}

/// The parts of `parts` one after another.
pub open spec fn concat(parts: Seq<Seq<u8>>) -> Seq<u8>
    decreases parts.len(),
{
    if parts.len() == 0 {
        Seq::empty()
    } else {
        concat(parts.drop_last()) + parts.last()
    }
}

/// Reading a decimal numeral back gives the number it was written from.
pub proof fn lemma_decimal_round_trip(n: nat)
    ensures
        decimal_value(decimal(n)) == n,
        decimal(n).len() > 0,
        forall|i: int| 0 <= i < decimal(n).len() ==> 0x30 <= #[trigger] decimal(n)[i] <= 0x39,
    decreases n,
{
    if n < 10 {
        assert(decimal(n).drop_last() =~= Seq::<u8>::empty());
        assert(decimal_value(decimal(n).drop_last()) == 0);
    } else {
        lemma_decimal_round_trip(n / 10);
        assert(decimal(n).drop_last() =~= decimal(n / 10));
    }
}

/// Two numbers with the same decimal numeral are the same number.
pub proof fn lemma_decimal_injective(a: nat, b: nat)
    requires
        decimal(a) == decimal(b),
    ensures
        a == b,
{
    lemma_decimal_round_trip(a);
    lemma_decimal_round_trip(b);
}

/// A non-empty run of identifier characters that does not start with a digit
/// is an identifier, whichever way it is looked at: as characters or as the
/// bytes that encode them.
pub proof fn lemma_identifier_by_chars(name: Seq<char>)
    requires
        name.len() > 0,
        !('0' <= name[0] <= '9'),
        forall|i: int| 0 <= i < name.len() ==> is_identifier_char(#[trigger] name[i]),
    ensures
        is_identifier(encode_utf8(name)),
{
    assert(is_ascii_chars(name));
    is_ascii_chars_encode_utf8(name);
    let bytes = encode_utf8(name);
    assert forall|i: int| 0 <= i < bytes.len() implies is_identifier_continue(#[trigger] bytes[i]) by {
        assert(is_identifier_char(name[i]));
        assert(bytes[i] == name[i] as u8);
    }
    assert(is_identifier_char(name[0]));
    assert(bytes[0] == name[0] as u8);
}

/// Up to the part at `i`, `concat` is what it was before `i` followed by
/// `parts[i]`.
pub proof fn lemma_concat_step(parts: Seq<Seq<u8>>, i: int)
    requires
        0 <= i < parts.len(),
    ensures
        concat(parts.take(i + 1)) == concat(parts.take(i)) + parts[i],
{
    assert(parts.take(i + 1).drop_last() =~= parts.take(i));
}

/// `concat` over a sequence is `concat` over any prefix followed by `concat`
/// over the rest.
pub proof fn lemma_concat_split(parts: Seq<Seq<u8>>, i: int)
    requires
        0 <= i <= parts.len(),
    ensures
        concat(parts) == concat(parts.take(i)) + concat(parts.skip(i)),
    decreases parts.len(),
{
    if i == parts.len() {
        assert(parts.take(i) =~= parts);
        assert(parts.skip(i) =~= Seq::<Seq<u8>>::empty());
        assert(concat(parts) + Seq::<u8>::empty() =~= concat(parts));
    } else {
        let front = parts.drop_last();
        lemma_concat_split(front, i);
        assert(front.take(i) =~= parts.take(i));
        assert(parts.skip(i).drop_last() =~= front.skip(i));
        assert(parts.skip(i).last() == parts.last());
        assert(concat(parts.take(i)) + (concat(front.skip(i)) + parts.last()) =~= (concat(
            parts.take(i),
        ) + concat(front.skip(i))) + parts.last());
    }
}

/// Up to the part at `i`, `join` is what it was before `i`, then the separator
/// unless `i` is the first part, then `parts[i]`.
pub proof fn lemma_join_step(parts: Seq<Seq<u8>>, sep: Seq<u8>, i: int)
    requires
        0 <= i < parts.len(),
    ensures
        join(parts.take(i + 1), sep) == if i == 0 {
            parts[i]
        } else {
            join(parts.take(i), sep) + sep + parts[i]
        },
{
    assert(parts.take(i + 1).drop_last() =~= parts.take(i));
}

/// Whether two byte strings hold the same bytes.
pub fn bytes_equal(a: &[u8], b: &[u8]) -> (r: bool)
    ensures
        r == (a@ == b@),
{
    if a.len() != b.len() {
        return false;
    }
    let mut i: usize = 0;
    while i < a.len()
        invariant
            a@.len() == b@.len(),
            i <= a@.len(),
            forall|j: int| 0 <= j < i ==> a@[j] == b@[j],
        decreases a@.len() - i,
    {
        if a[i] != b[i] {
            return false;
        }
        i += 1;
    }
    assert(a@ =~= b@);
    true
}

/// Whether two strings hold the same characters.
pub fn str_equal(a: &str, b: &str) -> (r: bool)
    ensures
        r == (a@ == b@),
{
    proof {
        encode_utf8_decode_utf8(a@);
        encode_utf8_decode_utf8(b@);
    }
    bytes_equal(a.as_bytes(), b.as_bytes())
}

/// Whether `name` is an identifier: letters, digits and underscores, not
/// starting with a digit, at least one byte.
pub fn check_identifier(name: &str) -> (r: bool)
    ensures
        r == is_identifier(lit(name)),
{
    let bytes = name.as_bytes();
    if bytes.len() == 0 {
        return false;
    }
    let first: u8 = bytes[0];
    if !(0x41 <= first && first <= 0x5a || 0x61 <= first && first <= 0x7a || first == 0x5f) {
        return false;
    }
    let mut i: usize = 1;
    while i < bytes.len()
        invariant
            1 <= i <= bytes@.len(),
            bytes@ == lit(name),
            forall|j: int| 0 <= j < i ==> is_identifier_continue(#[trigger] bytes@[j]),
        decreases bytes@.len() - i,
    {
        let b: u8 = bytes[i];
        if !(0x41 <= b && b <= 0x5a || 0x61 <= b && b <= 0x7a || b == 0x5f || 0x30 <= b && b
            <= 0x39) {
            return false;
        }
        i += 1;
    }
    true
}

/// Appends `bytes` to `out`.
pub fn put_bytes(out: &mut Vec<u8>, bytes: &[u8])
    ensures
        final(out)@ == old(out)@ + bytes@,
{
    let mut i: usize = 0;
    while i < bytes.len()
        invariant
            i <= bytes@.len(),
            out@ == old(out)@ + bytes@.take(i as int),
        decreases bytes@.len() - i,
    {
        out.push(bytes[i]);
        assert(bytes@.take(i + 1) =~= bytes@.take(i as int).push(bytes@[i as int]));
        i += 1;
    }
    assert(bytes@.take(i as int) =~= bytes@);
}

/// Appends the UTF-8 bytes of `s` to `out`.
pub fn put(out: &mut Vec<u8>, s: &str)
    ensures
        final(out)@ == old(out)@ + lit(s),
{
    put_bytes(out, s.as_bytes());
}

/// Appends `s` in upper case to `out`.
pub fn put_upper(out: &mut Vec<u8>, s: &str)
    ensures
        final(out)@ == old(out)@ + ascii_upper(lit(s)),
{
    let bytes = s.as_bytes();
    let mut i: usize = 0;
    while i < bytes.len()
        invariant
            i <= bytes@.len(),
            bytes@ == lit(s),
            out@ == old(out)@ + ascii_upper(bytes@).take(i as int),
        decreases bytes@.len() - i,
    {
        let b: u8 = bytes[i];
        let u: u8 = if 0x61 <= b && b <= 0x7a {
            b - 0x20
        } else {
            b
        };
        out.push(u);
        assert(ascii_upper(bytes@).take(i + 1) =~= ascii_upper(bytes@).take(i as int).push(u));
        i += 1;
    }
    assert(ascii_upper(bytes@).take(i as int) =~= ascii_upper(bytes@));
}

/// Appends the decimal numeral of `n` to `out`.
pub fn put_decimal(out: &mut Vec<u8>, n: usize)
    ensures
        final(out)@ == old(out)@ + decimal(n as nat),
    decreases n,
{
    if n < 10 {
        out.push(0x30 + (n as u8));
        assert(out@ =~= old(out)@ + decimal(n as nat));
    } else {
        put_decimal(out, n / 10);
        out.push(0x30 + ((n % 10) as u8));
        assert(out@ =~= old(out)@ + decimal(n as nat));
    }
}

} // verus!
