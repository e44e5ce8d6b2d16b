//! The C string functions that the kernel's C code links against, on slices.
//!
//! A buffer is a slice. A C string is a buffer of `i8` that holds a NUL; its
//! text is what stands before the first NUL and its length is the position of
//! that NUL. A position in a buffer is an index, and a function that hands
//! back "a pointer or null" in C hands back an index or `None` here. What a C
//! caller must guarantee about its pointers (that a buffer is long enough,
//! that a string ends) is a precondition.

use vstd::prelude::*;
use vstd::slice::*;

verus! {

/// A `char` read the way the comparisons read it: as an `unsigned char`.
pub open spec fn unsigned(c: i8) -> u8 {
    c as u8
}

/// An `int` argument converted to the `unsigned char` that it stands for.
pub open spec fn low_byte(c: i32) -> u8 {
    c as u8
}

/// A position as a mathematical integer.
pub open spec fn int_of(i: usize) -> int {
    i as int
}

/// The difference by which two bytes are ordered.
pub open spec fn byte_difference(a: u8, b: u8) -> int {
    a - b
}

/// The difference by which two characters are ordered: that of their
/// unsigned readings.
pub open spec fn char_difference(a: i8, b: i8) -> int {
    unsigned(a) - unsigned(b)
}

/// `s` holds a NUL at `n` and none before: `s` is a C string of length `n`.
pub open spec fn terminated_at(s: Seq<i8>, n: int) -> bool {
    &&& 0 <= n < s.len()
    &&& s[n] == 0
    &&& forall|i: int| 0 <= i < n ==> s[i] != 0
}

/// `s` holds a NUL, so a C string starts at its first element.
pub open spec fn is_c_string(s: Seq<i8>) -> bool {
    exists|n: int| terminated_at(s, n)
}

/// The length of the C string that starts at the first element of `s`: the
/// position of the first NUL.
pub open spec fn c_length(s: Seq<i8>) -> int
    recommends
        is_c_string(s),
{
    choose|n: int| terminated_at(s, n)
}

/// The first position at which the buffers `a` and `b` differ is `k`.
pub open spec fn bytes_differ_first_at(a: Seq<u8>, b: Seq<u8>, k: int) -> bool {
    &&& 0 <= k < a.len()
    &&& k < b.len()
    &&& a[k] != b[k]
    &&& forall|i: int| 0 <= i < k ==> a[i] == b[i]
}

/// The first position at which the strings `a` and `b` differ is `k`: they
/// agree before `k`, and neither ends before `k`.
pub open spec fn differ_first_at(a: Seq<i8>, b: Seq<i8>, k: int) -> bool {
    &&& 0 <= k < a.len()
    &&& k < b.len()
    &&& a[k] != b[k]
    &&& forall|i: int| 0 <= i < k ==> a[i] == b[i] && a[i] != 0
}

/// The text of the string `needle` stands in the text of the string
/// `haystack` from position `i` on.
pub open spec fn occurs_at(haystack: Seq<i8>, needle: Seq<i8>, i: int) -> bool {
    &&& 0 <= i
    &&& i + c_length(needle) <= c_length(haystack)
    &&& forall|k: int| 0 <= k < c_length(needle) ==> haystack[i + k] == needle[k]
}

/// The first position from which on the text of `needle` stands in the text
/// of `haystack` is `i`.
pub open spec fn first_occurrence(haystack: Seq<i8>, needle: Seq<i8>, i: usize) -> bool {
    &&& occurs_at(haystack, needle, i as int)
    &&& forall|j: int| 0 <= j < i ==> !occurs_at(haystack, needle, j)
}

/// The last position at or before the terminator of `s` that holds the
/// character `c` is `i`.
pub open spec fn last_position_of(s: Seq<i8>, c: i32, i: int) -> bool {
    &&& 0 <= i <= c_length(s)
    &&& unsigned(s[i]) == low_byte(c)
    &&& forall|j: int| i < j <= c_length(s) ==> unsigned(s[j]) != low_byte(c)
}

/// A string has one length.
pub proof fn lemma_length_is_unique(s: Seq<i8>, n: int)
    requires
        terminated_at(s, n),
    ensures
        is_c_string(s),
        c_length(s) == n,
{
    let m = c_length(s);
    assert(terminated_at(s, m));
    if m < n {
        assert(s[m] != 0);
    } else if n < m {
        assert(s[n] != 0);
    }
}

/// A buffer that holds a NUL anywhere is a C string.
pub proof fn lemma_nul_makes_c_string(s: Seq<i8>, k: int)
    requires
        0 <= k < s.len(),
        s[k] == 0,
    ensures
        is_c_string(s),
        0 <= c_length(s) <= k,
        terminated_at(s, c_length(s)),
    decreases k,
{
    if forall|i: int| 0 <= i < k ==> s[i] != 0 {
        assert(terminated_at(s, k));
        lemma_length_is_unique(s, k);
    } else {
        let i = choose|i: int| 0 <= i < k && s[i] == 0;
        lemma_nul_makes_c_string(s, i);
    }
}

/// The terminator of a C string is where its length says.
pub proof fn lemma_length_terminates(s: Seq<i8>)
    requires
        is_c_string(s),
    ensures
        terminated_at(s, c_length(s)),
{
}

/// Reads a character as an `unsigned char`.
fn to_unsigned(c: i8) -> (b: u8)
    ensures
        b == unsigned(c),
        (b == 0) == (c == 0),
{
    assert((c as u8 == 0) == (c == 0)) by (bit_vector);
    #[verifier::truncate]
    (c as u8)
}

/// Distinct characters have distinct unsigned readings.
pub proof fn lemma_unsigned_is_injective(a: i8, b: i8)
    ensures
        (unsigned(a) == unsigned(b)) == (a == b),
        (char_difference(a, b) == 0) == (a == b),
{
    assert((a as u8 == b as u8) == (a == b)) by (bit_vector);
}

/// The difference by which `a` and `b` are ordered.
fn difference(a: u8, b: u8) -> (d: i32)
    ensures
        d == byte_difference(a, b),
{
    (a as i32) - (b as i32)
}

/// Copies the first `n` bytes of `src` to the front of `dest`. The two cannot
/// overlap.
pub fn memcpy(dest: &mut [u8], src: &[u8], n: usize)
    requires
        n <= old(dest)@.len(),
        n <= src@.len(),
    ensures
        final(dest)@ == src@.take(n as int) + old(dest)@.skip(n as int),
{
    let mut i: usize = 0;
    while i < n
        invariant
            i <= n,
            n <= src@.len(),
            n <= dest@.len(),
            dest@.len() == old(dest)@.len(),
            forall|j: int| 0 <= j < i ==> dest@[j] == src@[j],
            forall|j: int| i <= j < dest@.len() ==> dest@[j] == old(dest)@[j],
        decreases n - i,
    {
        dest[i] = src[i];
        i += 1;
    }
    assert(dest@ =~= src@.take(n as int) + old(dest)@.skip(n as int));
}

/// Fills the first `n` bytes of `s` with the byte that `c` stands for.
pub fn memset(s: &mut [u8], c: i32, n: usize)
    requires
        n <= old(s)@.len(),
    ensures
        final(s)@ == Seq::new(n as nat, |i: int| low_byte(c)) + old(s)@.skip(n as int),
{
    let byte: u8 = #[verifier::truncate]
    (c as u8);
    let mut i: usize = 0;
    while i < n
        invariant
            i <= n,
            n <= s@.len(),
            s@.len() == old(s)@.len(),
            byte == low_byte(c),
            forall|j: int| 0 <= j < i ==> s@[j] == byte,
            forall|j: int| i <= j < s@.len() ==> s@[j] == old(s)@[j],
        decreases n - i,
    {
        s[i] = byte;
        i += 1;
    }
    assert(s@ =~= Seq::new(n as nat, |i: int| low_byte(c)) + old(s)@.skip(n as int));
}

/// Compares the first `n` bytes of two buffers. The result is 0 if they are
/// the same, and otherwise the difference of the two bytes at the first
/// position at which they differ, each read as an unsigned value.
pub fn memcmp(s1: &[u8], s2: &[u8], n: usize) -> (r: i32)
    requires
        n <= s1@.len(),
        n <= s2@.len(),
    ensures
        forall|k: int|
            0 <= k < n && bytes_differ_first_at(s1@, s2@, k) ==> r == byte_difference(
                s1@[k],
                s2@[k],
            ),
        (r == 0) == (forall|k: int| 0 <= k < n ==> s1@[k] == s2@[k]),
{
    let mut i: usize = 0;
    while i < n
        invariant
            i <= n,
            n <= s1@.len(),
            n <= s2@.len(),
            forall|j: int| 0 <= j < i ==> s1@[j] == s2@[j],
        decreases n - i,
    {
        let b1: u8 = s1[i];
        let b2: u8 = s2[i];
        if b1 != b2 {
            return difference(b1, b2);
        }
        i += 1;
    }
    0
}

/// The length of a C string: the number of characters before its terminator.
pub fn strlen(s: &[i8]) -> (len: usize)
    requires
        is_c_string(s@),
    ensures
        len == c_length(s@),
        terminated_at(s@, len as int),
{
    let mut len: usize = 0;
    while s[len] != 0
        invariant
            is_c_string(s@),
            0 <= len <= c_length(s@),
            terminated_at(s@, c_length(s@)),
            forall|j: int| 0 <= j < len ==> s@[j] != 0,
        decreases c_length(s@) - len,
    {
        len += 1;
    }
    proof {
        lemma_length_is_unique(s@, len as int);
    }
    len
}

/// Compares two C strings. The result is 0 if their texts are the same, and
/// otherwise the difference of the two characters at the first position at
/// which they differ, each read as an unsigned value.
pub fn strcmp(s1: &[i8], s2: &[i8]) -> (r: i32)
    requires
        is_c_string(s1@),
        is_c_string(s2@),
    ensures
        forall|k: int| differ_first_at(s1@, s2@, k) ==> r == char_difference(s1@[k], s2@[k]),
        (r == 0) == (forall|k: int| !differ_first_at(s1@, s2@, k)),
        (r == 0) == (s1@.take(c_length(s1@)) == s2@.take(c_length(s2@))),
{
    let mut i: usize = 0;
    loop
        invariant
            is_c_string(s1@),
            is_c_string(s2@),
            i <= c_length(s1@),
            i <= c_length(s2@),
            forall|j: int| 0 <= j < i ==> s1@[j] == s2@[j] && s1@[j] != 0,
        decreases c_length(s1@) - i,
    {
        proof {
            lemma_length_terminates(s1@);
            lemma_length_terminates(s2@);
        }
        let c1: u8 = to_unsigned(s1[i]);
        let c2: u8 = to_unsigned(s2[i]);
        if c1 != c2 {
            proof {
                lemma_first_difference_decides(s1@, s2@, int_of(i));
            }
            return difference(c1, c2);
        }
        proof {
            lemma_unsigned_is_injective(s1@[int_of(i)], s2@[int_of(i)]);
        }
        if c1 == 0 {
            proof {
                lemma_equal_texts(s1@, s2@, int_of(i));
            }
            return 0;
        }
        i += 1;
    }
}

/// Compares at most `n` characters of two C strings. The result is 0 if
/// their texts are the same up to `n` characters, and otherwise the
/// difference of the two characters at the first position at which they
/// differ, each read as an unsigned value.
///
/// A buffer that holds fewer than `n` characters has to be a C string.
pub fn strncmp(s1: &[i8], s2: &[i8], n: usize) -> (r: i32)
    requires
        n <= s1@.len() || is_c_string(s1@),
        n <= s2@.len() || is_c_string(s2@),
    ensures
        forall|k: int|
            0 <= k < n && differ_first_at(s1@, s2@, k) ==> r == char_difference(s1@[k], s2@[k]),
        (r == 0) == (forall|k: int| 0 <= k < n ==> !differ_first_at(s1@, s2@, k)),
{
    let mut i: usize = 0;
    while i < n
        invariant
            i <= n,
            n <= s1@.len() || is_c_string(s1@),
            n <= s2@.len() || is_c_string(s2@),
            forall|j: int| 0 <= j < i ==> s1@[j] == s2@[j] && s1@[j] != 0,
        decreases n - i,
    {
        proof {
            if is_c_string(s1@) {
                lemma_within_reach(s1@, int_of(i));
            }
            if is_c_string(s2@) {
                lemma_within_reach(s2@, int_of(i));
            }
        }
        let c1: u8 = to_unsigned(s1[i]);
        let c2: u8 = to_unsigned(s2[i]);
        if c1 != c2 {
            proof {
                lemma_first_difference_decides(s1@, s2@, int_of(i));
            }
            return difference(c1, c2);
        }
        proof {
            lemma_unsigned_is_injective(s1@[int_of(i)], s2@[int_of(i)]);
        }
        if c1 == 0 {
            proof {
                lemma_no_difference_after_end(s1@, s2@, int_of(i));
            }
            return 0;
        }
        i += 1;
    }
    proof {
        lemma_no_difference_before(s1@, s2@, int_of(i));
    }
    0
}

/// Copies the string `src`, terminator included, into `dest` from position
/// `at` on.
fn copy_string_at(dest: &mut [i8], at: usize, src: &[i8])
    requires
        is_c_string(src@),
        at + c_length(src@) < old(dest)@.len(),
    ensures
        final(dest)@ == old(dest)@.take(at as int) + src@.take(c_length(src@) + 1) + old(dest)@.skip(
            at + c_length(src@) + 1,
        ),
{
    let ghost n = c_length(src@);
    proof {
        lemma_length_terminates(src@);
        axiom_spec_len(dest);
    }
    let mut i: usize = 0;
    loop
        invariant_except_break
            dest@.len() <= usize::MAX,
            terminated_at(src@, n),
            n == c_length(src@),
            i <= n,
            at + n < dest@.len(),
            dest@.len() == old(dest)@.len(),
            forall|j: int| 0 <= j < at ==> dest@[j] == old(dest)@[j],
            forall|j: int| 0 <= j < i ==> dest@[at + j] == src@[j],
            forall|j: int| at + i <= j < dest@.len() ==> dest@[j] == old(dest)@[j],
        ensures
            dest@.len() == old(dest)@.len(),
            at + n < dest@.len(),
            n == c_length(src@),
            0 <= n < src@.len(),
            forall|j: int| 0 <= j < at ==> dest@[j] == old(dest)@[j],
            forall|j: int| 0 <= j <= n ==> dest@[at + j] == src@[j],
            forall|j: int| at + n < j < dest@.len() ==> dest@[j] == old(dest)@[j],
        decreases n - i,
    {
        let c: i8 = src[i];
        dest[at + i] = c;
        if c == 0 {
            break ;
        }
        i += 1;
    }
    assert(dest@ =~= old(dest)@.take(at as int) + src@.take(n + 1) + old(dest)@.skip(at + n + 1));
}

/// Copies the string `src`, terminator included, to the front of `dest`.
/// What `dest` holds behind the terminator stays.
pub fn strcpy(dest: &mut [i8], src: &[i8])
    requires
        is_c_string(src@),
        c_length(src@) < old(dest)@.len(),
    ensures
        final(dest)@ == src@.take(c_length(src@) + 1) + old(dest)@.skip(c_length(src@) + 1),
        is_c_string(final(dest)@),
        c_length(final(dest)@) == c_length(src@),
{
    copy_string_at(dest, 0, src);
    proof {
        let n = c_length(src@);
        lemma_length_terminates(src@);
        assert(old(dest)@.take(0) =~= Seq::<i8>::empty());
        assert(dest@ =~= src@.take(n + 1) + old(dest)@.skip(n + 1));
        assert(terminated_at(dest@, n));
        lemma_length_is_unique(dest@, n);
    }
}

/// Appends the string `src` to the string in `dest`: the text of `src` and a
/// terminator replace what `dest` holds from its own terminator on.
pub fn strcat(dest: &mut [i8], src: &[i8])
    requires
        is_c_string(old(dest)@),
        is_c_string(src@),
        c_length(old(dest)@) + c_length(src@) < old(dest)@.len(),
    ensures
        final(dest)@ == old(dest)@.take(c_length(old(dest)@)) + src@.take(c_length(src@) + 1)
            + old(dest)@.skip(c_length(old(dest)@) + c_length(src@) + 1),
        is_c_string(final(dest)@),
        c_length(final(dest)@) == c_length(old(dest)@) + c_length(src@),
{
    let dest_len: usize = strlen(dest);
    copy_string_at(dest, dest_len, src);
    proof {
        let n = c_length(src@);
        lemma_length_terminates(src@);
        assert(terminated_at(dest@, dest_len + n));
        lemma_length_is_unique(dest@, dest_len + n);
    }
}

/// Finds the last place in the string `s` that holds the character that `c`
/// stands for. The terminator counts as part of the string, so looking for
/// NUL finds the end.
pub fn strrchr(s: &[i8], c: i32) -> (r: Option<usize>)
    requires
        is_c_string(s@),
    ensures
        match r {
            Some(i) => last_position_of(s@, c, i as int),
            None => forall|j: int| 0 <= j <= c_length(s@) ==> unsigned(s@[j]) != low_byte(c),
        },
{
    let len: usize = strlen(s);
    let ch: u8 = #[verifier::truncate]
    (c as u8);
    let mut i: usize = len;
    loop
        invariant
            len == c_length(s@),
            len < s@.len(),
            i <= len,
            ch == low_byte(c),
            forall|j: int| i < j <= len ==> unsigned(s@[j]) != ch,
        decreases i,
    {
        if to_unsigned(s[i]) == ch {
            return Some(i);
        }
        if i == 0 {
            return None;
        }
        i -= 1;
    }
}

/// The part of the buffer `s` from position `i` on.
fn tail(s: &[i8], i: usize) -> (t: &[i8])
    requires
        i <= s@.len(),
    ensures
        t@ == s@.skip(int_of(i)),
{
    let t = slice_subrange(s, i, s.len());
    assert(t@ =~= s@.skip(int_of(i)));
    t
}

/// Finds the first place in the text of the string `haystack` from which on
/// the text of the string `needle` stands. An empty `needle` stands at the
/// front of every string.
pub fn strstr(haystack: &[i8], needle: &[i8]) -> (r: Option<usize>)
    requires
        is_c_string(haystack@),
        is_c_string(needle@),
    ensures
        match r {
            Some(i) => first_occurrence(haystack@, needle@, i),
            None => forall|j: int| !occurs_at(haystack@, needle@, j),
        },
{
    let haystack_len: usize = strlen(haystack);
    let needle_len: usize = strlen(needle);
    if needle_len == 0 {
        return Some(0);
    }
    if needle_len > haystack_len {
        return None;
    }
    let last: usize = haystack_len - needle_len;
    let mut i: usize = 0;
    while i <= last
        invariant
            haystack_len == c_length(haystack@),
            needle_len == c_length(needle@),
            terminated_at(haystack@, c_length(haystack@)),
            terminated_at(needle@, c_length(needle@)),
            0 < needle_len <= haystack_len,
            last == haystack_len - needle_len,
            i <= last + 1,
            forall|j: int| 0 <= j < i ==> !occurs_at(haystack@, needle@, j),
        decreases last + 1 - i,
    {
        let here = tail(haystack, i);
        let r: i32 = strncmp(here, needle, needle_len);
        proof {
            lemma_occurrence_is_no_difference(haystack@, needle@, int_of(i));
        }
        if r == 0 {
            return Some(i);
        }
        i += 1;
    }
    None
}

/// The text of `needle` stands in `haystack` from `i` on exactly if the part
/// of `haystack` from `i` on and `needle` do not differ within the length of
/// `needle`.
proof fn lemma_occurrence_is_no_difference(haystack: Seq<i8>, needle: Seq<i8>, i: int)
    requires
        terminated_at(haystack, c_length(haystack)),
        terminated_at(needle, c_length(needle)),
        0 <= i,
        i + c_length(needle) <= c_length(haystack),
    ensures
        occurs_at(haystack, needle, i) == (forall|k: int|
            0 <= k < c_length(needle) ==> !differ_first_at(haystack.skip(i), needle, k)),
{
    let here = haystack.skip(i);
    let n = c_length(needle);
    if occurs_at(haystack, needle, i) {
        assert forall|k: int| 0 <= k < n implies !differ_first_at(here, needle, k) by {
            assert(here[k] == haystack[i + k]);
        }
    } else {
        let k = choose|k: int| 0 <= k < n && haystack[i + k] != needle[k];
        lemma_first_difference_exists(here, needle, k);
    }
}

/// Two strings that differ at a position which no terminator of the second
/// precedes differ for the first time at or before that position.
proof fn lemma_first_difference_exists(a: Seq<i8>, b: Seq<i8>, k: int)
    requires
        0 <= k < a.len(),
        k < b.len(),
        a[k] != b[k],
        forall|j: int| 0 <= j < k ==> b[j] != 0,
    ensures
        exists|m: int| 0 <= m <= k && differ_first_at(a, b, m),
    decreases k,
{
    if forall|j: int| 0 <= j < k ==> a[j] == b[j] {
        assert(differ_first_at(a, b, k));
    } else {
        let j = choose|j: int| 0 <= j < k && a[j] != b[j];
        lemma_first_difference_exists(a, b, j);
    }
}

/// A position that only non-NUL characters precede lies within the buffer,
/// if the buffer is a C string.
proof fn lemma_within_reach(s: Seq<i8>, i: int)
    requires
        0 <= i,
        forall|j: int| 0 <= j < i ==> s[j] != 0,
        is_c_string(s),
    ensures
        i <= c_length(s) < s.len(),
{
    lemma_length_terminates(s);
}

/// Where two strings differ for the first time, the characters' readings
/// differ, and no other position is the first difference.
proof fn lemma_first_difference_decides(a: Seq<i8>, b: Seq<i8>, i: int)
    requires
        0 <= i < a.len(),
        i < b.len(),
        unsigned(a[i]) != unsigned(b[i]),
        forall|j: int| 0 <= j < i ==> a[j] == b[j] && a[j] != 0,
    ensures
        differ_first_at(a, b, i),
        char_difference(a[i], b[i]) != 0,
        forall|k: int| differ_first_at(a, b, k) ==> k == i,
        is_c_string(a) && is_c_string(b) ==> a.take(c_length(a)) != b.take(c_length(b)),
{
    lemma_unsigned_is_injective(a[i], b[i]);
    assert forall|k: int| differ_first_at(a, b, k) implies k == i by {
        if k < i {
            assert(a[k] == b[k]);
        } else if i < k {
            assert(a[i] == b[i]);
        }
    }
    if is_c_string(a) && is_c_string(b) {
        lemma_length_terminates(a);
        lemma_length_terminates(b);
        let la = c_length(a);
        let lb = c_length(b);
        if a.take(la) == b.take(lb) {
            assert(a.take(la).len() == la);
            assert(b.take(lb).len() == lb);
            assert(i <= la) by {
                if la < i {
                    assert(a[la] != 0);
                }
            }
            if i < la {
                assert(a.take(la)[i] == a[i]);
                assert(b.take(lb)[i] == b[i]);
            }
        }
    }
}

/// Two strings that agree up to a position where both end have the same
/// text, and differ nowhere for the first time.
proof fn lemma_equal_texts(a: Seq<i8>, b: Seq<i8>, i: int)
    requires
        0 <= i < a.len(),
        i < b.len(),
        a[i] == 0,
        b[i] == 0,
        forall|j: int| 0 <= j < i ==> a[j] == b[j] && a[j] != 0,
    ensures
        c_length(a) == i,
        c_length(b) == i,
        a.take(c_length(a)) == b.take(c_length(b)),
        forall|k: int| !differ_first_at(a, b, k),
{
    assert(terminated_at(a, i));
    assert(terminated_at(b, i));
    lemma_length_is_unique(a, i);
    lemma_length_is_unique(b, i);
    assert(a.take(i) =~= b.take(i));
    lemma_no_difference_after_end(a, b, i);
}

/// Two strings that agree up to a position where both end differ nowhere
/// for the first time.
proof fn lemma_no_difference_after_end(a: Seq<i8>, b: Seq<i8>, i: int)
    requires
        0 <= i < a.len(),
        i < b.len(),
        a[i] == 0,
        b[i] == 0,
        forall|j: int| 0 <= j < i ==> a[j] == b[j] && a[j] != 0,
    ensures
        forall|k: int| !differ_first_at(a, b, k),
{
    assert forall|k: int| !differ_first_at(a, b, k) by {
        if differ_first_at(a, b, k) {
            if k < i {
                assert(a[k] == b[k]);
            } else if k > i {
                assert(a[i] != 0);
            }
        }
    }
}

/// Two strings that agree before a position do not differ for the first
/// time before it.
proof fn lemma_no_difference_before(a: Seq<i8>, b: Seq<i8>, i: int)
    requires
        forall|j: int| 0 <= j < i ==> a[j] == b[j] && a[j] != 0,
    ensures
        forall|k: int| 0 <= k < i ==> !differ_first_at(a, b, k),
{
    assert forall|k: int| 0 <= k < i implies !differ_first_at(a, b, k) by {
        assert(a[k] == b[k]);
    }
}

} // verus!
