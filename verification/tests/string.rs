use rvos_core::string::{
    memcmp, memcpy, memset, strcat, strcmp, strcpy, strlen, strncmp, strrchr, strstr,
};

/// The characters of `s` followed by a terminator.
fn c(s: &str) -> Vec<i8> {
    let mut chars: Vec<i8> = s.bytes().map(|b| b as i8).collect();
    chars.push(0);
    chars
}

/// The characters of `s`, without a terminator.
fn chars(s: &str) -> Vec<i8> {
    s.bytes().map(|b| b as i8).collect()
}

/// A buffer of `room` elements that starts with `s` and a terminator and is
/// filled up with `fill`.
fn buffer(s: &str, room: usize, fill: i8) -> Vec<i8> {
    let mut b = c(s);
    while b.len() < room {
        b.push(fill);
    }
    b
}

#[test]
fn memcpy_copies_the_first_n_bytes() {
    let mut dest = [9u8, 9, 9, 9, 9];
    memcpy(&mut dest, &[1, 2, 3], 2);
    assert_eq!(dest, [1, 2, 9, 9, 9]);
    memcpy(&mut dest, &[4, 5, 6, 7, 8], 5);
    assert_eq!(dest, [4, 5, 6, 7, 8]);
}

#[test]
fn memcpy_of_nothing_changes_nothing() {
    let mut dest = [1u8, 2, 3];
    memcpy(&mut dest, &[7, 7, 7], 0);
    assert_eq!(dest, [1, 2, 3]);
    let mut empty: [u8; 0] = [];
    memcpy(&mut empty, &[], 0);
}

#[test]
fn memset_fills_the_first_n_bytes() {
    let mut s = [1u8, 2, 3, 4];
    memset(&mut s, 0xab, 3);
    assert_eq!(s, [0xab, 0xab, 0xab, 4]);
    memset(&mut s, 0, 4);
    assert_eq!(s, [0, 0, 0, 0]);
    memset(&mut s, 7, 0);
    assert_eq!(s, [0, 0, 0, 0]);
}

#[test]
fn memset_takes_the_low_byte_of_its_value() {
    let mut s = [0u8; 2];
    memset(&mut s, 0x141, 2);
    assert_eq!(s, [0x41, 0x41]);
    memset(&mut s, -1, 1);
    assert_eq!(s, [0xff, 0x41]);
    memset(&mut s, 256, 2);
    assert_eq!(s, [0, 0]);
}

#[test]
fn memcmp_of_equal_buffers_is_zero() {
    assert_eq!(memcmp(&[1, 2, 3], &[1, 2, 3], 3), 0);
    assert_eq!(memcmp(&[], &[], 0), 0);
    assert_eq!(memcmp(&[1, 2, 3], &[9, 9, 9], 0), 0);
    assert_eq!(memcmp(&[1, 2, 3], &[1, 2, 9], 2), 0);
}

#[test]
fn memcmp_gives_the_difference_at_the_first_mismatch() {
    assert_eq!(memcmp(&[1, 2, 3], &[1, 5, 9], 3), -3);
    assert_eq!(memcmp(&[1, 5, 3], &[1, 2, 9], 3), 3);
    assert_eq!(memcmp(&[200], &[100], 1), 100);
    assert_eq!(memcmp(&[0], &[255], 1), -255);
    assert_eq!(memcmp(&[255], &[0], 1), 255);
    assert_eq!(memcmp(&[0, 0, 7], &[0, 0, 8], 3), -1);
}

#[test]
fn strlen_counts_up_to_the_first_terminator() {
    assert_eq!(strlen(&c("hello")), 5);
    assert_eq!(strlen(&c("")), 0);
    assert_eq!(strlen(&[97, 98, 0, 99, 100, 0]), 2);
    assert_eq!(strlen(&[0, 0, 0]), 0);
    assert_eq!(strlen(&[-1, -128, 0]), 2);
}

#[test]
fn strcmp_of_equal_texts_is_zero() {
    assert_eq!(strcmp(&c("abc"), &c("abc")), 0);
    assert_eq!(strcmp(&c(""), &c("")), 0);
    assert_eq!(strcmp(&buffer("abc", 8, 1), &buffer("abc", 5, 2)), 0);
}

#[test]
fn strcmp_gives_the_difference_at_the_first_mismatch() {
    assert_eq!(strcmp(&c("abc"), &c("abd")), -1);
    assert_eq!(strcmp(&c("abd"), &c("abc")), 1);
    assert_eq!(strcmp(&c("abc"), &c("ab")), 99);
    assert_eq!(strcmp(&c("ab"), &c("abc")), -99);
    assert_eq!(strcmp(&c(""), &c("a")), -97);
    assert_eq!(strcmp(&c("b"), &c("abc")), 1);
}

#[test]
fn strcmp_reads_characters_unsigned() {
    assert_eq!(strcmp(&[-1, 0], &[1, 0]), 254);
    assert_eq!(strcmp(&[1, 0], &[-1, 0]), -254);
    assert_eq!(strcmp(&[-128, 0], &[127, 0]), 1);
    assert_eq!(strcmp(&[-1, 0], &[0]), 255);
}

#[test]
fn strncmp_compares_at_most_n_characters() {
    assert_eq!(strncmp(&c("abcdef"), &c("abcxyz"), 3), 0);
    assert_eq!(strncmp(&c("abcdef"), &c("abcxyz"), 4), -20);
    assert_eq!(strncmp(&c("abcdef"), &c("abcxyz"), 100), -20);
    assert_eq!(strncmp(&c("abc"), &c("xyz"), 0), 0);
    assert_eq!(strncmp(&c("b"), &c("a"), 1), 1);
}

#[test]
fn strncmp_stops_at_the_terminator() {
    let a = [97i8, 98, 0, 122, 122];
    let b = [97i8, 98, 0, 121, 121];
    assert_eq!(strncmp(&a, &b, 5), 0);
    assert_eq!(strncmp(&c("ab"), &c("ab"), 50), 0);
    assert_eq!(strncmp(&c("ab"), &c("abc"), 50), -99);
    assert_eq!(strncmp(&c("ab"), &c("abc"), 2), 0);
    assert_eq!(strncmp(&c("ab"), &c("abc"), 3), -99);
}

#[test]
fn strncmp_works_on_buffers_without_terminator() {
    assert_eq!(strncmp(&chars("abc"), &chars("abc"), 3), 0);
    assert_eq!(strncmp(&chars("abc"), &chars("abd"), 3), -1);
    assert_eq!(strncmp(&chars("abcz"), &chars("abcy"), 3), 0);
    assert_eq!(strncmp(&[-1, 5], &[1, 5], 2), 254);
}

#[test]
fn strcpy_copies_text_and_terminator() {
    let mut dest = [7i8; 6];
    strcpy(&mut dest, &c("hi"));
    assert_eq!(dest, [104, 105, 0, 7, 7, 7]);
    strcpy(&mut dest, &c(""));
    assert_eq!(dest, [0, 105, 0, 7, 7, 7]);
    strcpy(&mut dest, &c("hello"));
    assert_eq!(dest, [104, 101, 108, 108, 111, 0]);
    assert_eq!(strlen(&dest), 5);
}

#[test]
fn strcpy_stops_at_the_first_terminator_of_the_source() {
    let mut dest = [7i8; 5];
    strcpy(&mut dest, &[97, 0, 98, 0]);
    assert_eq!(dest, [97, 0, 7, 7, 7]);
}

#[test]
fn strcat_appends_behind_the_text_of_the_destination() {
    let mut dest = buffer("ab", 8, 7);
    strcat(&mut dest, &c("cd"));
    assert_eq!(dest, vec![97, 98, 99, 100, 0, 7, 7, 7]);
    assert_eq!(strlen(&dest), 4);
    strcat(&mut dest, &c(""));
    assert_eq!(dest, vec![97, 98, 99, 100, 0, 7, 7, 7]);
    strcat(&mut dest, &c("xyz"));
    assert_eq!(dest, vec![97, 98, 99, 100, 120, 121, 122, 0]);
    assert_eq!(strlen(&dest), 7);
}

#[test]
fn strcat_to_an_empty_string_copies() {
    let mut dest = buffer("", 4, 9);
    strcat(&mut dest, &c("abc"));
    assert_eq!(dest, vec![97, 98, 99, 0]);
}

#[test]
fn strrchr_finds_the_last_occurrence() {
    assert_eq!(strrchr(&c("hello"), 108), Some(3));
    assert_eq!(strrchr(&c("hello"), 104), Some(0));
    assert_eq!(strrchr(&c("hello"), 111), Some(4));
    assert_eq!(strrchr(&c("a/b/c"), 47), Some(3));
}

#[test]
fn strrchr_without_occurrence_is_none() {
    assert_eq!(strrchr(&c("hello"), 122), None);
    assert_eq!(strrchr(&c(""), 97), None);
    assert_eq!(strrchr(&[97, 0, 98, 0], 98), None);
}

#[test]
fn strrchr_finds_the_terminator() {
    assert_eq!(strrchr(&c("hello"), 0), Some(5));
    assert_eq!(strrchr(&c(""), 0), Some(0));
    assert_eq!(strrchr(&c("hi"), 256), Some(2));
}

#[test]
fn strrchr_takes_the_low_byte_of_its_value() {
    assert_eq!(strrchr(&c("hello"), 108 + 256), Some(3));
    assert_eq!(strrchr(&[-1, 5, -1, 0], 255), Some(2));
    assert_eq!(strrchr(&[-1, 5, -1, 0], -1), Some(2));
}

#[test]
fn strstr_finds_the_first_occurrence() {
    assert_eq!(strstr(&c("hello world"), &c("o w")), Some(4));
    assert_eq!(strstr(&c("hello world"), &c("hello")), Some(0));
    assert_eq!(strstr(&c("hello world"), &c("world")), Some(6));
    assert_eq!(strstr(&c("hello world"), &c("o")), Some(4));
    assert_eq!(strstr(&c("aaa"), &c("aa")), Some(0));
    assert_eq!(strstr(&c("abcabd"), &c("abd")), Some(3));
    assert_eq!(strstr(&c("abc"), &c("abc")), Some(0));
}

#[test]
fn strstr_of_an_empty_needle_is_the_front() {
    assert_eq!(strstr(&c("hello"), &c("")), Some(0));
    assert_eq!(strstr(&c(""), &c("")), Some(0));
}

#[test]
fn strstr_without_occurrence_is_none() {
    assert_eq!(strstr(&c("hello"), &c("xyz")), None);
    assert_eq!(strstr(&c("hello"), &c("hello world")), None);
    assert_eq!(strstr(&c(""), &c("a")), None);
    assert_eq!(strstr(&c("abcab"), &c("abd")), None);
    assert_eq!(strstr(&c("hello"), &c("lloo")), None);
}

#[test]
fn strstr_does_not_look_behind_the_terminator() {
    let haystack = [97i8, 98, 0, 99, 100, 0];
    assert_eq!(strstr(&haystack, &c("cd")), None);
    assert_eq!(strstr(&haystack, &c("b")), Some(1));
    let needle = [98i8, 0, 120, 0];
    assert_eq!(strstr(&haystack, &needle), Some(1));
}

#[test]
fn strncmp_of_a_string_and_a_longer_buffer() {
    assert_eq!(strncmp(&c("ab"), &chars("abcdef"), 6), -99);
    assert_eq!(strncmp(&chars("abcdef"), &c("ab"), 6), 99);
    assert_eq!(strncmp(&c("ab"), &chars("abcdef"), 2), 0);
}
