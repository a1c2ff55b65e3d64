use fast_release::text::{
    char_is_whitespace, chars_of, contains_double_slash, find_first, find_from, find_last_before,
    find_whitespace, same_text, utf8_offset,
};

#[test]
fn whitespace_is_what_the_standard_library_calls_whitespace() {
    for code in 0..=0x10FFFFu32 {
        if let Some(c) = char::from_u32(code) {
            assert_eq!(char_is_whitespace(c), c.is_whitespace(), "U+{:04X}", code);
        }
    }
}

#[test]
fn characters_come_out_in_order() {
    assert_eq!(chars_of("aé#"), vec!['a', 'é', '#']);
    assert_eq!(chars_of(""), Vec::<char>::new());
}

#[test]
fn same_text_compares_characters() {
    assert!(same_text("", ""));
    assert!(same_text("ssh:", "ssh:"));
    assert!(!same_text("ssh:", "ssh"));
    assert!(!same_text("ssh:", "SSH:"));
}

#[test]
fn first_position_is_the_least() {
    let chars = chars_of("a/b/c");
    assert_eq!(find_first(&chars, '/'), Some(1));
    assert_eq!(find_first(&chars, 'a'), Some(0));
    assert_eq!(find_first(&chars, 'c'), Some(4));
    assert_eq!(find_first(&chars, 'x'), None);
    assert_eq!(find_first(&Vec::new(), 'x'), None);
}

#[test]
fn search_starts_where_it_is_told() {
    let chars = chars_of("a/b/c");
    assert_eq!(find_from(&chars, '/', 0), Some(1));
    assert_eq!(find_from(&chars, '/', 1), Some(1));
    assert_eq!(find_from(&chars, '/', 2), Some(3));
    assert_eq!(find_from(&chars, '/', 4), None);
    assert_eq!(find_from(&chars, '/', 5), None);
    assert_eq!(find_from(&chars, '/', 6), None);
    assert_eq!(find_from(&chars, '/', usize::MAX), None);
}

#[test]
fn last_position_is_the_greatest_below_the_end() {
    let chars = chars_of("a:b:c");
    assert_eq!(find_last_before(&chars, ':', 5), Some(3));
    assert_eq!(find_last_before(&chars, ':', 4), Some(3));
    assert_eq!(find_last_before(&chars, ':', 3), Some(1));
    assert_eq!(find_last_before(&chars, ':', 1), None);
    assert_eq!(find_last_before(&chars, ':', 0), None);
}

#[test]
fn end_beyond_the_length_counts_as_the_length() {
    let chars = chars_of("a:b:c");
    assert_eq!(find_last_before(&chars, ':', 6), Some(3));
    assert_eq!(find_last_before(&chars, ':', usize::MAX), Some(3));
    assert_eq!(find_last_before(&chars, 'c', 9), Some(4));
    assert_eq!(find_last_before(&Vec::new(), 'c', 9), None);
}

#[test]
fn byte_offsets_follow_the_encoding() {
    let s = "aé日🦀z";
    let expected: Vec<usize> = s.char_indices().map(|(offset, _)| offset).collect();
    assert_eq!(expected, vec![0, 1, 3, 6, 10]);
    for (index, offset) in expected.iter().enumerate() {
        assert_eq!(utf8_offset(s, index), *offset);
    }
    assert_eq!(utf8_offset(s, 5), s.len());
    assert_eq!(utf8_offset(s, 6), s.len());
    assert_eq!(utf8_offset(s, usize::MAX), s.len());
    assert_eq!(utf8_offset("", 0), 0);
    assert_eq!(utf8_offset("", 3), 0);
    assert_eq!(utf8_offset("\u{7F}\u{80}\u{7FF}\u{800}\u{FFFF}\u{10000}\u{10FFFF}", 7), 1 + 2 + 2 + 3 + 3 + 4 + 4);
}

#[test]
fn first_whitespace_is_found() {
    assert_eq!(find_whitespace(&chars_of("ab c d")), Some(2));
    assert_eq!(find_whitespace(&chars_of("abc")), None);
    assert_eq!(find_whitespace(&chars_of("é\u{2003}")), Some(1));
}

#[test]
fn double_slash_is_two_adjacent_slashes() {
    assert!(contains_double_slash(&chars_of("a//b")));
    assert!(contains_double_slash(&chars_of("//")));
    assert!(contains_double_slash(&chars_of("a/b//")));
    assert!(!contains_double_slash(&chars_of("a/b/c/")));
    assert!(!contains_double_slash(&chars_of("/")));
    assert!(!contains_double_slash(&chars_of("")));
}
