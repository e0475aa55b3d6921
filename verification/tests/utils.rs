use camelcase_editor::utils::char_to_byte_idx;
use camelcase_editor::utils::chars_of;
use camelcase_editor::utils::line_len_chars;
use camelcase_editor::utils::push_decimal;

#[test]
fn byte_index_of_ascii_text_is_the_char_index() {
    assert_eq!(char_to_byte_idx("hello", 0), 0);
    assert_eq!(char_to_byte_idx("hello", 3), 3);
    assert_eq!(char_to_byte_idx("hello", 5), 5);
}

#[test]
fn byte_index_counts_the_bytes_of_wide_chars() {
    // 'h' 1 byte, 'é' 2 bytes, '€' 3 bytes, '😀' 4 bytes
    let s = "hé€😀x";
    assert_eq!(char_to_byte_idx(s, 0), 0);
    assert_eq!(char_to_byte_idx(s, 1), 1);
    assert_eq!(char_to_byte_idx(s, 2), 3);
    assert_eq!(char_to_byte_idx(s, 3), 6);
    assert_eq!(char_to_byte_idx(s, 4), 10);
    assert_eq!(char_to_byte_idx(s, 5), 11);
}

#[test]
fn byte_index_past_the_end_is_the_byte_length() {
    assert_eq!(char_to_byte_idx("hé", 2), 3);
    assert_eq!(char_to_byte_idx("hé", 3), 3);
    assert_eq!(char_to_byte_idx("hé", usize::MAX), 3);
    assert_eq!(char_to_byte_idx("", 0), 0);
    assert_eq!(char_to_byte_idx("", 7), 0);
}

#[test]
fn byte_index_agrees_with_char_indices() {
    let s = "añb😀c€";
    for (k, (byte, _)) in s.char_indices().enumerate() {
        assert_eq!(char_to_byte_idx(s, k), byte);
    }
}

#[test]
fn line_length_counts_chars_not_bytes() {
    assert_eq!(line_len_chars(""), 0);
    assert_eq!(line_len_chars("hello"), 5);
    assert_eq!(line_len_chars("hé€😀x"), 5);
}

#[test]
fn chars_of_gives_each_char_in_order() {
    assert_eq!(chars_of(""), Vec::<char>::new());
    assert_eq!(chars_of("hé€"), vec!['h', 'é', '€']);
}

#[test]
fn decimal_of_small_and_large_numbers() {
    let mut s = String::new();
    push_decimal(&mut s, 0);
    assert_eq!(s, "0");
    let mut s = String::from("n=");
    push_decimal(&mut s, 7);
    assert_eq!(s, "n=7");
    let mut s = String::new();
    push_decimal(&mut s, 10);
    assert_eq!(s, "10");
    let mut s = String::new();
    push_decimal(&mut s, 1234567890);
    assert_eq!(s, "1234567890");
    let mut s = String::new();
    push_decimal(&mut s, usize::MAX);
    assert_eq!(s, format!("{}", usize::MAX));
}
