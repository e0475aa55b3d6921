use camelcase_editor::buffer::delete_char_before;
use camelcase_editor::buffer::delete_range;
use camelcase_editor::buffer::extract_range;
use camelcase_editor::buffer::insert_char;
use camelcase_editor::buffer::insert_newline;
use camelcase_editor::buffer::merge_line_with_previous;
use camelcase_editor::buffer::splice_text;
use camelcase_editor::buffer::split_text;
use camelcase_editor::cursor::ordered;
use camelcase_editor::cursor::CursorPos;

fn rows(text: &[&str]) -> Vec<String> {
    text.iter().map(|r| r.to_string()).collect()
}

fn at(x: usize, y: usize) -> CursorPos {
    CursorPos { x, y }
}

#[test]
fn ordered_puts_the_earlier_position_first() {
    assert_eq!(ordered(at(1, 0), at(2, 1)), (at(1, 0), at(2, 1)));
    assert_eq!(ordered(at(2, 1), at(1, 0)), (at(1, 0), at(2, 1)));
    assert_eq!(ordered(at(5, 3), at(2, 3)), (at(2, 3), at(5, 3)));
    assert_eq!(ordered(at(9, 0), at(0, 1)), (at(9, 0), at(0, 1)));
    assert_eq!(ordered(at(4, 4), at(4, 4)), (at(4, 4), at(4, 4)));
}

#[test]
fn insert_char_in_the_middle_at_the_start_and_at_the_end() {
    let mut lines = rows(&["abc", "def"]);
    assert_eq!(insert_char(&mut lines, at(1, 1), 'X'), 2);
    assert_eq!(lines, rows(&["abc", "dXef"]));
    assert_eq!(insert_char(&mut lines, at(0, 0), '>'), 1);
    assert_eq!(lines, rows(&[">abc", "dXef"]));
    assert_eq!(insert_char(&mut lines, at(4, 0), '<'), 5);
    assert_eq!(lines, rows(&[">abc<", "dXef"]));
}

#[test]
fn insert_char_goes_by_chars_not_bytes() {
    let mut lines = rows(&["añ€b"]);
    assert_eq!(insert_char(&mut lines, at(3, 0), '😀'), 4);
    assert_eq!(lines, rows(&["añ€😀b"]));
    assert_eq!(insert_char(&mut lines, at(2, 0), 'é'), 3);
    assert_eq!(lines, rows(&["añé€😀b"]));
}

#[test]
fn insert_char_into_an_empty_row() {
    let mut lines = rows(&[""]);
    assert_eq!(insert_char(&mut lines, at(0, 0), 'a'), 1);
    assert_eq!(lines, rows(&["a"]));
}

#[test]
fn insert_newline_cuts_the_row_at_the_column() {
    let mut lines = rows(&["hello world", "next"]);
    insert_newline(&mut lines, at(5, 0));
    assert_eq!(lines, rows(&["hello", " world", "next"]));
}

#[test]
fn insert_newline_at_the_ends_of_a_row() {
    let mut lines = rows(&["añb"]);
    insert_newline(&mut lines, at(0, 0));
    assert_eq!(lines, rows(&["", "añb"]));
    insert_newline(&mut lines, at(3, 1));
    assert_eq!(lines, rows(&["", "añb", ""]));
    insert_newline(&mut lines, at(2, 1));
    assert_eq!(lines, rows(&["", "añ", "b", ""]));
}

#[test]
fn delete_char_before_takes_the_char_before_the_column() {
    let mut lines = rows(&["abc", "añ€b"]);
    delete_char_before(&mut lines, at(1, 0));
    assert_eq!(lines, rows(&["bc", "añ€b"]));
    delete_char_before(&mut lines, at(3, 1));
    assert_eq!(lines, rows(&["bc", "añb"]));
    delete_char_before(&mut lines, at(3, 1));
    assert_eq!(lines, rows(&["bc", "añ"]));
}

#[test]
fn merge_appends_the_row_to_the_one_above() {
    let mut lines = rows(&["abc", "def"]);
    assert_eq!(merge_line_with_previous(&mut lines, 1), 3);
    assert_eq!(lines, rows(&["abcdef"]));
}

#[test]
fn merge_returns_the_column_in_chars() {
    let mut lines = rows(&["x", "añ€", "", "tail"]);
    assert_eq!(merge_line_with_previous(&mut lines, 2), 3);
    assert_eq!(lines, rows(&["x", "añ€", "tail"]));
    assert_eq!(merge_line_with_previous(&mut lines, 2), 3);
    assert_eq!(lines, rows(&["x", "añ€tail"]));
}

#[test]
fn delete_range_within_one_row() {
    let mut lines = rows(&["hello world"]);
    delete_range(&mut lines, at(2, 0), at(7, 0));
    assert_eq!(lines, rows(&["heorld"]));
}

#[test]
fn delete_range_of_nothing_changes_nothing() {
    let mut lines = rows(&["abc", "def"]);
    delete_range(&mut lines, at(2, 1), at(2, 1));
    assert_eq!(lines, rows(&["abc", "def"]));
}

#[test]
fn delete_range_over_two_rows() {
    let mut lines = rows(&["one", "two", "three"]);
    delete_range(&mut lines, at(1, 0), at(2, 1));
    assert_eq!(lines, rows(&["oo", "three"]));
}

#[test]
fn delete_range_over_many_rows_drops_the_rows_in_between() {
    let mut lines = rows(&["zero", "one", "two", "three", "four"]);
    delete_range(&mut lines, at(2, 1), at(3, 3));
    assert_eq!(lines, rows(&["zero", "onee", "four"]));
}

#[test]
fn delete_range_of_everything_leaves_one_empty_row() {
    let mut lines = rows(&["añ", "€", "b😀"]);
    delete_range(&mut lines, at(0, 0), at(2, 2));
    assert_eq!(lines, rows(&[""]));
}

#[test]
fn extract_range_within_one_row() {
    let lines = rows(&["hello world"]);
    assert_eq!(extract_range(&lines, at(2, 0), at(7, 0)), "llo w");
    assert_eq!(extract_range(&lines, at(4, 0), at(4, 0)), "");
}

#[test]
fn extract_range_joins_rows_with_line_feeds() {
    let lines = rows(&["one", "two", "three"]);
    assert_eq!(extract_range(&lines, at(1, 0), at(2, 1)), "ne\ntw");
    assert_eq!(extract_range(&lines, at(1, 0), at(2, 2)), "ne\ntwo\nth");
    assert_eq!(extract_range(&lines, at(3, 0), at(0, 1)), "\n");
    assert_eq!(extract_range(&lines, at(0, 0), at(5, 2)), "one\ntwo\nthree");
}

#[test]
fn extract_range_leaves_the_buffer_alone() {
    let lines = rows(&["añ€", "b"]);
    assert_eq!(extract_range(&lines, at(1, 0), at(1, 1)), "ñ€\nb");
    assert_eq!(lines, rows(&["añ€", "b"]));
}

#[test]
fn split_text_cuts_at_every_line_feed() {
    assert_eq!(split_text(""), rows(&[""]));
    assert_eq!(split_text("abc"), rows(&["abc"]));
    assert_eq!(split_text("a\nb"), rows(&["a", "b"]));
    assert_eq!(split_text("a\n"), rows(&["a", ""]));
    assert_eq!(split_text("\n"), rows(&["", ""]));
    assert_eq!(split_text("\n\nx€\n"), rows(&["", "", "x€", ""]));
    assert_eq!(split_text("a\r\nb"), rows(&["a\r", "b"]));
}

#[test]
fn split_text_agrees_with_split_of_std() {
    for text in ["", "\n", "a", "a\nb\n\nc", "\n\n", "ñ\n€\n"] {
        let expected: Vec<String> = text.split('\n').map(|p| p.to_string()).collect();
        assert_eq!(split_text(text), expected);
    }
}

#[test]
fn splice_text_without_line_feed_goes_into_the_row() {
    let mut lines = rows(&["hello", "world"]);
    assert_eq!(splice_text(&mut lines, at(2, 0), "XY"), at(4, 0));
    assert_eq!(lines, rows(&["heXYllo", "world"]));
}

#[test]
fn splice_text_of_nothing_changes_nothing() {
    let mut lines = rows(&["hello"]);
    assert_eq!(splice_text(&mut lines, at(3, 0), ""), at(3, 0));
    assert_eq!(lines, rows(&["hello"]));
}

#[test]
fn splice_text_counts_the_end_in_chars() {
    let mut lines = rows(&["añb"]);
    assert_eq!(splice_text(&mut lines, at(2, 0), "€😀"), at(4, 0));
    assert_eq!(lines, rows(&["añ€😀b"]));
    assert_eq!(splice_text(&mut lines, at(1, 0), "x\nñ€"), at(2, 1));
    assert_eq!(lines, rows(&["ax", "ñ€ñ€😀b"]));
}

#[test]
fn splice_text_with_line_feeds_makes_rows() {
    let mut lines = rows(&["hello", "world"]);
    assert_eq!(splice_text(&mut lines, at(2, 0), "A\nB\nC"), at(1, 2));
    assert_eq!(lines, rows(&["heA", "B", "Cllo", "world"]));
}

#[test]
fn splice_text_that_ends_in_a_line_feed() {
    let mut lines = rows(&["ab"]);
    assert_eq!(splice_text(&mut lines, at(1, 0), "x\n"), at(0, 1));
    assert_eq!(lines, rows(&["ax", "b"]));
    assert_eq!(splice_text(&mut lines, at(1, 1), "\n\n"), at(0, 3));
    assert_eq!(lines, rows(&["ax", "b", "", ""]));
}

#[test]
fn cutting_a_range_and_putting_it_back_restores_the_buffer() {
    let before = rows(&["zero", "añ€", "", "three", "four"]);
    let count = before.len();
    for sy in 0..count {
        for sx in 0..=before[sy].chars().count() {
            for ey in sy..count {
                let from = if ey == sy { sx } else { 0 };
                for ex in from..=before[ey].chars().count() {
                    let mut lines = before.clone();
                    let text = extract_range(&lines, at(sx, sy), at(ex, ey));
                    delete_range(&mut lines, at(sx, sy), at(ex, ey));
                    let end = splice_text(&mut lines, at(sx, sy), &text);
                    assert_eq!(lines, before);
                    assert_eq!(end, at(ex, ey));
                }
            }
        }
    }
}

#[test]
fn a_row_with_a_line_feed_in_it_does_not_come_back_as_one_row() {
    let mut lines = rows(&["a\nb"]);
    let text = extract_range(&lines, at(0, 0), at(3, 0));
    assert_eq!(text, "a\nb");
    delete_range(&mut lines, at(0, 0), at(3, 0));
    assert_eq!(lines, rows(&[""]));
    splice_text(&mut lines, at(0, 0), &text);
    assert_eq!(lines, rows(&["a", "b"]));
}
