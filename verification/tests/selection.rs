use camelcase_editor::cursor::CursorPos;
use camelcase_editor::selection::delete_selection;
use camelcase_editor::selection::get_selected_text;
use camelcase_editor::selection::has_selection;
use camelcase_editor::selection::is_selected;
use camelcase_editor::selection::paste_text;
use camelcase_editor::selection::start_selection_if_needed;

fn rows(text: &[&str]) -> Vec<String> {
    text.iter().map(|r| r.to_string()).collect()
}

fn at(x: usize, y: usize) -> CursorPos {
    CursorPos { x, y }
}

#[test]
fn start_selection_sets_an_unset_anchor() {
    let mut anchor = None;
    start_selection_if_needed(&mut anchor, at(3, 1));
    assert_eq!(anchor, Some(at(3, 1)));
}

#[test]
fn start_selection_keeps_a_set_anchor() {
    let mut anchor = Some(at(3, 1));
    start_selection_if_needed(&mut anchor, at(5, 2));
    assert_eq!(anchor, Some(at(3, 1)));
    start_selection_if_needed(&mut anchor, at(0, 0));
    assert_eq!(anchor, Some(at(3, 1)));
}

#[test]
fn is_selected_within_one_row_leaves_the_end_out() {
    let (start, end) = (at(2, 0), at(5, 0));
    assert!(!is_selected(at(1, 0), start, end));
    assert!(is_selected(at(2, 0), start, end));
    assert!(is_selected(at(4, 0), start, end));
    assert!(!is_selected(at(5, 0), start, end));
    assert!(!is_selected(at(3, 1), start, end));
}

#[test]
fn is_selected_over_several_rows() {
    let (start, end) = (at(2, 1), at(1, 3));
    assert!(!is_selected(at(9, 0), start, end));
    assert!(!is_selected(at(1, 1), start, end));
    assert!(is_selected(at(2, 1), start, end));
    assert!(is_selected(at(99, 1), start, end));
    assert!(is_selected(at(0, 2), start, end));
    assert!(is_selected(at(50, 2), start, end));
    assert!(is_selected(at(0, 3), start, end));
    assert!(!is_selected(at(1, 3), start, end));
    assert!(!is_selected(at(0, 4), start, end));
}

#[test]
fn is_selected_is_false_between_a_position_and_itself() {
    for y in 0..3 {
        for x in 0..3 {
            assert!(!is_selected(at(x, y), at(1, 1), at(1, 1)));
        }
    }
}

#[test]
fn is_selected_does_not_care_which_end_comes_first() {
    let ends = [at(0, 0), at(2, 0), at(1, 1), at(3, 1), at(0, 2), at(2, 2)];
    for a in ends {
        for b in ends {
            for y in 0..4 {
                for x in 0..5 {
                    assert_eq!(is_selected(at(x, y), a, b), is_selected(at(x, y), b, a));
                }
            }
        }
    }
}

#[test]
fn has_selection_needs_an_anchor_away_from_the_cursor() {
    assert!(!has_selection(&None, &at(1, 1)));
    assert!(!has_selection(&Some(at(1, 1)), &at(1, 1)));
    assert!(has_selection(&Some(at(2, 1)), &at(1, 1)));
    assert!(has_selection(&Some(at(1, 0)), &at(1, 1)));
}

#[test]
fn delete_selection_across_two_rows() {
    let mut lines = rows(&["one", "two", "three"]);
    let mut cursor = at(2, 1);
    let mut anchor = Some(at(1, 0));
    delete_selection(&mut lines, &mut cursor, &mut anchor);
    assert_eq!(lines, rows(&["oo", "three"]));
    assert_eq!(cursor, at(1, 0));
    assert_eq!(anchor, None);
}

#[test]
fn delete_selection_with_the_anchor_behind_the_cursor() {
    let mut lines = rows(&["one", "two", "three"]);
    let mut cursor = at(1, 0);
    let mut anchor = Some(at(2, 1));
    delete_selection(&mut lines, &mut cursor, &mut anchor);
    assert_eq!(lines, rows(&["oo", "three"]));
    assert_eq!(cursor, at(1, 0));
    assert_eq!(anchor, None);
}

#[test]
fn delete_selection_within_one_row() {
    let mut lines = rows(&["hello wörld"]);
    let mut cursor = at(8, 0);
    let mut anchor = Some(at(6, 0));
    delete_selection(&mut lines, &mut cursor, &mut anchor);
    assert_eq!(lines, rows(&["hello rld"]));
    assert_eq!(cursor, at(6, 0));
    assert_eq!(anchor, None);
}

#[test]
fn delete_selection_without_an_anchor_changes_nothing() {
    let mut lines = rows(&["one", "two"]);
    let mut cursor = at(2, 1);
    let mut anchor = None;
    delete_selection(&mut lines, &mut cursor, &mut anchor);
    assert_eq!(lines, rows(&["one", "two"]));
    assert_eq!(cursor, at(2, 1));
    assert_eq!(anchor, None);
}

#[test]
fn delete_selection_with_the_anchor_at_the_cursor_clears_the_anchor() {
    let mut lines = rows(&["one", "two"]);
    let mut cursor = at(2, 1);
    let mut anchor = Some(at(2, 1));
    delete_selection(&mut lines, &mut cursor, &mut anchor);
    assert_eq!(lines, rows(&["one", "two"]));
    assert_eq!(cursor, at(2, 1));
    assert_eq!(anchor, None);
}

#[test]
fn selected_text_is_none_without_an_anchor() {
    let lines = rows(&["one", "two"]);
    assert_eq!(get_selected_text(&lines, &at(1, 1), &None), None);
}

#[test]
fn selected_text_is_empty_with_the_anchor_at_the_cursor() {
    let lines = rows(&["one", "two"]);
    assert_eq!(get_selected_text(&lines, &at(1, 1), &Some(at(1, 1))), Some(String::new()));
}

#[test]
fn selected_text_within_one_row_and_over_rows() {
    let lines = rows(&["one", "twö", "three"]);
    assert_eq!(get_selected_text(&lines, &at(3, 1), &Some(at(1, 1))), Some("wö".to_string()));
    assert_eq!(get_selected_text(&lines, &at(1, 1), &Some(at(3, 1))), Some("wö".to_string()));
    assert_eq!(
        get_selected_text(&lines, &at(2, 2), &Some(at(1, 0))),
        Some("ne\ntwö\nth".to_string())
    );
    assert_eq!(
        get_selected_text(&lines, &at(1, 0), &Some(at(2, 2))),
        Some("ne\ntwö\nth".to_string())
    );
}

#[test]
fn paste_at_the_cursor_without_a_selection() {
    let mut lines = rows(&["hello"]);
    let mut cursor = at(2, 0);
    let mut anchor = None;
    paste_text(&mut lines, &mut cursor, &mut anchor, "XY");
    assert_eq!(lines, rows(&["heXYllo"]));
    assert_eq!(cursor, at(4, 0));
    assert_eq!(anchor, None);
}

#[test]
fn paste_counts_the_cursor_in_chars() {
    let mut lines = rows(&["añb"]);
    let mut cursor = at(2, 0);
    let mut anchor = None;
    paste_text(&mut lines, &mut cursor, &mut anchor, "€€");
    assert_eq!(lines, rows(&["añ€€b"]));
    assert_eq!(cursor, at(4, 0));
}

#[test]
fn paste_of_several_rows_cuts_the_row_at_the_cursor() {
    let mut lines = rows(&["añb", "next"]);
    let mut cursor = at(2, 0);
    let mut anchor = None;
    paste_text(&mut lines, &mut cursor, &mut anchor, "1\n22\n333");
    assert_eq!(lines, rows(&["añ1", "22", "333b", "next"]));
    assert_eq!(cursor, at(3, 2));
    assert_eq!(anchor, None);
}

#[test]
fn paste_takes_the_place_of_the_selection() {
    let mut lines = rows(&["one", "two", "three"]);
    let mut cursor = at(2, 1);
    let mut anchor = Some(at(1, 0));
    paste_text(&mut lines, &mut cursor, &mut anchor, "A\nB");
    assert_eq!(lines, rows(&["oA", "Bo", "three"]));
    assert_eq!(cursor, at(1, 1));
    assert_eq!(anchor, None);
}

#[test]
fn cut_and_paste_back_restores_the_buffer() {
    let before = rows(&["one", "two", "three"]);
    let mut lines = before.clone();
    let mut cursor = at(4, 2);
    let mut anchor = Some(at(2, 0));
    let text = get_selected_text(&lines, &cursor, &anchor).unwrap();
    delete_selection(&mut lines, &mut cursor, &mut anchor);
    assert_eq!(lines, rows(&["one"]));
    paste_text(&mut lines, &mut cursor, &mut anchor, &text);
    assert_eq!(lines, before);
    assert_eq!(cursor, at(4, 2));
}

#[test]
fn delete_selection_without_an_anchor_leaves_a_cursor_outside_the_buffer_alone() {
    let mut lines = rows(&["one", "two"]);
    let mut cursor = at(9, 7);
    let mut anchor = None;
    delete_selection(&mut lines, &mut cursor, &mut anchor);
    assert_eq!(lines, rows(&["one", "two"]));
    assert_eq!(cursor, at(9, 7));
    assert_eq!(anchor, None);
    let mut lines: Vec<String> = Vec::new();
    delete_selection(&mut lines, &mut cursor, &mut anchor);
    assert_eq!(lines, Vec::<String>::new());
    assert_eq!(cursor, at(9, 7));
}

#[test]
fn selected_text_without_an_anchor_is_none_wherever_the_cursor_stands() {
    let lines = rows(&["one", "two"]);
    assert_eq!(get_selected_text(&lines, &at(9, 7), &None), None);
    assert_eq!(get_selected_text(&Vec::new(), &at(0, 0), &None), None);
}
