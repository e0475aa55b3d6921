use camelcase_editor::viewport::scroll_to;
use camelcase_editor::viewport::usable_width;
use camelcase_editor::viewport::visible_rows;
use camelcase_editor::viewport::CHROME_ROWS;
use camelcase_editor::viewport::MARGIN_COLUMNS;

#[test]
fn the_frame_takes_two_columns_and_three_rows() {
    assert_eq!(MARGIN_COLUMNS, 2);
    assert_eq!(CHROME_ROWS, 3);
    assert_eq!(usable_width(80), 78);
    assert_eq!(visible_rows(24), 21);
}

#[test]
fn a_terminal_smaller_than_the_frame_shows_nothing() {
    assert_eq!(usable_width(2), 0);
    assert_eq!(usable_width(1), 0);
    assert_eq!(usable_width(0), 0);
    assert_eq!(visible_rows(3), 0);
    assert_eq!(visible_rows(0), 0);
    assert_eq!(usable_width(3), 1);
    assert_eq!(visible_rows(4), 1);
}

#[test]
fn a_cursor_inside_the_window_leaves_it() {
    assert_eq!(scroll_to(0, 0, 78), 0);
    assert_eq!(scroll_to(77, 0, 78), 0);
    assert_eq!(scroll_to(10, 10, 5), 10);
    assert_eq!(scroll_to(14, 10, 5), 10);
}

#[test]
fn a_cursor_before_the_window_pulls_its_start() {
    assert_eq!(scroll_to(9, 10, 5), 9);
    assert_eq!(scroll_to(0, 10, 5), 0);
}

#[test]
fn a_cursor_behind_the_window_pulls_its_end() {
    assert_eq!(scroll_to(78, 0, 78), 1);
    assert_eq!(scroll_to(100, 0, 78), 23);
    assert_eq!(scroll_to(15, 10, 5), 11);
    assert_eq!(scroll_to(usize::MAX, 0, 1), usize::MAX);
}

#[test]
fn a_window_of_one_cell_sits_on_the_cursor() {
    assert_eq!(scroll_to(7, 0, 1), 7);
    assert_eq!(scroll_to(7, 7, 1), 7);
    assert_eq!(scroll_to(7, 9, 1), 7);
}

#[test]
fn a_window_without_a_cell_ends_up_behind_the_cursor() {
    assert_eq!(scroll_to(7, 0, 0), 8);
    assert_eq!(scroll_to(7, 7, 0), 8);
    assert_eq!(scroll_to(7, 9, 0), 8);
}

#[test]
fn the_window_holds_the_cursor_after_following_it() {
    for extent in 1..8usize {
        for scroll in 0..20usize {
            for cursor in 0..30usize {
                let offset = scroll_to(cursor, scroll, extent);
                assert!(offset <= cursor);
                assert!(cursor < offset + extent);
                if scroll <= cursor && cursor < scroll + extent {
                    assert_eq!(offset, scroll);
                }
            }
        }
    }
}
