use vstd::prelude::*;
use vstd::string::StrSliceExecFns;
use crate::cursor::CursorPos;
use crate::text::text_of;
use crate::text::valid_pos;
use crate::utils::chars_of;

verus! {

/// The characters that end a word: the space and `. ? < > | / \ " ' ; @`.
pub open spec fn separator(c: char) -> bool {
    c == ' ' || c == '.' || c == '?' || c == '<' || c == '>' || c == '|' || c == '/' || c == '\\'
        || c == '"' || c == '\'' || c == ';' || c == '@'
}

/// Whether `c` ends a word.
pub fn is_separator(c: char) -> (r: bool)
    ensures
        r == separator(c),
{
    c == ' ' || c == '.' || c == '?' || c == '<' || c == '>' || c == '|' || c == '/' || c == '\\'
        || c == '"' || c == '\'' || c == ';' || c == '@'
}

/// Going left from index `i` over separators: the first index at which a
/// character that is no separator stands, or 0.
pub open spec fn skip_separators_left(chars: Seq<char>, i: int) -> int
    decreases i,
{
    if 0 < i < chars.len() && separator(chars[i]) {
        skip_separators_left(chars, i - 1)
    } else {
        i
    }
}

/// Going left from index `i` over a word: the index of its first character,
/// which has a separator or nothing before it.
pub open spec fn skip_word_left(chars: Seq<char>, i: int) -> int
    decreases i,
{
    if 0 < i <= chars.len() && !separator(chars[i - 1]) {
        skip_word_left(chars, i - 1)
    } else {
        i
    }
}

/// Where a jump to the left by one word from column `x` lands: over the
/// separators before `x`, then to the start of the word before them.
/// Column 0 stays where it is.
pub open spec fn word_left(chars: Seq<char>, x: int) -> int {
    if x <= 0 {
        x
    } else {
        skip_word_left(chars, skip_separators_left(chars, x - 1))
    }
}

/// Going right from index `i` over a word: the index of the first separator,
/// or the length.
pub open spec fn skip_word_right(chars: Seq<char>, i: int) -> int
    decreases chars.len() - i,
{
    if 0 <= i < chars.len() && !separator(chars[i]) {
        skip_word_right(chars, i + 1)
    } else {
        i
    }
}

/// Going right from index `i` over separators: the index of the first
/// character that is none, or the length.
pub open spec fn skip_separators_right(chars: Seq<char>, i: int) -> int
    decreases chars.len() - i,
{
    if 0 <= i < chars.len() && separator(chars[i]) {
        skip_separators_right(chars, i + 1)
    } else {
        i
    }
}

/// Where a jump to the right by one word from column `x` lands: behind the
/// rest of the word at `x`, then behind the separators that follow it.
pub open spec fn word_right(chars: Seq<char>, x: int) -> int {
    skip_separators_right(chars, skip_word_right(chars, x))
}

/// Skipping to the left stays between 0 and where it began, and all that it
/// passed over were separators.
pub proof fn lemma_skip_separators_left(chars: Seq<char>, i: int)
    requires
        0 <= i < chars.len() || i == 0,
    ensures
        0 <= skip_separators_left(chars, i) <= i,
        forall|k: int| skip_separators_left(chars, i) < k <= i ==> separator(chars[k]),
        skip_separators_left(chars, i) == 0 || !separator(
            chars[skip_separators_left(chars, i)],
        ),
    decreases i,
{
    if 0 < i < chars.len() && separator(chars[i]) {
        lemma_skip_separators_left(chars, i - 1);
    }
}

/// Skipping a word to the left stays between 0 and where it began, passes
/// over no separator, and stops behind one or at column 0.
pub proof fn lemma_skip_word_left(chars: Seq<char>, i: int)
    requires
        0 <= i <= chars.len(),
    ensures
        0 <= skip_word_left(chars, i) <= i,
        forall|k: int| skip_word_left(chars, i) <= k < i ==> !separator(chars[k]),
        skip_word_left(chars, i) == 0 || separator(chars[skip_word_left(chars, i) - 1]),
    decreases i,
{
    if 0 < i && !separator(chars[i - 1]) {
        lemma_skip_word_left(chars, i - 1);
    }
}

/// Skipping a word to the right stays between where it began and the
/// length, passes over no separator, and stops at one or at the end.
pub proof fn lemma_skip_word_right(chars: Seq<char>, i: int)
    requires
        0 <= i <= chars.len(),
    ensures
        i <= skip_word_right(chars, i) <= chars.len(),
        forall|k: int| i <= k < skip_word_right(chars, i) ==> !separator(chars[k]),
        skip_word_right(chars, i) == chars.len() || separator(chars[skip_word_right(chars, i)]),
    decreases chars.len() - i,
{
    if i < chars.len() && !separator(chars[i]) {
        lemma_skip_word_right(chars, i + 1);
    }
}

/// Skipping separators to the right stays between where it began and the
/// length, passes over separators only, and stops at a character that is
/// none or at the end.
pub proof fn lemma_skip_separators_right(chars: Seq<char>, i: int)
    requires
        0 <= i <= chars.len(),
    ensures
        i <= skip_separators_right(chars, i) <= chars.len(),
        forall|k: int| i <= k < skip_separators_right(chars, i) ==> separator(chars[k]),
        skip_separators_right(chars, i) == chars.len() || !separator(
            chars[skip_separators_right(chars, i)],
        ),
    decreases chars.len() - i,
{
    if i < chars.len() && separator(chars[i]) {
        lemma_skip_separators_right(chars, i + 1);
    }
}

/// A jump by one word never leaves the row: to the left it lands before
/// where it began and not before column 0, to the right it lands at or
/// behind where it began and not behind the end of the row.
pub proof fn lemma_word_motion_stays_in_row(chars: Seq<char>, x: int)
    requires
        0 <= x <= chars.len(),
    ensures
        0 <= word_left(chars, x) <= x,
        x > 0 ==> word_left(chars, x) < x,
        x <= word_right(chars, x) <= chars.len(),
{
    if x > 0 {
        lemma_skip_separators_left(chars, x - 1);
        lemma_skip_word_left(chars, skip_separators_left(chars, x - 1));
    }
    lemma_skip_word_right(chars, x);
    lemma_skip_separators_right(chars, skip_word_right(chars, x));
}

/// At the two ends of a row a jump by one word changes nothing: column 0
/// stays at 0 going left, and the end of the row stays going right.
pub proof fn lemma_word_motion_at_row_ends(chars: Seq<char>)
    ensures
        word_left(chars, 0) == 0,
        word_right(chars, chars.len() as int) == chars.len(),
{
}

/// Moves `x` to the left by one word within row `y`.
pub fn move_word_left(lines: &Vec<String>, x: &mut usize, y: usize)
    requires
        y < lines@.len(),
        *old(x) <= lines@[y as int]@.len(),
    ensures
        *final(x) == word_left(lines@[y as int]@, *old(x) as int),
        *final(x) <= *old(x),
{
    let chars = chars_of(lines[y].as_str());
    if *x == 0 {
        return;
    }
    proof {
        lemma_word_motion_stays_in_row(chars@, *x as int);
    }
    let mut i: usize = *x - 1;
    while i > 0 && is_separator(chars[i])
        invariant
            i < *x <= chars@.len(),
            skip_separators_left(chars@, i as int) == skip_separators_left(chars@, *x - 1),
        decreases i,
    {
        i -= 1;
    }
    while i > 0 && !is_separator(chars[i - 1])
        invariant
            i < *x <= chars@.len(),
            skip_word_left(chars@, i as int) == word_left(chars@, *x as int),
        decreases i,
    {
        i -= 1;
    }
    *x = i;
}

/// Moves `x` to the right by one word within row `y`.
pub fn move_word_right(lines: &Vec<String>, x: &mut usize, y: usize)
    requires
        y < lines@.len(),
    ensures
        *final(x) == word_right(lines@[y as int]@, *old(x) as int),
        *final(x) >= *old(x),
        *old(x) <= lines@[y as int]@.len() ==> *final(x) <= lines@[y as int]@.len(),
{
    let chars = chars_of(lines[y].as_str());
    let mut i: usize = *x;
    while i < chars.len() && !is_separator(chars[i])
        invariant
            *x <= i,
            i <= chars@.len() || i == *x,
            skip_word_right(chars@, i as int) == skip_word_right(chars@, *x as int),
        decreases chars@.len() - i,
    {
        i += 1;
    }
    let ghost mid = i;
    while i < chars.len() && is_separator(chars[i])
        invariant
            *x <= i,
            i <= chars@.len() || i == *x,
            skip_separators_right(chars@, i as int) == skip_separators_right(chars@, mid as int),
        decreases chars@.len() - i,
    {
        i += 1;
    }
    *x = i;
}

/// One step to the left: the column before, or the end of the row above
/// from column 0. The start of the buffer stays.
pub open spec fn left_of(text: Seq<Seq<char>>, c: CursorPos) -> CursorPos {
    if c.x > 0 {
        CursorPos { x: (c.x - 1) as usize, y: c.y }
    } else if c.y > 0 {
        CursorPos { x: text[c.y - 1].len() as usize, y: (c.y - 1) as usize }
    } else {
        c
    }
}

/// One step to the right: the column behind, or the start of the row below
/// from the end of a row. The end of the buffer stays.
pub open spec fn right_of(text: Seq<Seq<char>>, c: CursorPos) -> CursorPos {
    if c.x < text[c.y as int].len() {
        CursorPos { x: (c.x + 1) as usize, y: c.y }
    } else if c.y + 1 < text.len() {
        CursorPos { x: 0, y: (c.y + 1) as usize }
    } else {
        c
    }
}

/// Where the left key takes the cursor: one step to the left, and with
/// `ctrl` one word to the left from there.
pub open spec fn after_left(text: Seq<Seq<char>>, c: CursorPos, ctrl: bool) -> CursorPos {
    let stepped = left_of(text, c);
    if ctrl {
        CursorPos { x: word_left(text[stepped.y as int], stepped.x as int) as usize, y: stepped.y }
    } else {
        stepped
    }
}

/// Where the right key takes the cursor: one step to the right, and with
/// `ctrl` one word to the right from there.
pub open spec fn after_right(text: Seq<Seq<char>>, c: CursorPos, ctrl: bool) -> CursorPos {
    let stepped = right_of(text, c);
    if ctrl {
        CursorPos {
            x: word_right(text[stepped.y as int], stepped.x as int) as usize,
            y: stepped.y,
        }
    } else {
        stepped
    }
}

/// The column that a cursor coming from column `x` takes on `row`: the
/// same, or the end of the row where the row is shorter.
pub open spec fn column_on(row: Seq<char>, x: usize) -> usize {
    if x <= row.len() {
        x
    } else {
        row.len() as usize
    }
}

/// Where the up key takes the cursor: to the row above, if there is one.
pub open spec fn after_up(text: Seq<Seq<char>>, c: CursorPos) -> CursorPos {
    if c.y > 0 {
        CursorPos { x: column_on(text[c.y - 1], c.x), y: (c.y - 1) as usize }
    } else {
        c
    }
}

/// Where the down key takes the cursor: to the row below, if there is one.
pub open spec fn after_down(text: Seq<Seq<char>>, c: CursorPos) -> CursorPos {
    if c.y + 1 < text.len() {
        CursorPos { x: column_on(text[c.y + 1], c.x), y: (c.y + 1) as usize }
    } else {
        c
    }
}

/// Where the home key takes the cursor: to the start of its row, with
/// `ctrl` to the start of the buffer.
pub open spec fn after_home(c: CursorPos, ctrl: bool) -> CursorPos {
    CursorPos {
        x: 0,
        y: if ctrl {
            0
        } else {
            c.y
        },
    }
}

/// Where the end key takes the cursor: to the end of its row, with `ctrl`
/// to the end of the last row.
pub open spec fn after_end(text: Seq<Seq<char>>, c: CursorPos, ctrl: bool) -> CursorPos {
    let y = if ctrl {
        (text.len() - 1) as usize
    } else {
        c.y
    };
    CursorPos { x: text[y as int].len() as usize, y }
}

/// Moves the cursor as the left key does.
pub fn move_left(lines: &Vec<String>, cursor: &mut CursorPos, ctrl: bool)
    requires
        valid_pos(text_of(lines@), *old(cursor)),
    ensures
        *final(cursor) == after_left(text_of(lines@), *old(cursor), ctrl),
        valid_pos(text_of(lines@), *final(cursor)),
{
    if cursor.x > 0 {
        cursor.x -= 1;
    } else if cursor.y > 0 {
        cursor.y -= 1;
        cursor.x = lines[cursor.y].as_str().unicode_len();
    }
    if ctrl {
        let mut x = cursor.x;
        move_word_left(lines, &mut x, cursor.y);
        cursor.x = x;
    }
}

/// Moves the cursor as the right key does.
pub fn move_right(lines: &Vec<String>, cursor: &mut CursorPos, ctrl: bool)
    requires
        valid_pos(text_of(lines@), *old(cursor)),
    ensures
        *final(cursor) == after_right(text_of(lines@), *old(cursor), ctrl),
        valid_pos(text_of(lines@), *final(cursor)),
{
    if cursor.x < lines[cursor.y].as_str().unicode_len() {
        cursor.x += 1;
    } else if cursor.y < lines.len() - 1 {
        cursor.y += 1;
        cursor.x = 0;
    }
    if ctrl {
        let mut x = cursor.x;
        move_word_right(lines, &mut x, cursor.y);
        cursor.x = x;
    }
}

/// Moves the cursor as the up key does.
pub fn move_up(lines: &Vec<String>, cursor: &mut CursorPos)
    requires
        valid_pos(text_of(lines@), *old(cursor)),
    ensures
        *final(cursor) == after_up(text_of(lines@), *old(cursor)),
        valid_pos(text_of(lines@), *final(cursor)),
{
    if cursor.y > 0 {
        cursor.y -= 1;
        let len = lines[cursor.y].as_str().unicode_len();
        if cursor.x > len {
            cursor.x = len;
        }
    }
}

/// Moves the cursor as the down key does.
pub fn move_down(lines: &Vec<String>, cursor: &mut CursorPos)
    requires
        valid_pos(text_of(lines@), *old(cursor)),
    ensures
        *final(cursor) == after_down(text_of(lines@), *old(cursor)),
        valid_pos(text_of(lines@), *final(cursor)),
{
    if cursor.y < lines.len() - 1 {
        cursor.y += 1;
        let len = lines[cursor.y].as_str().unicode_len();
        if cursor.x > len {
            cursor.x = len;
        }
    }
}

/// Moves the cursor as the home key does.
pub fn move_home(lines: &Vec<String>, cursor: &mut CursorPos, ctrl: bool)
    requires
        valid_pos(text_of(lines@), *old(cursor)),
    ensures
        *final(cursor) == after_home(*old(cursor), ctrl),
        valid_pos(text_of(lines@), *final(cursor)),
{
    if ctrl {
        cursor.y = 0;
    }
    cursor.x = 0;
}

/// Moves the cursor as the end key does.
pub fn move_end(lines: &Vec<String>, cursor: &mut CursorPos, ctrl: bool)
    requires
        valid_pos(text_of(lines@), *old(cursor)),
    ensures
        *final(cursor) == after_end(text_of(lines@), *old(cursor), ctrl),
        valid_pos(text_of(lines@), *final(cursor)),
{
    if ctrl {
        cursor.y = lines.len() - 1;
    }
    cursor.x = lines[cursor.y].as_str().unicode_len();
}

} // verus!
