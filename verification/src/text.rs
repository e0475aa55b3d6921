use vstd::prelude::*;
use crate::cursor::CursorPos;
use crate::cursor::pos_le;

verus! {

/// The buffer as mathematics: one sequence of characters per row.
pub open spec fn text_of(lines: Seq<String>) -> Seq<Seq<char>> {
    Seq::new(lines.len(), |i: int| lines[i]@)
}

/// `p` names a row of `text` and a column between its characters or at its end.
pub open spec fn valid_pos(text: Seq<Seq<char>>, p: CursorPos) -> bool {
    p.y < text.len() && p.x <= text[p.y as int].len()
}

/// No character of `s` is a line feed.
pub open spec fn newline_free(s: Seq<char>) -> bool {
    forall|i: int| 0 <= i < s.len() ==> s[i] != '\n'
}

/// The pieces of `s` between line feeds, in order. There is always at least
/// one piece; `n` line feeds give `n + 1` pieces.
pub open spec fn split_newlines(s: Seq<char>) -> Seq<Seq<char>>
    decreases s.len(),
{
    if s.len() == 0 {
        seq![Seq::<char>::empty()]
    } else {
        let before = split_newlines(s.drop_last());
        if s.last() == '\n' {
            before.push(Seq::<char>::empty())
        } else {
            before.drop_last().push(before.last().push(s.last()))
        }
    }
}

/// The rows written one after another with a line feed between neighbours.
pub open spec fn join_lines(rows: Seq<Seq<char>>) -> Seq<char>
    decreases rows.len(),
{
    if rows.len() == 0 {
        Seq::<char>::empty()
    } else if rows.len() == 1 {
        rows[0]
    } else {
        join_lines(rows.drop_last()) + seq!['\n'] + rows.last()
    }
}

/// `text` with `c` put in front of column `p.x` of row `p.y`.
pub open spec fn after_insert_char(text: Seq<Seq<char>>, p: CursorPos, c: char) -> Seq<Seq<char>> {
    let row = text[p.y as int];
    text.update(p.y as int, row.take(p.x as int).push(c) + row.skip(p.x as int))
}

/// `text` with row `p.y` cut in two at column `p.x`.
pub open spec fn after_newline(text: Seq<Seq<char>>, p: CursorPos) -> Seq<Seq<char>> {
    let row = text[p.y as int];
    text.take(p.y as int) + seq![row.take(p.x as int), row.skip(p.x as int)] + text.skip(
        p.y + 1,
    )
}

/// `text` without the character just before column `p.x` of row `p.y`.
pub open spec fn after_delete_char(text: Seq<Seq<char>>, p: CursorPos) -> Seq<Seq<char>> {
    let row = text[p.y as int];
    text.update(p.y as int, row.take(p.x - 1) + row.skip(p.x as int))
}

/// `text` with row `y` appended to row `y - 1`.
pub open spec fn after_merge(text: Seq<Seq<char>>, y: int) -> Seq<Seq<char>> {
    text.take(y - 1) + seq![text[y - 1] + text[y]] + text.skip(y + 1)
}

/// `text` without the characters from `start` up to, not including, `end`:
/// what is left of the first and the last row of the range becomes one row.
pub open spec fn after_delete_range(
    text: Seq<Seq<char>>,
    start: CursorPos,
    end: CursorPos,
) -> Seq<Seq<char>> {
    text.take(start.y as int) + seq![
        text[start.y as int].take(start.x as int) + text[end.y as int].skip(end.x as int),
    ] + text.skip(end.y + 1)
}

/// The part of each row from `start.y` to `end.y` that lies between `start`
/// and `end`.
pub open spec fn range_pieces(
    text: Seq<Seq<char>>,
    start: CursorPos,
    end: CursorPos,
) -> Seq<Seq<char>> {
    if start.y == end.y {
        seq![text[start.y as int].subrange(start.x as int, end.x as int)]
    } else {
        seq![text[start.y as int].skip(start.x as int)] + text.subrange(
            start.y + 1,
            end.y as int,
        ) + seq![text[end.y as int].take(end.x as int)]
    }
}

/// The characters from `start` up to, not including, `end`, with a line feed
/// wherever the range passes from one row to the next.
pub open spec fn range_text(text: Seq<Seq<char>>, start: CursorPos, end: CursorPos) -> Seq<
    char,
> {
    join_lines(range_pieces(text, start, end))
}

/// `text` with `s` put in at `p`. Each line feed in `s` starts a new row;
/// what stood behind `p` on its row follows the last piece of `s`.
pub open spec fn after_splice(text: Seq<Seq<char>>, p: CursorPos, s: Seq<char>) -> Seq<
    Seq<char>,
> {
    let parts = split_newlines(s);
    let head = text[p.y as int].take(p.x as int);
    let tail = text[p.y as int].skip(p.x as int);
    let rows = if parts.len() == 1 {
        seq![head + parts[0] + tail]
    } else {
        seq![head + parts[0]] + parts.subrange(1, parts.len() - 1) + seq![parts.last() + tail]
    };
    text.take(p.y as int) + rows + text.skip(p.y + 1)
}

/// The row just behind the text that `after_splice` puts in at `p`.
pub open spec fn splice_end_row(p: CursorPos, s: Seq<char>) -> int {
    p.y + split_newlines(s).len() - 1
}

/// The column just behind the text that `after_splice` puts in at `p`.
pub open spec fn splice_end_column(p: CursorPos, s: Seq<char>) -> int {
    let parts = split_newlines(s);
    if parts.len() == 1 {
        p.x + parts[0].len()
    } else {
        parts.last().len() as int
    }
}

/// Splitting never gives nothing: there is one piece more than line feeds.
pub proof fn lemma_split_nonempty(s: Seq<char>)
    ensures
        split_newlines(s).len() >= 1,
    decreases s.len(),
{
    if s.len() > 0 {
        lemma_split_nonempty(s.drop_last());
    }
}

/// Splitting a text that ends in a line feed adds one empty piece.
pub proof fn lemma_split_push_newline(s: Seq<char>)
    ensures
        split_newlines(s.push('\n')) == split_newlines(s).push(Seq::<char>::empty()),
{
    assert(s.push('\n').drop_last() =~= s);
}

/// Splitting a text that ends in another character lengthens the last piece.
pub proof fn lemma_split_push_other(s: Seq<char>, c: char)
    requires
        c != '\n',
    ensures
        split_newlines(s.push(c)) == split_newlines(s).drop_last().push(
            split_newlines(s).last().push(c),
        ),
{
    assert(s.push(c).drop_last() =~= s);
}

/// Characters without a line feed, written behind `a`, lengthen the last piece of `a`.
pub proof fn lemma_split_append_plain(a: Seq<char>, b: Seq<char>)
    requires
        newline_free(b),
    ensures
        split_newlines(a + b) == split_newlines(a).drop_last().push(split_newlines(a).last() + b),
    decreases b.len(),
{
    lemma_split_nonempty(a);
    if b.len() == 0 {
        assert(a + b =~= a);
        assert(split_newlines(a).last() + b =~= split_newlines(a).last());
        assert(split_newlines(a).drop_last().push(split_newlines(a).last()) =~= split_newlines(a));
    } else {
        let b0 = b.drop_last();
        lemma_split_append_plain(a, b0);
        assert(a + b =~= (a + b0).push(b.last()));
        lemma_split_push_other(a + b0, b.last());
        let sa = split_newlines(a);
        assert(split_newlines(a + b0).drop_last() =~= sa.drop_last());
        assert((sa.last() + b0).push(b.last()) =~= sa.last() + b);
    }
}

/// Every piece that splitting gives is free of line feeds.
pub proof fn lemma_split_pieces_newline_free(s: Seq<char>)
    ensures
        forall|i: int| 0 <= i < split_newlines(s).len() ==> newline_free(#[trigger] split_newlines(s)[i]),
    decreases s.len(),
{
    if s.len() > 0 {
        lemma_split_pieces_newline_free(s.drop_last());
        lemma_split_nonempty(s.drop_last());
    }
}

/// Joining the pieces of a text gives the text back.
pub proof fn lemma_join_split(s: Seq<char>)
    ensures
        join_lines(split_newlines(s)) == s,
    decreases s.len(),
{
    if s.len() == 0 {
        assert(join_lines(split_newlines(s)) =~= s);
    } else {
        let s0 = s.drop_last();
        let before = split_newlines(s0);
        lemma_join_split(s0);
        lemma_split_nonempty(s0);
        if s.last() == '\n' {
            let after = before.push(Seq::<char>::empty());
            assert(after.drop_last() =~= before);
            assert(join_lines(after) =~= s0 + seq!['\n']);
            assert(s0 + seq!['\n'] =~= s);
        } else {
            let grown = before.last().push(s.last());
            let after = before.drop_last().push(grown);
            assert(after.drop_last() =~= before.drop_last());
            if before.len() == 1 {
                assert(join_lines(before) == before[0]);
                assert(join_lines(after) == grown);
                assert(grown =~= s);
            } else {
                assert(join_lines(after) == join_lines(before.drop_last()) + seq!['\n'] + grown);
                assert(join_lines(before) == join_lines(before.drop_last()) + seq!['\n']
                    + before.last());
                assert(join_lines(after) =~= join_lines(before).push(s.last()));
                assert(s0.push(s.last()) =~= s);
            }
        }
    }
}

/// Splitting what joining made gives the rows back, as long as there is a
/// row and no row holds a line feed.
pub proof fn lemma_split_join(rows: Seq<Seq<char>>)
    requires
        rows.len() >= 1,
        forall|i: int| 0 <= i < rows.len() ==> newline_free(#[trigger] rows[i]),
    ensures
        split_newlines(join_lines(rows)) == rows,
    decreases rows.len(),
{
    let empty = Seq::<char>::empty();
    if rows.len() == 1 {
        lemma_split_append_plain(empty, rows[0]);
        assert(empty + rows[0] =~= rows[0]);
        assert(split_newlines(empty) =~= seq![empty]);
        assert(split_newlines(rows[0]) =~= rows);
    } else {
        let init = rows.drop_last();
        lemma_split_join(init);
        let joined = join_lines(init);
        lemma_split_push_newline(joined);
        assert(joined + seq!['\n'] =~= joined.push('\n'));
        lemma_split_append_plain(joined.push('\n'), rows.last());
        assert(join_lines(rows) =~= joined.push('\n') + rows.last());
        assert(init.push(empty).drop_last() =~= init);
        assert(empty + rows.last() =~= rows.last());
        assert(init.push(rows.last()) =~= rows);
    }
}

/// Cutting a range out and putting its text back in at the place where the
/// range began restores the buffer, and the text ends where the range ended.
/// This holds of every range whose characters hold no line feed; a row that
/// holds one would come back as two rows.
pub proof fn lemma_extract_delete_splice_round_trip(
    text: Seq<Seq<char>>,
    start: CursorPos,
    end: CursorPos,
)
    requires
        valid_pos(text, start),
        valid_pos(text, end),
        pos_le(start, end),
        forall|i: int|
            0 <= i < range_pieces(text, start, end).len() ==> newline_free(
                #[trigger] range_pieces(text, start, end)[i],
            ),
    ensures
        after_splice(after_delete_range(text, start, end), start, range_text(text, start, end))
            == text,
        splice_end_row(start, range_text(text, start, end)) == end.y,
        splice_end_column(start, range_text(text, start, end)) == end.x,
{
    let pieces = range_pieces(text, start, end);
    let cut = after_delete_range(text, start, end);
    let back = after_splice(cut, start, range_text(text, start, end));
    lemma_split_join(pieces);
    let head = cut[start.y as int].take(start.x as int);
    let tail = cut[start.y as int].skip(start.x as int);
    assert(head =~= text[start.y as int].take(start.x as int));
    assert(tail =~= text[end.y as int].skip(end.x as int));
    assert(back.len() == text.len());
    assert forall|i: int| 0 <= i < text.len() implies back[i] =~= text[i] by {
        if i == start.y && start.y == end.y {
            assert(back[i] == head + pieces[0] + tail);
        } else if i == start.y {
            assert(back[i] == head + pieces[0]);
        } else if i == end.y {
            assert(back[i] == pieces.last() + tail);
        } else if start.y < i < end.y {
            assert(back[i] == pieces[i - start.y]);
        }
    }
    assert(back =~= text);
}

} // verus!
