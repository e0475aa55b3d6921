use vstd::prelude::*;
use vstd::string::StrSliceExecFns;
use vstd::string::StringExecFns;
use crate::buffer::split_text;
use crate::text::join_lines;
use crate::text::lemma_split_nonempty;
use crate::text::split_newlines;
use crate::text::text_of;
use crate::utils::push_char;

verus! {

/// One child of a directory, as the file system reports it.
#[derive(Debug, PartialEq, Eq)]
pub struct DirectoryItem {
    pub name: String,
    pub is_dir: bool,
}

/// The entry that stands for the directory above: two dots.
pub open spec fn parent_entry() -> Seq<char> {
    seq!['.', '.']
}

/// How a child is shown in a listing: a directory with a slash behind its
/// name, anything else by its name alone.
pub open spec fn entry_label(name: Seq<char>, is_dir: bool) -> Seq<char> {
    if is_dir {
        name.push('/')
    } else {
        name
    }
}

/// The listing of a directory: the entry for the directory above, then one
/// entry for each child, in the order given.
pub open spec fn listing_of(items: Seq<DirectoryItem>) -> Seq<Seq<char>> {
    seq![parent_entry()] + Seq::new(
        items.len(),
        |i: int| entry_label(items[i].name@, items[i].is_dir),
    )
}

/// An entry that names a directory by its looks: it ends in a slash.
pub open spec fn looks_like_directory(entry: Seq<char>) -> bool {
    entry.len() > 0 && entry.last() == '/'
}

/// `row` without the carriage return at its end, if it has one.
pub open spec fn without_carriage_return(row: Seq<char>) -> Seq<char> {
    if row.len() > 0 && row.last() == '\r' {
        row.drop_last()
    } else {
        row
    }
}

/// The rows of a file's content. A row ends at a line feed, or at a
/// carriage return with a line feed right behind it; neither belongs to
/// the row. What follows the last line feed is a row only if it is not
/// empty. A file without any row gives one empty row.
pub open spec fn file_rows(content: Seq<char>) -> Seq<Seq<char>> {
    let pieces = split_newlines(content);
    let ended = Seq::new(
        (pieces.len() - 1) as nat,
        |i: int| without_carriage_return(pieces[i]),
    );
    if pieces.last().len() > 0 {
        ended.push(pieces.last())
    } else if ended.len() > 0 {
        ended
    } else {
        seq![Seq::<char>::empty()]
    }
}

/// A file always gives at least one row.
pub proof fn lemma_file_rows_nonempty(content: Seq<char>)
    ensures
        file_rows(content).len() >= 1,
{
    lemma_split_nonempty(content);
}

/// What is written to a file for these rows: the rows with a line feed
/// between neighbours, and none at the end.
pub fn file_content(lines: &Vec<String>) -> (content: String)
    ensures
        content@ == join_lines(text_of(lines@)),
{
    let mut content = String::new();
    let mut i: usize = 0;
    while i < lines.len()
        invariant
            i <= lines@.len(),
            content@ == join_lines(text_of(lines@).take(i as int)),
        decreases lines@.len() - i,
    {
        if i > 0 {
            push_char(&mut content, '\n');
        }
        content.append(lines[i].as_str());
        proof {
            let rows = text_of(lines@);
            assert(rows.take(i + 1).drop_last() =~= rows.take(i as int));
            assert(rows.take(i + 1).last() == lines@[i as int]@);
            if i > 0 {
                assert(join_lines(rows.take(i as int)).push('\n') =~= join_lines(
                    rows.take(i as int),
                ) + seq!['\n']);
            } else {
                assert(content@ =~= lines@[i as int]@);
            }
        }
        i += 1;
    }
    proof {
        assert(text_of(lines@).take(i as int) =~= text_of(lines@));
    }
    content
}

/// `row` without the carriage return at its end, if it has one.
fn strip_carriage_return(row: &str) -> (stripped: String)
    ensures
        stripped@ == without_carriage_return(row@),
{
    let len = row.unicode_len();
    if len > 0 && row.get_char(len - 1) == '\r' {
        proof {
            assert(row@.subrange(0, len - 1) =~= row@.drop_last());
        }
        row.substring_char(0, len - 1).to_owned()
    } else {
        row.to_owned()
    }
}

/// The rows of a file's content, at least one.
pub fn parse_lines(content: &str) -> (lines: Vec<String>)
    ensures
        text_of(lines@) == file_rows(content@),
        lines@.len() >= 1,
{
    let pieces = split_text(content);
    let count = pieces.len();
    let mut lines: Vec<String> = Vec::new();
    let mut i: usize = 0;
    while i < count - 1
        invariant
            i <= count - 1,
            count == pieces@.len(),
            count >= 1,
            text_of(lines@) == Seq::new(
                i as nat,
                |k: int| without_carriage_return(text_of(pieces@)[k]),
            ),
        decreases count - i,
    {
        let ghost before = text_of(lines@);
        lines.push(strip_carriage_return(pieces[i].as_str()));
        i += 1;
        assert(text_of(lines@) =~= before.push(without_carriage_return(pieces@[i - 1]@)));
        assert(text_of(lines@) =~= Seq::new(
            i as nat,
            |k: int| without_carriage_return(text_of(pieces@)[k]),
        ));
    }
    let last = pieces[count - 1].as_str();
    proof {
        let split = split_newlines(content@);
        assert(text_of(lines@) =~= Seq::new(
            (split.len() - 1) as nat,
            |k: int| without_carriage_return(split[k]),
        ));
        assert(split.last() == last@);
    }
    if last.unicode_len() > 0 {
        lines.push(last.to_owned());
        assert(text_of(lines@) =~= file_rows(content@));
    } else if lines.len() == 0 {
        lines.push(String::new());
        assert(text_of(lines@) =~= file_rows(content@));
    }
    lines
}

/// The listing of a directory with these children: the entry for the
/// directory above comes first, directories carry a slash.
pub fn directory_listing(items: &Vec<DirectoryItem>) -> (entries: Vec<String>)
    ensures
        text_of(entries@) == listing_of(items@),
        entries@.len() == items@.len() + 1,
{
    let mut entries: Vec<String> = Vec::new();
    let mut parent = String::new();
    push_char(&mut parent, '.');
    push_char(&mut parent, '.');
    entries.push(parent);
    assert(text_of(entries@) =~~= seq![parent_entry()]);
    let mut i: usize = 0;
    while i < items.len()
        invariant
            i <= items@.len(),
            text_of(entries@) == seq![parent_entry()] + Seq::new(
                i as nat,
                |k: int| entry_label(items@[k].name@, items@[k].is_dir),
            ),
        decreases items@.len() - i,
    {
        let mut label = items[i].name.clone();
        if items[i].is_dir {
            push_char(&mut label, '/');
        }
        let ghost before = text_of(entries@);
        entries.push(label);
        i += 1;
        assert(text_of(entries@) =~= before.push(
            entry_label(items@[i - 1].name@, items@[i - 1].is_dir),
        ));
        assert(text_of(entries@) =~= seq![parent_entry()] + Seq::new(
            i as nat,
            |k: int| entry_label(items@[k].name@, items@[k].is_dir),
        ));
    }
    entries
}

/// Whether `entry` is the entry for the directory above.
pub fn is_parent_entry(entry: &str) -> (r: bool)
    ensures
        r == (entry@ == parent_entry()),
{
    let r = entry.unicode_len() == 2 && entry.get_char(0) == '.' && entry.get_char(1) == '.';
    proof {
        if r {
            assert(entry@ =~= parent_entry());
        }
    }
    r
}

/// Whether `entry` ends in a slash, as the directories of a listing do.
pub fn is_directory_entry(entry: &str) -> (r: bool)
    ensures
        r == looks_like_directory(entry@),
{
    let len = entry.unicode_len();
    len > 0 && entry.get_char(len - 1) == '/'
}

} // verus!
