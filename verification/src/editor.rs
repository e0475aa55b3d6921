use vstd::prelude::*;
use vstd::string::StrSliceExecFns;
use crate::buffer::delete_char_before;
use crate::buffer::insert_char;
use crate::buffer::insert_newline;
use crate::buffer::merge_line_with_previous;
use crate::cursor::CursorPos;
use crate::file::directory_listing;
use crate::file::file_content;
use crate::file::file_rows;
use crate::file::is_directory_entry;
use crate::file::is_parent_entry;
use crate::file::listing_of;
use crate::file::looks_like_directory;
use crate::file::parent_entry;
use crate::file::parse_lines;
use crate::file::DirectoryItem;
use crate::moves::after_down;
use crate::moves::after_end;
use crate::moves::after_home;
use crate::moves::after_left;
use crate::moves::after_right;
use crate::moves::after_up;
use crate::moves::move_down;
use crate::moves::move_end;
use crate::moves::move_home;
use crate::moves::move_left;
use crate::moves::move_right;
use crate::moves::move_up;
use crate::popup::fresh_listing;
use crate::popup::PopupKind;
use crate::popup::PopupMode;
use crate::popup::PopupModeView;
use crate::selection::delete_selection;
use crate::selection::get_selected_text;
use crate::selection::has_selection;
use crate::selection::paste_text;
use crate::selection::selection_end;
use crate::selection::selection_exists;
use crate::selection::selection_start;
use crate::selection::start_selection_if_needed;
use crate::selection::valid_anchor;
use crate::text::after_delete_char;
use crate::text::after_delete_range;
use crate::text::after_insert_char;
use crate::text::after_merge;
use crate::text::after_newline;
use crate::text::after_splice;
use crate::text::join_lines;
use crate::text::range_text;
use crate::text::splice_end_column;
use crate::text::splice_end_row;
use crate::text::text_of;
use crate::text::valid_pos;
use crate::utils::push_char;
use crate::viewport::scroll_after;
use crate::viewport::scroll_to;
use crate::viewport::usable_width;
use crate::viewport::usable_width_of;
use crate::viewport::visible_rows;
use crate::viewport::visible_rows_of;

verus! {

/// The keys that the editor tells apart.
#[derive(Clone, Copy, Debug, PartialEq, Eq, Structural)]
pub enum KeyCode {
    Char(char),
    Left,
    Right,
    Up,
    Down,
    Home,
    End,
    Enter,
    Backspace,
    Esc,
    Other,
}

/// What happened to a key: it went down, it is held down and repeats, or
/// it came up.
#[derive(Clone, Copy, Debug, PartialEq, Eq, Structural)]
pub enum KeyKind {
    Press,
    Repeat,
    Release,
}

/// A key event: the key, what happened to it, and whether control and shift
/// were held.
#[derive(Clone, Copy, Debug, PartialEq, Eq, Structural)]
pub struct Key {
    pub code: KeyCode,
    pub kind: KeyKind,
    pub ctrl: bool,
    pub shift: bool,
}

/// What is left to do outside the editor after a step, and which method
/// takes the answer.
#[derive(Debug, PartialEq, Eq)]
pub enum Effect {
    /// Nothing.
    Nothing,
    /// End the session.
    Quit,
    /// Put this text on the clipboard.
    SetClipboard(String),
    /// Fetch the text on the clipboard, if there is any, for `paste`.
    ReadClipboard,
    /// List the current directory for `show_popup`.
    ListCurrent(PopupKind),
    /// List the directory above the current one for `enter_directory`.
    ListParent,
    /// List this child of the current directory for `enter_directory`.
    ListChild(String),
    /// Find out whether this child of the current directory is itself a
    /// directory, for `commit_entry`.
    ProbeEntry(String),
    /// Write this content to the file of this name in the current directory.
    WriteFile { name: String, content: String },
    /// Read the file of this name in the current directory for `load`.
    ReadFile(String),
}

/// An `Effect` as mathematics.
pub enum EffectView {
    Nothing,
    Quit,
    SetClipboard(Seq<char>),
    ReadClipboard,
    ListCurrent(PopupKind),
    ListParent,
    ListChild(Seq<char>),
    ProbeEntry(Seq<char>),
    WriteFile { name: Seq<char>, content: Seq<char> },
    ReadFile(Seq<char>),
}

impl View for Effect {
    type V = EffectView;

    open spec fn view(&self) -> EffectView {
        match self {
            Effect::Nothing => EffectView::Nothing,
            Effect::Quit => EffectView::Quit,
            Effect::SetClipboard(text) => EffectView::SetClipboard(text@),
            Effect::ReadClipboard => EffectView::ReadClipboard,
            Effect::ListCurrent(kind) => EffectView::ListCurrent(*kind),
            Effect::ListParent => EffectView::ListParent,
            Effect::ListChild(entry) => EffectView::ListChild(entry@),
            Effect::ProbeEntry(entry) => EffectView::ProbeEntry(entry@),
            Effect::WriteFile { name, content } => EffectView::WriteFile {
                name: name@,
                content: content@,
            },
            Effect::ReadFile(entry) => EffectView::ReadFile(entry@),
        }
    }
}

/// All that the editor knows: the buffer, the cursor and the anchor of the
/// selection, how far the window is scrolled, the open box with what has
/// been typed into it, and the directory that the boxes list.
pub struct Editor {
    pub lines: Vec<String>,
    pub cursor: CursorPos,
    pub anchor: Option<CursorPos>,
    pub scroll_x: usize,
    pub scroll_y: usize,
    pub popup: Option<PopupMode>,
    pub popup_input: String,
    pub current_dir: String,
}

/// An `Editor` as mathematics.
pub struct EditorView {
    pub text: Seq<Seq<char>>,
    pub cursor: CursorPos,
    pub anchor: Option<CursorPos>,
    pub scroll_x: usize,
    pub scroll_y: usize,
    pub popup: Option<PopupModeView>,
    pub input: Seq<char>,
    pub dir: Seq<char>,
}

impl View for Editor {
    type V = EditorView;

    open spec fn view(&self) -> EditorView {
        EditorView {
            text: text_of(self.lines@),
            cursor: self.cursor,
            anchor: self.anchor,
            scroll_x: self.scroll_x,
            scroll_y: self.scroll_y,
            popup: match self.popup {
                Some(mode) => Some(mode@),
                None => None,
            },
            input: self.popup_input@,
            dir: self.current_dir@,
        }
    }
}

/// The anchor if it names a place in `text`, and none otherwise.
pub open spec fn kept_anchor(text: Seq<Seq<char>>, anchor: Option<CursorPos>) -> Option<
    CursorPos,
> {
    if valid_anchor(text, anchor) {
        anchor
    } else {
        None
    }
}

/// What the enter key asks for on this entry of a listing: the directory
/// above, a directory by its looks, or a look at the file system.
pub open spec fn entry_effect(entry: Seq<char>) -> EffectView {
    if entry == parent_entry() {
        EffectView::ListParent
    } else if looks_like_directory(entry) {
        EffectView::ListChild(entry)
    } else {
        EffectView::ProbeEntry(entry)
    }
}

impl EditorView {
    /// Cursor and anchor name places in the buffer, and the chosen entry of
    /// an open listing is one of its entries.
    pub open spec fn wf(self) -> bool {
        &&& valid_pos(self.text, self.cursor)
        &&& valid_anchor(self.text, self.anchor)
        &&& self.popup matches Some(mode) ==> mode.wf()
    }

    /// The anchor once a move has begun: cleared without shift, and with
    /// shift set to the cursor unless it is set already.
    pub open spec fn anchor_for_move(self, shift: bool) -> Option<CursorPos> {
        if !shift {
            None
        } else if self.anchor is None {
            Some(self.cursor)
        } else {
            self.anchor
        }
    }

    /// The editor after a move of the cursor to `target`.
    pub open spec fn moved(self, shift: bool, target: CursorPos) -> EditorView {
        EditorView { cursor: target, anchor: self.anchor_for_move(shift), ..self }
    }

    /// The editor after the selected text has been taken out: the cursor
    /// stands where the selection began, and the anchor is cleared.
    pub open spec fn without_selection(self) -> EditorView {
        EditorView {
            text: after_delete_range(
                self.text,
                selection_start(self.anchor, self.cursor),
                selection_end(self.anchor, self.cursor),
            ),
            cursor: selection_start(self.anchor, self.cursor),
            anchor: None,
            ..self
        }
    }

    /// The editor after a character has been typed: it takes the place of
    /// the selection, if there is one, and the cursor stands behind it.
    pub open spec fn typed(self, c: char) -> EditorView {
        let base = if selection_exists(self.anchor, self.cursor) {
            self.without_selection()
        } else {
            self
        };
        EditorView {
            text: after_insert_char(base.text, base.cursor, c),
            cursor: CursorPos { x: (base.cursor.x + 1) as usize, y: base.cursor.y },
            ..base
        }
    }

    /// The editor after the row has been cut in two at the cursor, which
    /// then stands at the start of the new row. An anchor that names no
    /// place in the buffer any more is cleared.
    pub open spec fn broken(self) -> EditorView {
        let text = after_newline(self.text, self.cursor);
        EditorView {
            text,
            cursor: CursorPos { x: 0, y: (self.cursor.y + 1) as usize },
            anchor: kept_anchor(text, self.anchor),
            ..self
        }
    }

    /// The editor after the backspace key: the selection goes, if there is
    /// one; else the character before the cursor; else, at the start of a
    /// row, the row is appended to the one above and the cursor stands where
    /// the two were joined. An anchor that names no place in the buffer any
    /// more is cleared.
    pub open spec fn erased(self) -> EditorView {
        if selection_exists(self.anchor, self.cursor) {
            self.without_selection()
        } else if self.cursor.x > 0 {
            let text = after_delete_char(self.text, self.cursor);
            EditorView {
                text,
                cursor: CursorPos { x: (self.cursor.x - 1) as usize, y: self.cursor.y },
                anchor: kept_anchor(text, self.anchor),
                ..self
            }
        } else if self.cursor.y > 0 {
            let text = after_merge(self.text, self.cursor.y as int);
            EditorView {
                text,
                cursor: CursorPos {
                    x: self.text[self.cursor.y - 1].len() as usize,
                    y: (self.cursor.y - 1) as usize,
                },
                anchor: kept_anchor(text, self.anchor),
                ..self
            }
        } else {
            self
        }
    }

    /// The editor after `s` has been put in place of the selection, or at
    /// the cursor where nothing is selected.
    pub open spec fn pasted(self, s: Seq<char>) -> EditorView {
        let base = self.without_selection();
        EditorView {
            text: after_splice(base.text, base.cursor, s),
            cursor: CursorPos {
                x: splice_end_column(base.cursor, s) as usize,
                y: splice_end_row(base.cursor, s) as usize,
            },
            ..base
        }
    }

    /// The selected text.
    pub open spec fn selected_text(self) -> Seq<char> {
        range_text(
            self.text,
            selection_start(self.anchor, self.cursor),
            selection_end(self.anchor, self.cursor),
        )
    }

    /// The editor with no box open and nothing typed into one.
    pub open spec fn closed(self) -> EditorView {
        EditorView { popup: None, input: Seq::<char>::empty(), ..self }
    }

    /// The editor after a key press while no box is open.
    pub open spec fn after_editing_key(self, key: Key) -> EditorView {
        match key.code {
            KeyCode::Char(c) => {
                if key.ctrl && c == 'h' {
                    EditorView {
                        popup: Some(PopupModeView::Help),
                        input: Seq::<char>::empty(),
                        ..self
                    }
                } else if key.ctrl && c == 'x' {
                    if self.anchor is Some {
                        self.without_selection()
                    } else {
                        self
                    }
                } else if key.ctrl && (c == 'q' || c == 'c' || c == 'v' || c == 's' || c == 'o') {
                    self
                } else {
                    self.typed(c)
                }
            },
            KeyCode::Left => self.moved(key.shift, after_left(self.text, self.cursor, key.ctrl)),
            KeyCode::Right => self.moved(key.shift, after_right(self.text, self.cursor, key.ctrl)),
            KeyCode::Up => self.moved(key.shift, after_up(self.text, self.cursor)),
            KeyCode::Down => self.moved(key.shift, after_down(self.text, self.cursor)),
            KeyCode::Home => self.moved(key.shift, after_home(self.cursor, key.ctrl)),
            KeyCode::End => self.moved(key.shift, after_end(self.text, self.cursor, key.ctrl)),
            KeyCode::Enter => self.broken(),
            KeyCode::Backspace => self.erased(),
            KeyCode::Esc => self,
            KeyCode::Other => self,
        }
    }

    /// What a key press asks for while no box is open.
    pub open spec fn effect_of_editing_key(self, key: Key) -> EffectView {
        match key.code {
            KeyCode::Char(c) => {
                if key.ctrl && c == 'q' {
                    EffectView::Quit
                } else if key.ctrl && (c == 'c' || c == 'x') {
                    if self.anchor is Some {
                        EffectView::SetClipboard(self.selected_text())
                    } else {
                        EffectView::Nothing
                    }
                } else if key.ctrl && c == 'v' {
                    EffectView::ReadClipboard
                } else if key.ctrl && c == 's' {
                    EffectView::ListCurrent(PopupKind::Save)
                } else if key.ctrl && c == 'o' {
                    EffectView::ListCurrent(PopupKind::Open)
                } else {
                    EffectView::Nothing
                }
            },
            _ => EffectView::Nothing,
        }
    }

    /// The editor after a key press while the box `mode` is open.
    pub open spec fn after_popup_key(self, mode: PopupModeView, key: Key) -> EditorView {
        match key.code {
            KeyCode::Esc => self.closed(),
            KeyCode::Enter => if mode.lists() {
                self
            } else {
                self.closed()
            },
            KeyCode::Up => EditorView { popup: Some(mode.after_up()), ..self },
            KeyCode::Down => EditorView { popup: Some(mode.after_down()), ..self },
            KeyCode::Backspace => if mode.lists() && self.input.len() > 0 {
                EditorView { input: self.input.drop_last(), ..self }
            } else {
                self
            },
            KeyCode::Char(c) => if mode.lists() {
                EditorView { input: self.input.push(c), ..self }
            } else if key.ctrl && c == 'h' {
                self.closed()
            } else {
                self
            },
            _ => self,
        }
    }

    /// What a key press asks for while the box `mode` is open.
    pub open spec fn effect_of_popup_key(self, mode: PopupModeView, key: Key) -> EffectView {
        if key.code == KeyCode::Enter && mode.lists() {
            entry_effect(mode.chosen())
        } else {
            EffectView::Nothing
        }
    }

    /// The editor after a key event. Only a key that goes down counts; an
    /// open box takes it, and the buffer only where no box is open.
    pub open spec fn after_key(self, key: Key) -> EditorView {
        if key.kind != KeyKind::Press {
            self
        } else {
            match self.popup {
                Some(mode) => self.after_popup_key(mode, key),
                None => self.after_editing_key(key),
            }
        }
    }

    /// What a key event asks for.
    pub open spec fn effect_of_key(self, key: Key) -> EffectView {
        if key.kind != KeyKind::Press {
            EffectView::Nothing
        } else {
            match self.popup {
                Some(mode) => self.effect_of_popup_key(mode, key),
                None => self.effect_of_editing_key(key),
            }
        }
    }

    /// The chosen entry of the open listing stands for a file: it is not
    /// the entry for the directory above, does not look like a directory,
    /// and is none on disk.
    pub open spec fn commits_file(self, is_dir: bool) -> bool {
        &&& self.popup matches Some(mode)
        &&& mode.lists()
        &&& mode.chosen() != parent_entry()
        &&& !looks_like_directory(mode.chosen())
        &&& !is_dir
    }

    /// The editor after the chosen entry has been committed. Saving closes
    /// the box; all else waits for what comes back.
    pub open spec fn committed(self, is_dir: bool) -> EditorView {
        if self.commits_file(is_dir) && self.popup->0 is Save {
            self.closed()
        } else {
            self
        }
    }

    /// What committing the chosen entry asks for. A directory is listed. A
    /// file is written under the name typed into the box, or under the
    /// entry's name where nothing was typed, or it is read.
    pub open spec fn effect_of_commit(self, is_dir: bool) -> EffectView {
        match self.popup {
            Some(mode) => if !mode.lists() {
                EffectView::Nothing
            } else if mode.chosen() == parent_entry() {
                EffectView::ListParent
            } else if looks_like_directory(mode.chosen()) || is_dir {
                EffectView::ListChild(mode.chosen())
            } else if mode is Save {
                EffectView::WriteFile {
                    name: if self.input.len() == 0 {
                        mode.chosen()
                    } else {
                        self.input
                    },
                    content: join_lines(self.text),
                }
            } else {
                EffectView::ReadFile(mode.chosen())
            },
            None => EffectView::Nothing,
        }
    }

    /// The editor with a box of the given kind opened on a listing.
    pub open spec fn with_popup(self, kind: PopupKind, entries: Seq<Seq<char>>) -> EditorView {
        EditorView {
            popup: Some(fresh_listing(kind, entries)),
            input: Seq::<char>::empty(),
            ..self
        }
    }

    /// The editor after the open listing has gone over to another
    /// directory. Without an open listing nothing changes.
    pub open spec fn in_directory(self, dir: Seq<char>, entries: Seq<Seq<char>>) -> EditorView {
        match self.popup {
            Some(mode) => if mode.lists() {
                EditorView { popup: Some(mode.relisted(entries)), dir, ..self }
            } else {
                self
            },
            None => self,
        }
    }

    /// The editor after a file has been read: its rows are the buffer,
    /// cursor and window stand at the start, nothing is selected, no box is
    /// open, and the directory is the file's, where that is known.
    pub open spec fn loaded(self, content: Seq<char>, parent: Option<Seq<char>>) -> EditorView {
        EditorView {
            text: file_rows(content),
            cursor: CursorPos { x: 0, y: 0 },
            anchor: None,
            scroll_x: 0,
            scroll_y: 0,
            popup: None,
            input: Seq::<char>::empty(),
            dir: match parent {
                Some(dir) => dir,
                None => self.dir,
            },
        }
    }

    /// The editor after the window has followed the cursor on a terminal
    /// of this size.
    pub open spec fn scrolled(self, term_width: usize, term_height: usize) -> EditorView {
        EditorView {
            scroll_x: scroll_after(
                self.cursor.x as int,
                self.scroll_x as int,
                usable_width_of(term_width) as int,
            ) as usize,
            scroll_y: scroll_after(
                self.cursor.y as int,
                self.scroll_y as int,
                visible_rows_of(term_height) as int,
            ) as usize,
            ..self
        }
    }

    /// The window shows the cursor, as far as it shows anything.
    pub open spec fn cursor_in_window(self, term_width: usize, term_height: usize) -> bool {
        &&& usable_width_of(term_width) > 0 ==> self.scroll_x <= self.cursor.x < self.scroll_x
            + usable_width_of(term_width)
        &&& visible_rows_of(term_height) > 0 ==> self.scroll_y <= self.cursor.y < self.scroll_y
            + visible_rows_of(term_height)
    }
}

/// What the enter key asks for on this entry of a listing.
fn effect_of_entry(entry: &String) -> (effect: Effect)
    ensures
        effect@ == entry_effect(entry@),
{
    if is_parent_entry(entry.as_str()) {
        Effect::ListParent
    } else if is_directory_entry(entry.as_str()) {
        Effect::ListChild(entry.clone())
    } else {
        Effect::ProbeEntry(entry.clone())
    }
}

/// Clears an anchor that names no place in the buffer.
fn keep_valid_anchor(lines: &Vec<String>, anchor: &mut Option<CursorPos>)
    ensures
        *final(anchor) == kept_anchor(text_of(lines@), *old(anchor)),
{
    if let Some(a) = *anchor {
        if a.y >= lines.len() || a.x > lines[a.y].as_str().unicode_len() {
            *anchor = None;
        }
    }
}

impl Editor {
    /// Cursor and anchor name places in the buffer, and the chosen entry of
    /// an open listing is one of its entries.
    pub open spec fn wf(&self) -> bool {
        self@.wf()
    }

    /// A fresh editor: one empty row, the cursor at its start, nothing
    /// selected, no box open, and the working directory as the current one.
    pub fn new() -> (editor: Editor)
        ensures
            editor@ == (EditorView {
                text: seq![Seq::<char>::empty()],
                cursor: CursorPos { x: 0, y: 0 },
                anchor: None,
                scroll_x: 0,
                scroll_y: 0,
                popup: None,
                input: Seq::<char>::empty(),
                dir: seq!['.'],
            }),
            editor.wf(),
    {
        let mut lines: Vec<String> = Vec::new();
        lines.push(String::new());
        let mut current_dir = String::new();
        push_char(&mut current_dir, '.');
        let editor = Editor {
            lines,
            cursor: CursorPos { x: 0, y: 0 },
            anchor: None,
            scroll_x: 0,
            scroll_y: 0,
            popup: None,
            popup_input: String::new(),
            current_dir,
        };
        assert(editor@.text =~~= seq![Seq::<char>::empty()]);
        assert(editor@.dir =~= seq!['.']);
        editor
    }

    /// Whether cursor and anchor name places in the buffer and the chosen
    /// entry of an open listing is one of its entries.
    pub fn is_wf(&self) -> (r: bool)
        ensures
            r == self.wf(),
    {
        if self.cursor.y >= self.lines.len() {
            return false;
        }
        if self.cursor.x > self.lines[self.cursor.y].as_str().unicode_len() {
            return false;
        }
        if let Some(a) = self.anchor {
            if a.y >= self.lines.len() || a.x > self.lines[a.y].as_str().unicode_len() {
                return false;
            }
        }
        match &self.popup {
            Some(mode) => mode.is_wf(),
            None => true,
        }
    }

    /// Closes the open box and forgets what was typed into it.
    fn close_popup(&mut self)
        ensures
            final(self)@ == old(self)@.closed(),
    {
        self.popup = None;
        self.popup_input = String::new();
    }

    /// Sets or clears the anchor as a move with or without shift begins.
    fn begin_move(&mut self, shift: bool)
        ensures
            final(self)@ == (EditorView {
                anchor: old(self)@.anchor_for_move(shift),
                ..old(self)@
            }),
    {
        if shift {
            start_selection_if_needed(&mut self.anchor, self.cursor);
        } else {
            self.anchor = None;
        }
    }

    /// Types a character.
    fn type_char(&mut self, c: char)
        requires
            old(self).wf(),
        ensures
            final(self)@ == old(self)@.typed(c),
            final(self).wf(),
    {
        if has_selection(&self.anchor, &self.cursor) {
            delete_selection(&mut self.lines, &mut self.cursor, &mut self.anchor);
        }
        let column = insert_char(&mut self.lines, self.cursor, c);
        self.cursor.x = column;
    }

    /// Cuts the row in two at the cursor.
    fn break_line(&mut self)
        requires
            old(self).wf(),
        ensures
            final(self)@ == old(self)@.broken(),
            final(self).wf(),
    {
        insert_newline(&mut self.lines, self.cursor);
        assert(self.lines.len() == text_of(self.lines@).len());
        self.cursor.y += 1;
        self.cursor.x = 0;
        keep_valid_anchor(&self.lines, &mut self.anchor);
    }

    /// Takes out the selection, the character before the cursor, or the
    /// break before the row.
    fn erase(&mut self)
        requires
            old(self).wf(),
        ensures
            final(self)@ == old(self)@.erased(),
            final(self).wf(),
    {
        if has_selection(&self.anchor, &self.cursor) {
            delete_selection(&mut self.lines, &mut self.cursor, &mut self.anchor);
        } else if self.cursor.x > 0 {
            delete_char_before(&mut self.lines, self.cursor);
            self.cursor.x -= 1;
            keep_valid_anchor(&self.lines, &mut self.anchor);
        } else if self.cursor.y > 0 {
            let column = merge_line_with_previous(&mut self.lines, self.cursor.y);
            self.cursor.y -= 1;
            self.cursor.x = column;
            keep_valid_anchor(&self.lines, &mut self.anchor);
        }
    }

    /// A key press while no box is open.
    fn editing_key(&mut self, key: Key) -> (effect: Effect)
        requires
            old(self).wf(),
            old(self).popup is None,
        ensures
            final(self)@ == old(self)@.after_editing_key(key),
            effect@ == old(self)@.effect_of_editing_key(key),
            final(self).wf(),
    {
        match key.code {
            KeyCode::Char(c) => {
                if key.ctrl && c == 'q' {
                    Effect::Quit
                } else if key.ctrl && c == 'h' {
                    self.popup = Some(PopupMode::Help);
                    self.popup_input = String::new();
                    Effect::Nothing
                } else if key.ctrl && c == 'c' {
                    match get_selected_text(&self.lines, &self.cursor, &self.anchor) {
                        Some(text) => Effect::SetClipboard(text),
                        None => Effect::Nothing,
                    }
                } else if key.ctrl && c == 'x' {
                    match get_selected_text(&self.lines, &self.cursor, &self.anchor) {
                        Some(text) => {
                            delete_selection(&mut self.lines, &mut self.cursor, &mut self.anchor);
                            Effect::SetClipboard(text)
                        },
                        None => Effect::Nothing,
                    }
                } else if key.ctrl && c == 'v' {
                    Effect::ReadClipboard
                } else if key.ctrl && c == 's' {
                    Effect::ListCurrent(PopupKind::Save)
                } else if key.ctrl && c == 'o' {
                    Effect::ListCurrent(PopupKind::Open)
                } else {
                    self.type_char(c);
                    Effect::Nothing
                }
            },
            KeyCode::Left => {
                self.begin_move(key.shift);
                move_left(&self.lines, &mut self.cursor, key.ctrl);
                Effect::Nothing
            },
            KeyCode::Right => {
                self.begin_move(key.shift);
                move_right(&self.lines, &mut self.cursor, key.ctrl);
                Effect::Nothing
            },
            KeyCode::Up => {
                self.begin_move(key.shift);
                move_up(&self.lines, &mut self.cursor);
                Effect::Nothing
            },
            KeyCode::Down => {
                self.begin_move(key.shift);
                move_down(&self.lines, &mut self.cursor);
                Effect::Nothing
            },
            KeyCode::Home => {
                self.begin_move(key.shift);
                move_home(&self.lines, &mut self.cursor, key.ctrl);
                Effect::Nothing
            },
            KeyCode::End => {
                self.begin_move(key.shift);
                move_end(&self.lines, &mut self.cursor, key.ctrl);
                Effect::Nothing
            },
            KeyCode::Enter => {
                self.break_line();
                Effect::Nothing
            },
            KeyCode::Backspace => {
                self.erase();
                Effect::Nothing
            },
            KeyCode::Esc => Effect::Nothing,
            KeyCode::Other => Effect::Nothing,
        }
    }

    /// A key press while a box is open.
    fn popup_key(&mut self, key: Key) -> (effect: Effect)
        requires
            old(self).wf(),
            old(self).popup is Some,
        ensures
            final(self)@ == old(self)@.after_popup_key(old(self)@.popup->0, key),
            effect@ == old(self)@.effect_of_popup_key(old(self)@.popup->0, key),
            final(self).wf(),
    {
        let lists = match &self.popup {
            Some(PopupMode::Help) => false,
            _ => true,
        };
        match key.code {
            KeyCode::Esc => {
                self.close_popup();
                Effect::Nothing
            },
            KeyCode::Enter => {
                let chosen = match &self.popup {
                    Some(mode) => mode.chosen_entry(),
                    None => None,
                };
                match chosen {
                    Some(entry) => effect_of_entry(entry),
                    None => {
                        self.close_popup();
                        Effect::Nothing
                    },
                }
            },
            KeyCode::Up => {
                match &mut self.popup {
                    Some(mode) => {
                        mode.select_previous();
                    },
                    None => {},
                }
                Effect::Nothing
            },
            KeyCode::Down => {
                match &mut self.popup {
                    Some(mode) => {
                        mode.select_next();
                    },
                    None => {},
                }
                Effect::Nothing
            },
            KeyCode::Backspace => {
                if lists {
                    let len = self.popup_input.as_str().unicode_len();
                    if len > 0 {
                        self.popup_input = self.popup_input.as_str().substring_char(
                            0,
                            len - 1,
                        ).to_owned();
                        assert(self.popup_input@ =~= old(self).popup_input@.drop_last());
                    }
                }
                Effect::Nothing
            },
            KeyCode::Char(c) => {
                if lists {
                    push_char(&mut self.popup_input, c);
                } else if key.ctrl && c == 'h' {
                    self.close_popup();
                }
                Effect::Nothing
            },
            _ => Effect::Nothing,
        }
    }

    /// Takes one key event: changes the editor as the key asks, and says
    /// what is left to do outside. Keys that repeat or come up are passed
    /// over. While a box is open, the keys belong to the box.
    pub fn handle_key(&mut self, key: Key) -> (effect: Effect)
        requires
            old(self).wf(),
        ensures
            final(self)@ == old(self)@.after_key(key),
            effect@ == old(self)@.effect_of_key(key),
            final(self).wf(),
    {
        match key.kind {
            KeyKind::Press => if self.popup.is_some() {
                self.popup_key(key)
            } else {
                self.editing_key(key)
            },
            _ => Effect::Nothing,
        }
    }

    /// Puts the text from the clipboard in place of the selection, or at
    /// the cursor where nothing is selected.
    pub fn paste(&mut self, text: &str)
        requires
            old(self).wf(),
        ensures
            final(self)@ == old(self)@.pasted(text@),
            final(self).wf(),
    {
        paste_text(&mut self.lines, &mut self.cursor, &mut self.anchor, text);
    }

    /// Commits the chosen entry of the open listing, once it is known
    /// whether the entry is a directory on disk.
    pub fn commit_entry(&mut self, is_dir: bool) -> (effect: Effect)
        requires
            old(self).wf(),
        ensures
            final(self)@ == old(self)@.committed(is_dir),
            effect@ == old(self)@.effect_of_commit(is_dir),
            final(self).wf(),
    {
        let (entry, saving) = match &self.popup {
            Some(mode) => match mode.chosen_entry() {
                Some(entry) => (entry.clone(), matches!(mode, PopupMode::Save { .. })),
                None => {
                    return Effect::Nothing;
                },
            },
            None => {
                return Effect::Nothing;
            },
        };
        if is_parent_entry(entry.as_str()) {
            Effect::ListParent
        } else if is_directory_entry(entry.as_str()) || is_dir {
            Effect::ListChild(entry)
        } else if saving {
            let name = if self.popup_input.as_str().unicode_len() == 0 {
                entry
            } else {
                self.popup_input.clone()
            };
            let content = file_content(&self.lines);
            self.close_popup();
            Effect::WriteFile { name, content }
        } else {
            Effect::ReadFile(entry)
        }
    }

    /// Opens a box of the given kind on the listing of the current
    /// directory, whose children are `items`.
    pub fn show_popup(&mut self, kind: PopupKind, items: &Vec<DirectoryItem>)
        requires
            old(self).wf(),
        ensures
            final(self)@ == old(self)@.with_popup(kind, listing_of(items@)),
            final(self).wf(),
    {
        let entries = directory_listing(items);
        self.popup = Some(
            match kind {
                PopupKind::Save => PopupMode::Save { selected: 0, entries, scroll_y: 0 },
                PopupKind::Open => PopupMode::Open { selected: 0, entries, scroll_y: 0 },
            },
        );
        self.popup_input = String::new();
    }

    /// Takes the open listing over to the directory `dir`, whose children
    /// are `items`. Without an open listing nothing changes.
    pub fn enter_directory(&mut self, dir: String, items: &Vec<DirectoryItem>)
        requires
            old(self).wf(),
        ensures
            final(self)@ == old(self)@.in_directory(dir@, listing_of(items@)),
            final(self).wf(),
    {
        let kind = match &self.popup {
            Some(PopupMode::Save { .. }) => PopupKind::Save,
            Some(PopupMode::Open { .. }) => PopupKind::Open,
            _ => {
                return ;
            },
        };
        let entries = directory_listing(items);
        self.popup = Some(
            match kind {
                PopupKind::Save => PopupMode::Save { selected: 0, entries, scroll_y: 0 },
                PopupKind::Open => PopupMode::Open { selected: 0, entries, scroll_y: 0 },
            },
        );
        self.current_dir = dir;
    }

    /// Takes the content of a file that was read as the new buffer, with
    /// `parent` as the directory of the file where that is known.
    pub fn load(&mut self, content: &str, parent: Option<String>)
        ensures
            final(self)@ == old(self)@.loaded(
                content@,
                match parent {
                    Some(dir) => Some(dir@),
                    None => None,
                },
            ),
            final(self).wf(),
    {
        self.lines = parse_lines(content);
        self.cursor = CursorPos { x: 0, y: 0 };
        self.scroll_x = 0;
        self.scroll_y = 0;
        self.anchor = None;
        self.popup = None;
        self.popup_input = String::new();
        if let Some(dir) = parent {
            self.current_dir = dir;
        }
    }

    /// Lets the window follow the cursor on a terminal of this size. A
    /// terminal without a column for text puts the window just behind the
    /// cursor, which must leave room for that.
    pub fn update_scroll(&mut self, term_width: usize, term_height: usize)
        requires
            old(self).wf(),
            usable_width_of(term_width) > 0 || old(self).cursor.x < usize::MAX,
        ensures
            final(self)@ == old(self)@.scrolled(term_width, term_height),
            final(self)@.cursor_in_window(term_width, term_height),
            final(self).wf(),
    {
        assert(self.lines.len() == self.lines@.len());
        self.scroll_x = scroll_to(self.cursor.x, self.scroll_x, usable_width(term_width));
        self.scroll_y = scroll_to(self.cursor.y, self.scroll_y, visible_rows(term_height));
    }
}

} // verus!
