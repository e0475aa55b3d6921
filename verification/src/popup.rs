use vstd::prelude::*;
use vstd::string::StringExecFns;
use crate::text::text_of;
use crate::utils::decimal;
use crate::utils::push_decimal;

verus! {

/// How many entries of a listing a box shows at a time. The chosen entry is
/// kept among them: the listing scrolls once it would leave them.
pub const WINDOW_ROWS: usize = 6;

/// The two boxes that list a directory.
#[derive(Clone, Copy, Debug, PartialEq, Eq, Structural)]
pub enum PopupKind {
    Save,
    Open,
}

/// A box drawn over the text: what it says and how large it is.
#[derive(Clone, Debug, PartialEq, Eq)]
pub struct Popup {
    pub title: String,
    pub lines: Vec<String>,
    pub footer: String,
    pub width: usize,
    pub height: usize,
    pub selected_line: Option<usize>,
    pub scroll: usize,
}

/// Which box is open, and for the two that list a directory: the entries,
/// the one chosen and the first one shown.
#[derive(Clone, Debug, PartialEq, Eq)]
pub enum PopupMode {
    Save { selected: usize, entries: Vec<String>, scroll_y: usize },
    Open { selected: usize, entries: Vec<String>, scroll_y: usize },
    Help,
}

/// A `Popup` as mathematics.
pub struct PopupView {
    pub title: Seq<char>,
    pub lines: Seq<Seq<char>>,
    pub footer: Seq<char>,
    pub width: usize,
    pub height: usize,
    pub selected_line: Option<usize>,
    pub scroll: usize,
}

/// A `PopupMode` as mathematics.
pub enum PopupModeView {
    Save { selected: usize, entries: Seq<Seq<char>>, scroll_y: usize },
    Open { selected: usize, entries: Seq<Seq<char>>, scroll_y: usize },
    Help,
}

impl View for Popup {
    type V = PopupView;

    open spec fn view(&self) -> PopupView {
        PopupView {
            title: self.title@,
            lines: text_of(self.lines@),
            footer: self.footer@,
            width: self.width,
            height: self.height,
            selected_line: self.selected_line,
            scroll: self.scroll,
        }
    }
}

impl View for PopupMode {
    type V = PopupModeView;

    open spec fn view(&self) -> PopupModeView {
        match self {
            PopupMode::Save { selected, entries, scroll_y } => PopupModeView::Save {
                selected: *selected,
                entries: text_of(entries@),
                scroll_y: *scroll_y,
            },
            PopupMode::Open { selected, entries, scroll_y } => PopupModeView::Open {
                selected: *selected,
                entries: text_of(entries@),
                scroll_y: *scroll_y,
            },
            PopupMode::Help => PopupModeView::Help,
        }
    }
}

/// The rows of the help box.
pub open spec fn help_rows() -> Seq<Seq<char>> {
    seq![
        "Ctrl + Q -> Salir"@,
        "Ctrl + C -> Copiar"@,
        "Ctrl + X -> Cortar"@,
        "Ctrl + V -> Pegar"@,
        "Ctrl + S -> Guardar archivo"@,
        "Ctrl + O -> Abrir archivo"@,
        "Shift + Flechas -> Seleccionar"@,
        "Ctrl + Flechas -> Mover por palabra"@,
        "Inicio/Home -> Mover al principio de la linea"@,
        "Fin/End -> Mover al final de la linea"@,
        "Ctrl + Inicio/Home -> Mover al principio del documento"@,
        "Ctrl + Fin/End -> Mover al final del documento"@,
        "Esc -> Cerrar ayuda"@,
    ]
}

/// The help box.
pub open spec fn help_popup() -> PopupView {
    PopupView {
        title: "Atajos del teclado"@,
        lines: help_rows(),
        footer: "Creado por Ignacio Fonseca"@,
        width: 64,
        height: 19,
        selected_line: None,
        scroll: 0,
    }
}

/// Up to `rows` entries of a listing, from entry `scroll` on.
pub open spec fn visible_entries(entries: Seq<Seq<char>>, scroll: int, rows: int) -> Seq<
    Seq<char>,
> {
    if scroll >= entries.len() {
        Seq::<Seq<char>>::empty()
    } else if scroll + rows >= entries.len() {
        entries.skip(scroll)
    } else {
        entries.subrange(scroll, scroll + rows)
    }
}

/// How far the chosen entry is below the first one shown; 0 where it is
/// above it.
pub open spec fn row_in_window(selected: int, scroll: int) -> int {
    if selected >= scroll {
        selected - scroll
    } else {
        0
    }
}

/// The box for a mode and what has been typed into it.
pub open spec fn popup_of(mode: PopupModeView, input: Seq<char>) -> PopupView {
    match mode {
        PopupModeView::Save { selected, entries, scroll_y } => PopupView {
            title: "Guardar archivo"@,
            lines: seq!["Guardar como: "@ + input, "Directorio: ."@] + visible_entries(
                entries,
                scroll_y as int,
                WINDOW_ROWS as int,
            ),
            footer: "Enter = Guardar   Esc = Cancelar"@,
            width: 50,
            height: 12,
            selected_line: Some((row_in_window(selected as int, scroll_y as int) + 2) as usize),
            scroll: scroll_y,
        },
        PopupModeView::Open { selected, entries, scroll_y } => PopupView {
            title: "Abrir archivo"@,
            lines: seq!["Directorio: "@ + input] + visible_entries(
                entries,
                scroll_y as int,
                WINDOW_ROWS as int,
            ),
            footer: decimal((selected + 1) as nat) + " de "@ + decimal(entries.len())
                + " - Esc = Salir"@,
            width: 50,
            height: 12,
            selected_line: Some((row_in_window(selected as int, scroll_y as int) + 1) as usize),
            scroll: scroll_y,
        },
        PopupModeView::Help => help_popup(),
    }
}

/// The first entry shown once the window has followed the chosen entry:
/// an entry above the window becomes its first row, an entry below it its
/// last.
pub open spec fn window_after(selected: int, scroll: int) -> int {
    if selected < scroll {
        selected
    } else if selected >= scroll + WINDOW_ROWS {
        selected - (WINDOW_ROWS - 1)
    } else {
        scroll
    }
}

/// The entry chosen after a step up: the one before, or the last one from
/// the first.
pub open spec fn previous_entry(selected: int, count: int) -> int {
    if selected > 0 {
        selected - 1
    } else if count > 0 {
        count - 1
    } else {
        0
    }
}

/// The entry chosen after a step down: the one behind, or the first one
/// from the last.
pub open spec fn next_entry(selected: int, count: int) -> int {
    if selected + 1 < count {
        selected + 1
    } else {
        0
    }
}

impl PopupModeView {
    /// The chosen entry is one of the listing.
    pub open spec fn wf(self) -> bool {
        match self {
            PopupModeView::Save { selected, entries, .. } => selected < entries.len(),
            PopupModeView::Open { selected, entries, .. } => selected < entries.len(),
            PopupModeView::Help => true,
        }
    }

    /// The box lists a directory.
    pub open spec fn lists(self) -> bool {
        !(self is Help)
    }

    /// The entries of the listing; none for the help box.
    pub open spec fn entries(self) -> Seq<Seq<char>> {
        match self {
            PopupModeView::Save { entries, .. } => entries,
            PopupModeView::Open { entries, .. } => entries,
            PopupModeView::Help => Seq::<Seq<char>>::empty(),
        }
    }

    /// The index of the chosen entry; 0 for the help box.
    pub open spec fn selected(self) -> usize {
        match self {
            PopupModeView::Save { selected, .. } => selected,
            PopupModeView::Open { selected, .. } => selected,
            PopupModeView::Help => 0,
        }
    }

    /// The index of the first entry shown; 0 for the help box.
    pub open spec fn scroll(self) -> usize {
        match self {
            PopupModeView::Save { scroll_y, .. } => scroll_y,
            PopupModeView::Open { scroll_y, .. } => scroll_y,
            PopupModeView::Help => 0,
        }
    }

    /// How many rows of the box stand before the entries: what is typed
    /// and the directory in the save box, the directory in the open box.
    pub open spec fn header_rows(self) -> int {
        match self {
            PopupModeView::Save { .. } => 2,
            PopupModeView::Open { .. } => 1,
            PopupModeView::Help => 0,
        }
    }

    /// The chosen entry of a listing.
    pub open spec fn chosen(self) -> Seq<char> {
        self.entries()[self.selected() as int]
    }

    /// The same box with a new listing, its first entry chosen and shown
    /// first. The help box stays as it is.
    pub open spec fn relisted(self, entries: Seq<Seq<char>>) -> PopupModeView {
        match self {
            PopupModeView::Save { .. } => PopupModeView::Save { selected: 0, entries, scroll_y: 0 },
            PopupModeView::Open { .. } => PopupModeView::Open { selected: 0, entries, scroll_y: 0 },
            PopupModeView::Help => self,
        }
    }

    /// The row numbers of the box for this mode fit the machine's integers.
    pub open spec fn drawable(self) -> bool {
        match self {
            PopupModeView::Save { selected, scroll_y, .. } => row_in_window(
                selected as int,
                scroll_y as int,
            ) + 2 <= usize::MAX,
            PopupModeView::Open { selected, .. } => selected + 1 <= usize::MAX,
            PopupModeView::Help => true,
        }
    }

    /// The mode after a step up in the listing.
    pub open spec fn after_up(self) -> PopupModeView {
        match self {
            PopupModeView::Save { selected, entries, scroll_y } => {
                let chosen = previous_entry(selected as int, entries.len() as int);
                PopupModeView::Save {
                    selected: chosen as usize,
                    entries,
                    scroll_y: window_after(chosen, scroll_y as int) as usize,
                }
            },
            PopupModeView::Open { selected, entries, scroll_y } => {
                let chosen = previous_entry(selected as int, entries.len() as int);
                PopupModeView::Open {
                    selected: chosen as usize,
                    entries,
                    scroll_y: window_after(chosen, scroll_y as int) as usize,
                }
            },
            PopupModeView::Help => self,
        }
    }

    /// The mode after a step down in the listing.
    pub open spec fn after_down(self) -> PopupModeView {
        match self {
            PopupModeView::Save { selected, entries, scroll_y } => {
                let chosen = next_entry(selected as int, entries.len() as int);
                PopupModeView::Save {
                    selected: chosen as usize,
                    entries,
                    scroll_y: window_after(chosen, scroll_y as int) as usize,
                }
            },
            PopupModeView::Open { selected, entries, scroll_y } => {
                let chosen = next_entry(selected as int, entries.len() as int);
                PopupModeView::Open {
                    selected: chosen as usize,
                    entries,
                    scroll_y: window_after(chosen, scroll_y as int) as usize,
                }
            },
            PopupModeView::Help => self,
        }
    }
}

/// A box of the given kind with a fresh listing: the first entry is chosen
/// and shown first.
pub open spec fn fresh_listing(kind: PopupKind, entries: Seq<Seq<char>>) -> PopupModeView {
    match kind {
        PopupKind::Save => PopupModeView::Save { selected: 0, entries, scroll_y: 0 },
        PopupKind::Open => PopupModeView::Open { selected: 0, entries, scroll_y: 0 },
    }
}

/// In a box whose window holds the chosen entry, the row marked as chosen
/// is a row of the box and shows the chosen entry; and the rows behind the
/// header are the entries of the window, in order.
pub proof fn lemma_box_marks_chosen_entry(mode: PopupModeView, input: Seq<char>)
    requires
        mode.wf(),
        mode.lists(),
        mode.scroll() <= mode.selected() < mode.scroll() + WINDOW_ROWS,
    ensures
        popup_of(mode, input).selected_line is Some,
        popup_of(mode, input).selected_line->0 < popup_of(mode, input).lines.len(),
        popup_of(mode, input).lines[popup_of(mode, input).selected_line->0 as int]
            == mode.chosen(),
        popup_of(mode, input).lines.skip(mode.header_rows()) == visible_entries(
            mode.entries(),
            mode.scroll() as int,
            WINDOW_ROWS as int,
        ),
        popup_of(mode, input).scroll == mode.scroll(),
{
    let shown = visible_entries(mode.entries(), mode.scroll() as int, WINDOW_ROWS as int);
    let row = mode.selected() - mode.scroll();
    assert(shown[row] == mode.entries()[mode.selected() as int]);
    assert(popup_of(mode, input).lines.skip(mode.header_rows()) =~= shown);
}

/// The window shows the chosen entry once it has followed it.
pub proof fn lemma_window_holds_selected(selected: int, scroll: int)
    requires
        0 <= selected,
        0 <= scroll,
    ensures
        0 <= window_after(selected, scroll) <= selected < window_after(selected, scroll)
            + WINDOW_ROWS,
{
}

/// A step up or down in a listing chooses one of its entries again.
pub proof fn lemma_steps_stay_in_listing(mode: PopupModeView)
    requires
        mode.wf(),
    ensures
        mode.after_up().wf(),
        mode.after_down().wf(),
{
}

fn step_to(selected: &mut usize, scroll_y: &mut usize, chosen: usize)
    ensures
        *final(selected) == chosen,
        *final(scroll_y) == window_after(chosen as int, *old(scroll_y) as int),
{
    *selected = chosen;
    if chosen < *scroll_y {
        *scroll_y = chosen;
    } else if chosen - *scroll_y >= WINDOW_ROWS {
        *scroll_y = chosen - (WINDOW_ROWS - 1);
    }
}

fn entry_before(selected: usize, count: usize) -> (chosen: usize)
    ensures
        chosen == previous_entry(selected as int, count as int),
{
    if selected > 0 {
        selected - 1
    } else if count > 0 {
        count - 1
    } else {
        0
    }
}

fn entry_behind(selected: usize, count: usize) -> (chosen: usize)
    ensures
        chosen == next_entry(selected as int, count as int),
{
    if selected < count && selected + 1 < count {
        selected + 1
    } else {
        0
    }
}

impl Popup {
    /// The box that lists the keys of the editor.
    pub fn help() -> (popup: Popup)
        ensures
            popup@ == help_popup(),
    {
        let mut lines: Vec<String> = Vec::new();
        lines.push("Ctrl + Q -> Salir".to_owned());
        lines.push("Ctrl + C -> Copiar".to_owned());
        lines.push("Ctrl + X -> Cortar".to_owned());
        lines.push("Ctrl + V -> Pegar".to_owned());
        lines.push("Ctrl + S -> Guardar archivo".to_owned());
        lines.push("Ctrl + O -> Abrir archivo".to_owned());
        lines.push("Shift + Flechas -> Seleccionar".to_owned());
        lines.push("Ctrl + Flechas -> Mover por palabra".to_owned());
        lines.push("Inicio/Home -> Mover al principio de la linea".to_owned());
        lines.push("Fin/End -> Mover al final de la linea".to_owned());
        lines.push("Ctrl + Inicio/Home -> Mover al principio del documento".to_owned());
        lines.push("Ctrl + Fin/End -> Mover al final del documento".to_owned());
        lines.push("Esc -> Cerrar ayuda".to_owned());
        let box_width: usize = 64;
        let box_height: usize = lines.len() + 6;
        assert(text_of(lines@) =~= help_rows());
        Popup {
            title: "Atajos del teclado".to_owned(),
            lines,
            footer: "Creado por Ignacio Fonseca".to_owned(),
            width: box_width,
            height: box_height,
            selected_line: None,
            scroll: 0,
        }
    }
}

/// Appends up to `rows` entries of the listing, from entry `scroll` on.
fn push_visible(lines: &mut Vec<String>, entries: &Vec<String>, scroll: usize, rows: usize)
    ensures
        text_of(final(lines)@) == text_of(old(lines)@) + visible_entries(
            text_of(entries@),
            scroll as int,
            rows as int,
        ),
{
    let ghost shown = visible_entries(text_of(entries@), scroll as int, rows as int);
    let mut i: usize = scroll;
    let mut taken: usize = 0;
    assert(text_of(lines@) =~= text_of(old(lines)@) + shown.take(0));
    while i < entries.len() && taken < rows
        invariant
            scroll <= i,
            i == scroll + taken,
            taken <= rows,
            taken <= shown.len(),
            i <= entries@.len() || taken == 0,
            shown == visible_entries(text_of(entries@), scroll as int, rows as int),
            text_of(lines@) == text_of(old(lines)@) + shown.take(taken as int),
        decreases entries@.len() - i,
    {
        let ghost before = text_of(lines@);
        lines.push(entries[i].clone());
        assert(shown[taken as int] == entries@[i as int]@);
        assert(text_of(lines@) =~= before.push(entries@[i as int]@));
        i += 1;
        taken += 1;
        assert(text_of(lines@) =~= text_of(old(lines)@) + shown.take(taken as int));
    }
    assert(shown.take(taken as int) =~= shown);
}

impl PopupMode {
    /// The chosen entry is one of the listing.
    pub open spec fn wf(&self) -> bool {
        self@.wf()
    }

    /// Whether the chosen entry is one of the listing.
    pub fn is_wf(&self) -> (r: bool)
        ensures
            r == self.wf(),
    {
        match self {
            PopupMode::Save { selected, entries, .. } => *selected < entries.len(),
            PopupMode::Open { selected, entries, .. } => *selected < entries.len(),
            PopupMode::Help => true,
        }
    }

    /// The chosen entry of a listing; `None` for the help box.
    pub fn chosen_entry(&self) -> (entry: Option<&String>)
        requires
            self.wf(),
        ensures
            entry is Some == self@.lists(),
            entry matches Some(e) ==> e@ == self@.chosen(),
    {
        match self {
            PopupMode::Save { selected, entries, .. } => Some(&entries[*selected]),
            PopupMode::Open { selected, entries, .. } => Some(&entries[*selected]),
            PopupMode::Help => None,
        }
    }

    /// Whether the row numbers of the box for this mode fit the machine's
    /// integers.
    pub fn is_drawable(&self) -> (r: bool)
        ensures
            r == self@.drawable(),
    {
        match self {
            PopupMode::Save { selected, scroll_y, .. } => {
                *selected < *scroll_y || *selected - *scroll_y <= usize::MAX - 2
            },
            PopupMode::Open { selected, .. } => *selected < usize::MAX,
            PopupMode::Help => true,
        }
    }

    /// The box to draw for this mode, with `input` as what has been typed.
    pub fn to_popup(&self, input: &str) -> (popup: Popup)
        requires
            self@.drawable(),
        ensures
            popup@ == popup_of(self@, input@),
    {
        match self {
            PopupMode::Save { selected, entries, scroll_y } => {
                let mut first = "Guardar como: ".to_owned();
                first.append(input);
                let mut lines: Vec<String> = Vec::new();
                lines.push(first);
                lines.push("Directorio: .".to_owned());
                assert(text_of(lines@) =~= seq!["Guardar como: "@ + input@, "Directorio: ."@]);
                push_visible(&mut lines, entries, *scroll_y, WINDOW_ROWS);
                let row = if *selected >= *scroll_y {
                    *selected - *scroll_y
                } else {
                    0
                };
                Popup {
                    title: "Guardar archivo".to_owned(),
                    lines,
                    footer: "Enter = Guardar   Esc = Cancelar".to_owned(),
                    width: 50,
                    height: 12,
                    selected_line: Some(row + 2),
                    scroll: *scroll_y,
                }
            },
            PopupMode::Open { selected, entries, scroll_y } => {
                let mut first = "Directorio: ".to_owned();
                first.append(input);
                let mut lines: Vec<String> = Vec::new();
                lines.push(first);
                assert(text_of(lines@) =~= seq!["Directorio: "@ + input@]);
                push_visible(&mut lines, entries, *scroll_y, WINDOW_ROWS);
                let mut footer = String::new();
                push_decimal(&mut footer, *selected + 1);
                footer.append(" de ");
                push_decimal(&mut footer, entries.len());
                footer.append(" - Esc = Salir");
                let row = if *selected >= *scroll_y {
                    *selected - *scroll_y
                } else {
                    0
                };
                Popup {
                    title: "Abrir archivo".to_owned(),
                    lines,
                    footer,
                    width: 50,
                    height: 12,
                    selected_line: Some(row + 1),
                    scroll: *scroll_y,
                }
            },
            PopupMode::Help => {
                let mut p = Popup::help();
                p.selected_line = None;
                p
            },
        }
    }

    /// Chooses the entry before the chosen one, or the last one from the
    /// first, and lets the window follow.
    pub fn select_previous(&mut self)
        ensures
            final(self)@ == old(self)@.after_up(),
    {
        match self {
            PopupMode::Save { selected, entries, scroll_y } => {
                let chosen = entry_before(*selected, entries.len());
                step_to(selected, scroll_y, chosen);
            },
            PopupMode::Open { selected, entries, scroll_y } => {
                let chosen = entry_before(*selected, entries.len());
                step_to(selected, scroll_y, chosen);
            },
            PopupMode::Help => {},
        }
    }

    /// Chooses the entry behind the chosen one, or the first one from the
    /// last, and lets the window follow.
    pub fn select_next(&mut self)
        ensures
            final(self)@ == old(self)@.after_down(),
    {
        match self {
            PopupMode::Save { selected, entries, scroll_y } => {
                let chosen = entry_behind(*selected, entries.len());
                step_to(selected, scroll_y, chosen);
            },
            PopupMode::Open { selected, entries, scroll_y } => {
                let chosen = entry_behind(*selected, entries.len());
                step_to(selected, scroll_y, chosen);
            },
            PopupMode::Help => {},
        }
    }
}

} // verus!
