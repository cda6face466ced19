//! The viewer's state: which tab is shown, how far it is scrolled, which
//! nodes are expanded, and how key presses and mouse wheel events change it.
use vstd::prelude::*;
use crate::model::ParquetFileData;
use crate::text::digit_char;
use crate::args::DEFAULT_MAX_VALUE_LENGTH;

verus! {

/// The tabs of the viewer, in the order in which they are shown.
#[derive(Debug, Clone, Copy, PartialEq, Eq, Structural)]
pub enum ViewMode {
    Structure,
    Schema,
    Metadata,
    Stats,
}

/// The position of a tab in the tab bar.
pub open spec fn view_position(v: ViewMode) -> int {
    match v {
        ViewMode::Structure => 0,
        ViewMode::Schema => 1,
        ViewMode::Metadata => 2,
        ViewMode::Stats => 3,
    }
}

/// The tab at a position; positions past the last tab give the first tab.
pub open spec fn view_at(i: int) -> ViewMode {
    if i == 1 {
        ViewMode::Schema
    } else if i == 2 {
        ViewMode::Metadata
    } else if i == 3 {
        ViewMode::Stats
    } else {
        ViewMode::Structure
    }
}

/// The title of a tab.
pub open spec fn view_title(v: ViewMode) -> Seq<char> {
    match v {
        ViewMode::Structure => "Structure"@,
        ViewMode::Schema => "Schema"@,
        ViewMode::Metadata => "Metadata"@,
        ViewMode::Stats => "Stats"@,
    }
}

/// The tab that follows `v`, wrapping from the last to the first.
pub open spec fn view_after(v: ViewMode) -> ViewMode {
    view_at((view_position(v) + 1) % 4)
}

/// The tab that precedes `v`, wrapping from the first to the last.
pub open spec fn view_before(v: ViewMode) -> ViewMode {
    if view_position(v) == 0 {
        view_at(3)
    } else {
        view_at(view_position(v) - 1)
    }
}

impl ViewMode {
    /// The title shown in the tab bar.
    pub fn as_str(&self) -> (s: &str)
        ensures
            s@ == view_title(*self),
    {
        match self {
            ViewMode::Structure => "Structure",
            ViewMode::Schema => "Schema",
            ViewMode::Metadata => "Metadata",
            ViewMode::Stats => "Stats",
        }
    }

    /// All tabs, in tab-bar order.
    pub fn all() -> (r: [ViewMode; 4])
        ensures
            r@ == seq![ViewMode::Structure, ViewMode::Schema, ViewMode::Metadata, ViewMode::Stats],
            forall|i: int| 0 <= i < 4 ==> view_position(#[trigger] r@[i]) == i,
    {
        let r = [ViewMode::Structure, ViewMode::Schema, ViewMode::Metadata, ViewMode::Stats];
        assert(r@ =~= seq![ViewMode::Structure, ViewMode::Schema, ViewMode::Metadata, ViewMode::Stats]);
        r
    }

    /// The position of this tab in the tab bar.
    pub fn index(&self) -> (i: usize)
        ensures
            i == view_position(*self),
            i < 4,
    {
        match self {
            ViewMode::Structure => 0,
            ViewMode::Schema => 1,
            ViewMode::Metadata => 2,
            ViewMode::Stats => 3,
        }
    }

    /// The tab at a position; a position past the last tab gives `Structure`.
    pub fn from_index(index: usize) -> (v: Self)
        ensures
            v == view_at(index as int),
    {
        match index {
            0 => ViewMode::Structure,
            1 => ViewMode::Schema,
            2 => ViewMode::Metadata,
            3 => ViewMode::Stats,
            _ => ViewMode::Structure,
        }
    }
}

/// Each tab sits at its own position, and the position leads back to the tab.
pub proof fn lemma_view_position_round_trip(v: ViewMode, i: int)
    ensures
        view_at(view_position(v)) == v,
        0 <= view_position(v) < 4,
        0 <= i < 4 ==> view_position(view_at(i)) == i,
{
}

/// Moving to the next tab and then to the previous one comes back to the same
/// tab, and so does the other order.
pub proof fn lemma_tab_moves_undo(v: ViewMode)
    ensures
        view_before(view_after(v)) == v,
        view_after(view_before(v)) == v,
{
}

/// Moving to the next tab four times comes back to the same tab.
pub proof fn lemma_tab_cycle(v: ViewMode)
    ensures
        view_after(view_after(view_after(view_after(v)))) == v,
        view_after(v) != v,
{
}

/// The part of the viewer's state that key presses change.
pub struct AppState {
    pub current_view: ViewMode,
    pub should_quit: bool,
    pub scroll_offset: int,
    pub max_scroll: int,
    pub expanded_nodes: Seq<usize>,
}

/// The smaller of two integers.
pub open spec fn min_int(a: int, b: int) -> int {
    if a <= b { a } else { b }
}

/// `a + b`, stopped at the largest `usize`.
pub open spec fn saturating_add(a: int, b: int) -> int {
    min_int(a + b, usize::MAX as int)
}

/// `a - b`, stopped at zero.
pub open spec fn saturating_sub(a: int, b: int) -> int {
    if a >= b { a - b } else { 0 }
}

impl AppState {
    /// Asked to quit.
    pub open spec fn quit(self) -> AppState {
        AppState { should_quit: true, ..self }
    }

    /// Showing tab `v` from its top.
    pub open spec fn show(self, v: ViewMode) -> AppState {
        AppState { current_view: v, scroll_offset: 0, ..self }
    }

    /// Showing the next tab from its top.
    pub open spec fn next_tab(self) -> AppState {
        self.show(view_after(self.current_view))
    }

    /// Showing the previous tab from its top.
    pub open spec fn previous_tab(self) -> AppState {
        self.show(view_before(self.current_view))
    }

    /// Scrolled down `n` lines, no further than the last page.
    pub open spec fn scroll_down_by(self, n: int) -> AppState {
        AppState {
            scroll_offset: min_int(saturating_add(self.scroll_offset, n), self.max_scroll),
            ..self
        }
    }

    /// Scrolled up `n` lines, no further than the top.
    pub open spec fn scroll_up_by(self, n: int) -> AppState {
        AppState { scroll_offset: saturating_sub(self.scroll_offset, n), ..self }
    }

    /// Scrolled to `offset`.
    pub open spec fn scroll_to(self, offset: int) -> AppState {
        AppState { scroll_offset: offset, ..self }
    }

    /// Marks the node at the current scroll offset as expanded.
    pub open spec fn expand(self) -> AppState {
        if self.expanded_nodes.contains(self.scroll_offset as usize) {
            self
        } else {
            AppState {
                expanded_nodes: self.expanded_nodes.push(self.scroll_offset as usize),
                ..self
            }
        }
    }

    /// Forgets that the node at the current scroll offset was expanded.
    pub open spec fn collapse(self) -> AppState {
        AppState {
            expanded_nodes: self.expanded_nodes.filter(|x: usize| x != self.scroll_offset),
            ..self
        }
    }

    /// No node is recorded as expanded twice, and the offset is a `usize`.
    pub open spec fn wf(self) -> bool {
        &&& self.expanded_nodes.no_duplicates()
        &&& 0 <= self.scroll_offset <= usize::MAX
        &&& 0 <= self.max_scroll <= usize::MAX
    }
}

/// The keys that the viewer tells apart.
#[derive(Debug, Clone, Copy, PartialEq, Eq, Structural)]
pub enum Key {
    Char(char),
    Esc,
    Tab,
    BackTab,
    Left,
    Right,
    Up,
    Down,
    PageUp,
    PageDown,
    Home,
    End,
    Other,
}

/// Whether a key went down, repeats, or went up.
#[derive(Debug, Clone, Copy, PartialEq, Eq, Structural)]
pub enum KeyPhase {
    Press,
    Repeat,
    Release,
}

/// A key event: the key, its phase, and the bits of the modifier keys held
/// (zero when none is held).
#[derive(Debug, Clone, Copy, PartialEq, Eq, Structural)]
pub struct KeyInput {
    pub key: Key,
    pub phase: KeyPhase,
    pub modifiers: u8,
}

/// The mouse events that the viewer tells apart.
#[derive(Debug, Clone, Copy, PartialEq, Eq, Structural)]
pub enum MouseKind {
    ScrollDown,
    ScrollUp,
    Other,
}

/// An event of the terminal.
#[derive(Debug, Clone, Copy, PartialEq, Eq, Structural)]
pub enum InputEvent {
    Key(KeyInput),
    Mouse(MouseKind),
    Resize,
    Other,
}

/// What a key event does to the state: only presses count; `q` or Esc without
/// modifiers quits; digits pick a tab; the rest move between tabs, scroll, or
/// expand and collapse.
pub open spec fn after_key(s: AppState, key: KeyInput) -> AppState {
    if key.phase != KeyPhase::Press {
        s
    } else if (key.key == Key::Char('q') || key.key == Key::Esc) && key.modifiers == 0 {
        s.quit()
    } else {
        match key.key {
            Key::Char(c) => {
                if c == '1' {
                    s.show(ViewMode::Structure)
                } else if c == '2' {
                    s.show(ViewMode::Schema)
                } else if c == '3' {
                    s.show(ViewMode::Metadata)
                } else if c == '4' {
                    s.show(ViewMode::Stats)
                } else if c == 'j' {
                    s.scroll_down_by(1)
                } else if c == 'k' {
                    s.scroll_up_by(1)
                } else if c == 'l' {
                    s.expand()
                } else if c == 'h' {
                    s.collapse()
                } else {
                    s
                }
            },
            Key::Tab | Key::Right => s.next_tab(),
            Key::BackTab | Key::Left => s.previous_tab(),
            Key::Down => s.scroll_down_by(1),
            Key::Up => s.scroll_up_by(1),
            Key::PageDown => s.scroll_down_by(10),
            Key::PageUp => s.scroll_up_by(10),
            Key::Home => s.scroll_to(0),
            Key::End => s.scroll_to(usize::MAX as int),
            _ => s,
        }
    }
}

/// What a mouse event does to the state: the wheel scrolls by one line.
pub open spec fn after_mouse(s: AppState, mouse: MouseKind) -> AppState {
    match mouse {
        MouseKind::ScrollDown => s.scroll_down_by(1),
        MouseKind::ScrollUp => s.scroll_up_by(1),
        MouseKind::Other => s,
    }
}

/// What a terminal event does to the state.
pub open spec fn after_event(s: AppState, event: InputEvent) -> AppState {
    match event {
        InputEvent::Key(k) => after_key(s, k),
        InputEvent::Mouse(m) => after_mouse(s, m),
        _ => s,
    }
}

/// The viewer: the file it shows and its state.
pub struct App {
    pub info: ParquetFileData,
    pub file_path: String,
    pub current_view: ViewMode,
    pub should_quit: bool,
    pub scroll_offset: usize,
    pub max_scroll: usize,
    pub expanded_nodes: Vec<usize>,
    pub max_value_length: usize,
    pub no_truncate: bool,
}

impl View for App {
    type V = AppState;

    open spec fn view(&self) -> AppState {
        AppState {
            current_view: self.current_view,
            should_quit: self.should_quit,
            scroll_offset: self.scroll_offset as int,
            max_scroll: self.max_scroll as int,
            expanded_nodes: self.expanded_nodes@,
        }
    }
}

impl App {
    /// The file, its path and the cutting of metadata values are as before;
    /// no event changes them.
    pub open spec fn same_content(&self, other: &App) -> bool {
        &&& self.info == other.info
        &&& self.file_path == other.file_path
        &&& self.max_value_length == other.max_value_length
        &&& self.no_truncate == other.no_truncate
    }

    /// A viewer on the Structure tab, at the top, with nothing expanded, that
    /// cuts metadata values at the command line's default length.
    pub fn new(info: ParquetFileData, file_path: String) -> (app: Self)
        ensures
            app.info == info,
            app.file_path == file_path,
            app.max_value_length == DEFAULT_MAX_VALUE_LENGTH,
            !app.no_truncate,
            app@ == (AppState {
                current_view: ViewMode::Structure,
                should_quit: false,
                scroll_offset: 0,
                max_scroll: 0,
                expanded_nodes: Seq::empty(),
            }),
            app@.wf(),
    {
        let app = Self {
            info,
            file_path,
            current_view: ViewMode::Structure,
            should_quit: false,
            scroll_offset: 0,
            max_scroll: 0,
            expanded_nodes: Vec::new(),
            max_value_length: DEFAULT_MAX_VALUE_LENGTH,
            no_truncate: false,
        };
        assert(app.expanded_nodes@ =~= Seq::<usize>::empty());
        app
    }

    /// Sets how long a metadata value may be before it is cut, and whether
    /// values are cut at all.
    pub fn set_value_truncation(&mut self, max_value_length: usize, no_truncate: bool)
        ensures
            final(self).max_value_length == max_value_length,
            final(self).no_truncate == no_truncate,
            final(self)@ == old(self)@,
            final(self).info == old(self).info,
            final(self).file_path == old(self).file_path,
    {
        self.max_value_length = max_value_length;
        self.no_truncate = no_truncate;
    }

    pub fn quit(&mut self)
        ensures
            final(self)@ == old(self)@.quit(),
            final(self).same_content(old(self)),
    {
        self.should_quit = true;
    }

    pub fn set_view(&mut self, view: ViewMode)
        ensures
            final(self)@ == old(self)@.show(view),
            final(self).same_content(old(self)),
    {
        self.current_view = view;
        self.scroll_offset = 0;
    }

    pub fn next_tab(&mut self)
        ensures
            final(self)@ == old(self)@.next_tab(),
            final(self).same_content(old(self)),
    {
        let current_index = self.current_view.index();
        let next_index = (current_index + 1) % 4;
        self.current_view = ViewMode::from_index(next_index);
        self.scroll_offset = 0;
    }

    pub fn previous_tab(&mut self)
        ensures
            final(self)@ == old(self)@.previous_tab(),
            final(self).same_content(old(self)),
    {
        let current_index = self.current_view.index();
        let previous_index = if current_index == 0 {
            3
        } else {
            current_index - 1
        };
        self.current_view = ViewMode::from_index(previous_index);
        self.scroll_offset = 0;
    }

    pub fn scroll_down(&mut self)
        ensures
            final(self)@ == old(self)@.scroll_down_by(1),
            final(self).same_content(old(self)),
    {
        let next = self.scroll_offset.saturating_add(1);
        self.scroll_offset = if next < self.max_scroll { next } else { self.max_scroll };
    }

    pub fn scroll_up(&mut self)
        ensures
            final(self)@ == old(self)@.scroll_up_by(1),
            final(self).same_content(old(self)),
    {
        self.scroll_offset = self.scroll_offset.saturating_sub(1);
    }

    pub fn page_down(&mut self)
        ensures
            final(self)@ == old(self)@.scroll_down_by(10),
            final(self).same_content(old(self)),
    {
        let next = self.scroll_offset.saturating_add(10);
        self.scroll_offset = if next < self.max_scroll { next } else { self.max_scroll };
    }

    pub fn page_up(&mut self)
        ensures
            final(self)@ == old(self)@.scroll_up_by(10),
            final(self).same_content(old(self)),
    {
        self.scroll_offset = self.scroll_offset.saturating_sub(10);
    }

    pub fn scroll_to_top(&mut self)
        ensures
            final(self)@ == old(self)@.scroll_to(0),
            final(self).same_content(old(self)),
    {
        self.scroll_offset = 0;
    }

    /// Scrolls past the end; drawing clamps the offset to the last page.
    pub fn scroll_to_bottom(&mut self)
        ensures
            final(self)@ == old(self)@.scroll_to(usize::MAX as int),
            final(self).same_content(old(self)),
    {
        self.scroll_offset = usize::MAX;
    }

    pub fn expand_current(&mut self)
        ensures
            final(self)@ == old(self)@.expand(),
            final(self).same_content(old(self)),
    {
        let offset = self.scroll_offset;
        let mut found = false;
        let mut i: usize = 0;
        while i < self.expanded_nodes.len()
            invariant
                i <= self.expanded_nodes.len(),
                found <==> exists|j: int| 0 <= j < i && self.expanded_nodes@[j] == offset,
            decreases self.expanded_nodes.len() - i,
        {
            if self.expanded_nodes[i] == offset {
                found = true;
            }
            i = i + 1;
        }
        if !found {
            self.expanded_nodes.push(offset);
        }
    }

    pub fn collapse_current(&mut self)
        ensures
            final(self)@ == old(self)@.collapse(),
            final(self).same_content(old(self)),
    {
        let offset = self.scroll_offset;
        let ghost before = self.expanded_nodes@;
        let mut kept: Vec<usize> = Vec::new();
        let mut i: usize = 0;
        while i < self.expanded_nodes.len()
            invariant
                i <= self.expanded_nodes.len(),
                self.expanded_nodes@ == before,
                kept@ == before.take(i as int).filter(|x: usize| x != offset),
            decreases self.expanded_nodes.len() - i,
        {
            let x = self.expanded_nodes[i];
            proof {
                reveal_with_fuel(Seq::filter, 1);
                assert(before.take(i + 1).drop_last() =~= before.take(i as int));
            }
            if x != offset {
                kept.push(x);
            }
            i = i + 1;
        }
        assert(before.take(before.len() as int) =~= before);
        self.expanded_nodes = kept;
    }

    /// Applies a key event.
    pub fn handle_key_event(&mut self, key: KeyInput)
        ensures
            final(self)@ == after_key(old(self)@, key),
            final(self).same_content(old(self)),
    {
        if key.phase != KeyPhase::Press {
            return;
        }
        let quit_key = match key.key {
            Key::Char(c) => c == 'q',
            Key::Esc => true,
            _ => false,
        };
        if quit_key && key.modifiers == 0 {
            self.quit();
            return;
        }
        match key.key {
            Key::Char(c) => {
                if c == '1' {
                    self.set_view(ViewMode::Structure);
                } else if c == '2' {
                    self.set_view(ViewMode::Schema);
                } else if c == '3' {
                    self.set_view(ViewMode::Metadata);
                } else if c == '4' {
                    self.set_view(ViewMode::Stats);
                } else if c == 'j' {
                    self.scroll_down();
                } else if c == 'k' {
                    self.scroll_up();
                } else if c == 'l' {
                    self.expand_current();
                } else if c == 'h' {
                    self.collapse_current();
                }
            },
            Key::Tab | Key::Right => self.next_tab(),
            Key::BackTab | Key::Left => self.previous_tab(),
            Key::Down => self.scroll_down(),
            Key::Up => self.scroll_up(),
            Key::PageDown => self.page_down(),
            Key::PageUp => self.page_up(),
            Key::Home => self.scroll_to_top(),
            Key::End => self.scroll_to_bottom(),
            _ => {},
        }
    }

    /// Applies a mouse event: only the wheel does anything.
    pub fn handle_mouse_event(&mut self, mouse: MouseKind)
        ensures
            final(self)@ == after_mouse(old(self)@, mouse),
            final(self).same_content(old(self)),
    {
        match mouse {
            MouseKind::ScrollDown => self.scroll_down(),
            MouseKind::ScrollUp => self.scroll_up(),
            MouseKind::Other => {},
        }
    }

    /// Applies a terminal event; a resize only asks for a redraw.
    pub fn handle_event(&mut self, event: InputEvent)
        ensures
            final(self)@ == after_event(old(self)@, event),
            final(self).same_content(old(self)),
    {
        match event {
            InputEvent::Key(k) => self.handle_key_event(k),
            InputEvent::Mouse(m) => self.handle_mouse_event(m),
            _ => {},
        }
    }
}

/// Scrolling down never goes past the last page that drawing allowed.
pub proof fn lemma_scroll_down_bounded(s: AppState, n: int)
    requires
        s.wf(),
        n >= 0,
    ensures
        s.scroll_down_by(n).scroll_offset <= s.max_scroll,
        s.scroll_down_by(n).wf(),
        s.scroll_up_by(n).wf(),
{
}

/// Scrolling up undoes scrolling down when the page below was within reach.
pub proof fn lemma_scroll_down_then_up(s: AppState, n: int)
    requires
        s.wf(),
        n >= 0,
        s.scroll_offset + n <= s.max_scroll,
    ensures
        s.scroll_down_by(n).scroll_up_by(n) == s,
{
}

/// Expanding records the current offset once; collapsing forgets it; both keep
/// the record free of repeats, and collapsing right after expanding a node that
/// was not expanded restores the record.
pub proof fn lemma_expand_collapse(s: AppState)
    requires
        s.wf(),
    ensures
        s.expand().wf(),
        s.collapse().wf(),
        s.expand().expanded_nodes.to_set() == s.expanded_nodes.to_set().insert(s.scroll_offset as usize),
        s.collapse().expanded_nodes.to_set() == s.expanded_nodes.to_set().remove(s.scroll_offset as usize),
        !s.expanded_nodes.contains(s.scroll_offset as usize) ==> s.expand().collapse() == s,
{
    let o = s.scroll_offset as usize;
    let e = s.expanded_nodes;
    if !e.contains(o) {
        e.lemma_push_to_set_commute(o);
        lemma_push_no_duplicates(e, o);
        assert(e.push(o).filter(|x: usize| x != s.scroll_offset) == e.filter(|x: usize| x != s.scroll_offset)) by {
            reveal_with_fuel(Seq::filter, 1);
            assert(e.push(o).drop_last() =~= e);
        }
        lemma_filter_keeps_all(e, s.scroll_offset);
        assert(s.expand().collapse() =~= s);
    } else {
        assert(e.to_set().insert(o) =~= e.to_set());
    }
    lemma_filter_removes(e, s.scroll_offset);
}

/// Appending a value that does not occur keeps a sequence free of repeats.
proof fn lemma_push_no_duplicates(e: Seq<usize>, o: usize)
    requires
        e.no_duplicates(),
        !e.contains(o),
    ensures
        e.push(o).no_duplicates(),
{
    let p = e.push(o);
    assert forall|i: int, j: int| 0 <= i < p.len() && 0 <= j < p.len() && i != j
        implies p[i] != p[j] by {
        if i == e.len() as int {
            assert(e[j] == p[j]);
        } else if j == e.len() as int {
            assert(e[i] == p[i]);
        } else {
            assert(e[i] == p[i] && e[j] == p[j]);
        }
    }
}

/// Filtering out a value that does not occur leaves a sequence unchanged.
proof fn lemma_filter_keeps_all(e: Seq<usize>, o: int)
    requires
        forall|i: int| 0 <= i < e.len() ==> e[i] != o,
    ensures
        e.filter(|x: usize| x != o) == e,
    decreases e.len(),
{
    reveal_with_fuel(Seq::filter, 1);
    if e.len() > 0 {
        lemma_filter_keeps_all(e.drop_last(), o);
        assert(e.drop_last().push(e.last()) =~= e);
    } else {
        assert(e.filter(|x: usize| x != o) =~= e);
    }
}

/// Filtering out a value keeps a sequence free of repeats, and leaves the other
/// values.
proof fn lemma_filter_removes(e: Seq<usize>, o: int)
    requires
        e.no_duplicates(),
        0 <= o <= usize::MAX,
    ensures
        e.filter(|x: usize| x != o).no_duplicates(),
        e.filter(|x: usize| x != o).to_set() == e.to_set().remove(o as usize),
    decreases e.len(),
{
    let f = e.filter(|x: usize| x != o);
    reveal_with_fuel(Seq::filter, 1);
    if e.len() > 0 {
        let d = e.drop_last();
        let last = e.last();
        assert(d.no_duplicates());
        lemma_filter_removes(d, o);
        let fd = d.filter(|x: usize| x != o);
        assert(d.push(last) =~= e);
        d.lemma_push_to_set_commute(last);
        assert(!d.contains(last)) by {
            if d.contains(last) {
                let k = choose|k: int| 0 <= k < d.len() && d[k] == last;
                assert(e[k] == e[e.len() - 1]);
            }
        }
        if last != o {
            assert(f == fd.push(last));
            fd.lemma_push_to_set_commute(last);
            assert(!fd.contains(last)) by {
                if fd.contains(last) {
                    assert(fd.to_set().contains(last));
                    assert(d.to_set().contains(last));
                }
            }
            lemma_push_no_duplicates(fd, last);
            assert(f.to_set() =~= e.to_set().remove(o as usize));
        } else {
            assert(f == fd);
            assert(f.to_set() =~= e.to_set().remove(o as usize));
        }
    } else {
        assert(f =~= e);
        assert(f.to_set() =~= e.to_set().remove(o as usize));
    }
}

/// Every event keeps the state well formed, and once the viewer has been asked
/// to quit no event takes that back.
pub proof fn lemma_events_keep_state(s: AppState, event: InputEvent)
    requires
        s.wf(),
    ensures
        after_event(s, event).wf(),
        s.should_quit ==> after_event(s, event).should_quit,
        after_event(s, event).max_scroll == s.max_scroll,
{
    lemma_expand_collapse(s);
}

/// Only key presses act; a digit from 1 to 4 shows the tab at that position,
/// and `q` or Esc without modifiers quits.
pub proof fn lemma_key_meanings(s: AppState, key: KeyInput)
    ensures
        key.phase != KeyPhase::Press ==> after_key(s, key) == s,
        key.phase == KeyPhase::Press && key.modifiers == 0 && (key.key == Key::Char('q') || key.key == Key::Esc)
            ==> after_key(s, key) == s.quit(),
        key.phase == KeyPhase::Press ==> (forall|d: int| 1 <= d <= 4 && key.key == Key::Char(digit_char(d))
            ==> #[trigger] after_key(s, key).current_view == view_at(d - 1) && after_key(s, key).scroll_offset == 0),
{
}

/// The next tab is the one at the following position, wrapping after the
/// fourth; the previous tab the one at the preceding position, wrapping before
/// the first.
pub proof fn lemma_tab_positions(v: ViewMode)
    ensures
        view_position(view_after(v)) == if view_position(v) == 3 { 0 } else { view_position(v) + 1 },
        view_position(view_before(v)) == if view_position(v) == 0 { 3 } else { view_position(v) - 1 },
        view_title(ViewMode::Structure) == "Structure"@,
        view_title(ViewMode::Schema) == "Schema"@,
        view_title(ViewMode::Metadata) == "Metadata"@,
        view_title(ViewMode::Stats) == "Stats"@,
        view_position(ViewMode::Structure) == 0 && view_position(ViewMode::Schema) == 1,
        view_position(ViewMode::Metadata) == 2 && view_position(ViewMode::Stats) == 3,
        forall|i: int| (i < 0 || i > 3) ==> #[trigger] view_at(i) == ViewMode::Structure,
{
}

/// What each key press does, in terms of the state's fields: arrows and `j`/`k`
/// move one line, page keys ten, both within `0..=max_scroll`; Home goes to the
/// top and End past the bottom; Tab and Right show the next tab, BackTab and
/// Left the previous one, both from the top; `l` records the current line as
/// expanded and `h` forgets it; nothing else changes.
pub proof fn lemma_key_effects(s: AppState, key: KeyInput)
    requires
        s.wf(),
        key.phase == KeyPhase::Press,
    ensures
        ({
            let t = after_key(s, key);
            let o = s.scroll_offset;
            let m = s.max_scroll;
            &&& (key.key == Key::Down || key.key == Key::Char('j')) ==>
                t == AppState { scroll_offset: if o + 1 <= m { o + 1 } else { m }, ..s }
            &&& (key.key == Key::Up || key.key == Key::Char('k')) ==>
                t == AppState { scroll_offset: if o >= 1 { o - 1 } else { 0 }, ..s }
            &&& key.key == Key::PageDown ==>
                t == AppState { scroll_offset: if o + 10 <= m { o + 10 } else { m }, ..s }
            &&& key.key == Key::PageUp ==>
                t == AppState { scroll_offset: if o >= 10 { o - 10 } else { 0 }, ..s }
            &&& key.key == Key::Home ==> t == AppState { scroll_offset: 0, ..s }
            &&& key.key == Key::End ==> t == AppState { scroll_offset: usize::MAX as int, ..s }
            &&& (key.key == Key::Tab || key.key == Key::Right) ==> t == AppState {
                current_view: view_at(if view_position(s.current_view) == 3 { 0 } else { view_position(s.current_view) + 1 }),
                scroll_offset: 0,
                ..s
            }
            &&& (key.key == Key::BackTab || key.key == Key::Left) ==> t == AppState {
                current_view: view_at(if view_position(s.current_view) == 0 { 3 } else { view_position(s.current_view) - 1 }),
                scroll_offset: 0,
                ..s
            }
            &&& key.key == Key::Char('l') ==> t.expanded_nodes.to_set() == s.expanded_nodes.to_set().insert(o as usize)
                && t.scroll_offset == o && t.current_view == s.current_view
            &&& key.key == Key::Char('h') ==> t.expanded_nodes.to_set() == s.expanded_nodes.to_set().remove(o as usize)
                && t.scroll_offset == o && t.current_view == s.current_view
            &&& t.max_scroll == m
            &&& (key.key == Key::Other || key.key == Key::Char('x')) ==> t == s
        }),
{
    lemma_expand_collapse(s);
}

/// The mouse wheel moves one line, within `0..=max_scroll`.
pub proof fn lemma_mouse_effects(s: AppState)
    requires
        s.wf(),
    ensures
        after_mouse(s, MouseKind::ScrollDown) == (AppState {
            scroll_offset: if s.scroll_offset + 1 <= s.max_scroll { s.scroll_offset + 1 } else { s.max_scroll },
            ..s
        }),
        after_mouse(s, MouseKind::ScrollUp) == (AppState {
            scroll_offset: if s.scroll_offset >= 1 { s.scroll_offset - 1 } else { 0 },
            ..s
        }),
        after_mouse(s, MouseKind::Other) == s,
{
}

} // verus!
