//! The state of the browser and what each key does to it.
use vstd::prelude::*;
use crate::item::ItemType;
use crate::query::{
    QueryCommand, classify_query, is_deletion, item_type_from_word, spec_command,
    spec_command_ascii, spec_parse_ascii_item_type, spec_parse_item_type,
};
use crate::scrap_yard::ScrapYard;
use crate::text::{
    clear_string, lemma_ascii_lower_ascii, lemma_trimmed_ascii, pop_char, push_char, to_lower,
    trim_str, trimmed,
};
use vstd::utf8::is_ascii_chars;
use crate::trash::TrashItem;

verus! {

/// Whether keys go to the list (`Normal`) or to the query box (`Query`).
#[derive(Debug, Clone, Copy, PartialEq, Eq, Structural)]
pub enum InputMode {
    Normal,
    Query,
}

/// A key that the user pressed.
#[derive(Debug, Clone, Copy, PartialEq, Eq, Structural)]
pub enum KeyInput {
    Char(char),
    Esc,
    Enter,
    Backspace,
    Tab,
    BackTab,
    Left,
    Right,
    Up,
    Down,
    Other,
}

/// The tabs, in the order in which they are shown.
pub open spec fn spec_tabs() -> Seq<ItemType> {
    seq![
        ItemType::Folder,
        ItemType::Code,
        ItemType::Document,
        ItemType::Image,
        ItemType::Video,
        ItemType::Audio,
        ItemType::Archive,
        ItemType::Other,
    ]
}

/// The selection of a list of `count` items once it is reset: the first
/// item, or nothing in an empty list.
pub open spec fn reset_selection_of(count: int) -> Option<usize> {
    if count == 0 {
        None
    } else {
        Some(0)
    }
}

/// The row of tabs: the eight tabs in their order, and which one is current.
struct TabBar {
    tabs: Vec<ItemType>,
    current: usize,
}

impl TabBar {
    #[verifier::type_invariant]
    spec fn fixed_tabs(self) -> bool {
        &&& self.tabs@ == spec_tabs()
        &&& self.current < 8
    }

    fn new() -> (r: TabBar)
        ensures
            r.tabs@ == spec_tabs(),
            r.current == 0,
    {
        let tabs = vec![
            ItemType::Folder,
            ItemType::Code,
            ItemType::Document,
            ItemType::Image,
            ItemType::Video,
            ItemType::Audio,
            ItemType::Archive,
            ItemType::Other,
        ];
        TabBar { tabs, current: 0 }
    }

    fn current_type(&self) -> (r: &ItemType)
        ensures
            *r == spec_tabs()[self.current as int],
            self.tabs@ == spec_tabs(),
            self.current < 8,
    {
        proof {
            use_type_invariant(self);
        }
        &self.tabs[self.current]
    }

    fn next(&mut self)
        ensures
            final(self).tabs@ == spec_tabs(),
            final(self).current == (old(self).current + 1) % 8,
    {
        proof {
            use_type_invariant(&*self);
        }
        self.current = (self.current + 1) % self.tabs.len();
    }

    fn prev(&mut self)
        ensures
            final(self).tabs@ == spec_tabs(),
            final(self).current == if old(self).current == 0 {
                7
            } else {
                old(self).current - 1
            },
    {
        proof {
            use_type_invariant(&*self);
        }
        self.current = if self.current == 0 {
            self.tabs.len() - 1
        } else {
            self.current - 1
        };
    }
}

/// The state of the browser.
pub struct App {
    scrap_yard: ScrapYard,
    selected: Option<usize>,
    tab_bar: TabBar,
    query: String,
    query_command: QueryCommand,
    input_mode: InputMode,
    should_quit: bool,
    scroll_position: usize,
}

impl App {
    /// The tabs that the browser shows, in order.
    pub closed spec fn tab_list(self) -> Seq<ItemType> {
        self.tab_bar.tabs@
    }

    /// The browser shows the eight tabs in their order, and the current tab
    /// is one of them.
    pub open spec fn wf(self) -> bool {
        &&& self.tab_list() == spec_tabs()
        &&& 0 <= self.tab() < 8
    }

    /// The content of the Trash.
    pub closed spec fn yard(self) -> ScrapYard {
        self.scrap_yard
    }

    /// The place of the selected item in the list of the current tab.
    pub closed spec fn selection(self) -> Option<usize> {
        self.selected
    }

    /// The place of the current tab among `spec_tabs()`.
    pub closed spec fn tab(self) -> int {
        self.tab_bar.current as int
    }

    /// The text typed in the query box.
    pub closed spec fn query_text(self) -> Seq<char> {
        self.query@
    }

    /// The command that the query box holds.
    pub closed spec fn command(self) -> QueryCommand {
        self.query_command
    }

    /// Where keys go.
    pub closed spec fn mode(self) -> InputMode {
        self.input_mode
    }

    /// Whether the user asked to leave.
    pub closed spec fn quitting(self) -> bool {
        self.should_quit
    }

    /// Where the scroll bar of the list stands.
    pub closed spec fn scroll(self) -> usize {
        self.scroll_position
    }

    /// The kind of the current tab.
    pub open spec fn current_kind(self) -> ItemType {
        spec_tabs()[self.tab()]
    }

    /// The number of items in the current tab.
    pub open spec fn count(self) -> int {
        self.yard().items_of(self.current_kind()).len() as int
    }

    /// The selection points into the list of the current tab, or at nothing.
    pub open spec fn selection_in_range(self) -> bool {
        match self.selection() {
            Some(i) => i < self.count(),
            None => true,
        }
    }

    /// The command in the query box is the one that its text stands for.
    pub open spec fn command_matches_query(self) -> bool {
        self.command() == spec_command(self.query_text())
    }
}

/// `b` shows the same list as `a`, with the same selection.
pub open spec fn same_list(a: App, b: App) -> bool {
    &&& b.yard() == a.yard()
    &&& b.tab() == a.tab()
    &&& b.selection() == a.selection()
    &&& b.scroll() == a.scroll()
}

/// `b` has the same query box as `a`.
pub open spec fn same_query(a: App, b: App) -> bool {
    &&& b.query_text() == a.query_text()
    &&& b.command() == a.command()
    &&& b.mode() == a.mode()
}

/// `b` is `a` unchanged.
pub open spec fn same_state(a: App, b: App) -> bool {
    same_list(a, b) && same_query(a, b) && b.quitting() == a.quitting()
}

/// Keys now go to the query box.
pub open spec fn enter_query_step(a: App, b: App) -> bool {
    &&& same_list(a, b)
    &&& b.query_text() == a.query_text()
    &&& b.command() == a.command()
    &&& b.mode() == InputMode::Query
    &&& b.quitting() == a.quitting()
}

/// Keys go back to the list, and the query box is emptied.
pub open spec fn exit_query_step(a: App, b: App) -> bool {
    &&& same_list(a, b)
    &&& b.query_text().len() == 0
    &&& b.command() == QueryCommand::Empty
    &&& b.mode() == InputMode::Normal
    &&& b.quitting() == a.quitting()
}

/// A character is typed at the end of the query, and the command follows.
pub open spec fn query_push_step(a: App, b: App, c: char) -> bool {
    &&& same_list(a, b)
    &&& b.query_text() == a.query_text().push(c)
    &&& b.command() == spec_command(b.query_text())
    &&& is_ascii_chars(b.query_text()) ==> b.command() == spec_command_ascii(b.query_text())
    &&& b.mode() == a.mode()
    &&& b.quitting() == a.quitting()
}

/// The last character of the query, if any, is erased, and the command
/// follows.
pub open spec fn query_pop_step(a: App, b: App) -> bool {
    &&& same_list(a, b)
    &&& b.query_text() == (if a.query_text().len() == 0 {
        a.query_text()
    } else {
        a.query_text().drop_last()
    })
    &&& b.command() == spec_command(b.query_text())
    &&& is_ascii_chars(b.query_text()) ==> b.command() == spec_command_ascii(b.query_text())
    &&& b.mode() == a.mode()
    &&& b.quitting() == a.quitting()
}

/// The tab at place `tab` becomes the current one, with its selection reset.
pub open spec fn switch_tab_step(a: App, b: App, tab: int) -> bool {
    &&& b.yard() == a.yard()
    &&& b.tab() == tab
    &&& b.selection() == reset_selection_of(b.count())
    &&& b.scroll() == 0
    &&& same_query(a, b)
    &&& b.quitting() == a.quitting()
}

/// The tab after the current one becomes current; after the last comes the
/// first.
pub open spec fn next_tab_step(a: App, b: App) -> bool {
    switch_tab_step(a, b, (a.tab() + 1) % 8)
}

/// The tab before the current one becomes current; before the first comes
/// the last.
pub open spec fn prev_tab_step(a: App, b: App) -> bool {
    switch_tab_step(a, b, if a.tab() == 0 { 7 } else { a.tab() - 1 })
}

/// The selection moves to `i`, and the scroll bar with it.
pub open spec fn select_step(a: App, b: App, i: int) -> bool {
    &&& b.yard() == a.yard()
    &&& b.tab() == a.tab()
    &&& b.selection() == Some(i as usize)
    &&& b.scroll() == i
    &&& same_query(a, b)
    &&& b.quitting() == a.quitting()
}

/// The selection moves down one item; after the last item comes the first,
/// and with nothing selected the first item is selected. An empty list is
/// left as it is.
pub open spec fn next_item_step(a: App, b: App) -> bool {
    if a.count() == 0 {
        same_state(a, b)
    } else {
        select_step(
            a,
            b,
            match a.selection() {
                Some(i) => if i >= a.count() - 1 { 0 } else { i + 1 },
                None => 0,
            },
        )
    }
}

/// The selection moves up one item; before the first item comes the last,
/// and with nothing selected the first item is selected. An empty list is
/// left as it is.
pub open spec fn prev_item_step(a: App, b: App) -> bool {
    if a.count() == 0 {
        same_state(a, b)
    } else {
        select_step(
            a,
            b,
            match a.selection() {
                Some(i) => if i == 0 { a.count() - 1 } else { i - 1 },
                None => 0,
            },
        )
    }
}

/// The user asks to leave.
pub open spec fn quit_step(a: App, b: App) -> bool {
    same_list(a, b) && same_query(a, b) && b.quitting()
}

/// The command of the query box is carried out, and the query box is left:
/// `delete all` takes every item out and hands them back, `delete <type>`
/// takes out and hands back the items of that kind, any other command
/// changes nothing. After a deletion the selection is reset.
pub open spec fn run_query_step(a: App, b: App, removed: Seq<TrashItem>) -> bool {
    &&& b.tab() == a.tab()
    &&& b.query_text().len() == 0
    &&& b.command() == QueryCommand::Empty
    &&& b.mode() == InputMode::Normal
    &&& b.quitting() == a.quitting()
    &&& match a.command() {
        QueryCommand::DeleteAll => {
            &&& forall|t: ItemType| b.yard().items_of(t).len() == 0
            &&& removed == a.yard().all_items()
            &&& b.selection() == reset_selection_of(b.count())
            &&& b.scroll() == 0
        },
        QueryCommand::DeleteByType(t) => {
            &&& b.yard().items_of(t).len() == 0
            &&& forall|u: ItemType| u != t ==> b.yard().items_of(u) == a.yard().items_of(u)
            &&& removed == a.yard().items_of(t)
            &&& b.selection() == reset_selection_of(b.count())
            &&& b.scroll() == 0
        },
        _ => {
            &&& b.yard() == a.yard()
            &&& b.selection() == a.selection()
            &&& b.scroll() == a.scroll()
            &&& removed.len() == 0
        },
    }
}

/// What a key does. In the query box: Esc leaves it, Enter runs a command
/// that asks for a deletion (and does nothing otherwise), Backspace erases,
/// and a character is typed. In the list: `q` or Esc quits, `/` opens the
/// query box, Tab and Right go to the next tab, BackTab and Left to the
/// previous one, Down and Up move the selection. Other keys do nothing.
/// `removed` is what a deletion took out.
pub open spec fn handle_key_step(a: App, b: App, key: KeyInput, removed: Seq<TrashItem>) -> bool {
    match a.mode() {
        InputMode::Query => match key {
            KeyInput::Esc => exit_query_step(a, b) && removed.len() == 0,
            KeyInput::Enter => if is_deletion(a.command()) {
                run_query_step(a, b, removed)
            } else {
                same_state(a, b) && removed.len() == 0
            },
            KeyInput::Backspace => query_pop_step(a, b) && removed.len() == 0,
            KeyInput::Char(c) => query_push_step(a, b, c) && removed.len() == 0,
            _ => same_state(a, b) && removed.len() == 0,
        },
        InputMode::Normal => removed.len() == 0 && match key {
            KeyInput::Char('q') | KeyInput::Esc => quit_step(a, b),
            KeyInput::Char('/') => enter_query_step(a, b),
            KeyInput::Tab | KeyInput::Right => next_tab_step(a, b),
            KeyInput::BackTab | KeyInput::Left => prev_tab_step(a, b),
            KeyInput::Down => next_item_step(a, b),
            KeyInput::Up => prev_item_step(a, b),
            _ => same_state(a, b),
        },
    }
}

/// A tab as the header shows it.
#[derive(Debug, Clone, Copy, PartialEq, Eq, Structural)]
pub struct HeaderTab {
    pub index: usize,
    pub item_type: ItemType,
    pub count: usize,
    pub selected: bool,
}

/// How the query line marks its command: no mark for an empty box, a
/// "ready" mark for a command that can be run, a warning for any other.
#[derive(Debug, Clone, Copy, PartialEq, Eq, Structural)]
pub enum QueryStatus {
    NoCommand,
    Runnable,
    Invalid,
}

/// The mark of a command.
pub open spec fn spec_query_status(c: QueryCommand) -> QueryStatus {
    match c {
        QueryCommand::Empty => QueryStatus::NoCommand,
        QueryCommand::DeleteAll => QueryStatus::Runnable,
        QueryCommand::DeleteByType(_) => QueryStatus::Runnable,
        QueryCommand::Invalid => QueryStatus::Invalid,
    }
}

/// The tabs among the first `n` that the header shows: those that hold items,
/// in order, with the current one marked. A tab with no items is not shown,
/// even when it is the current one.
pub open spec fn spec_header_tabs(a: App, n: int) -> Seq<HeaderTab>
    decreases n,
{
    if n <= 0 {
        Seq::empty()
    } else {
        let before = spec_header_tabs(a, n - 1);
        let t = spec_tabs()[n - 1];
        let count = a.yard().items_of(t).len();
        if count == 0 {
            before
        } else {
            before.push(
                HeaderTab {
                    index: (n - 1) as usize,
                    item_type: t,
                    count: count as usize,
                    selected: n - 1 == a.tab(),
                },
            )
        }
    }
}

impl App {
    /// A browser over the given content: on the first tab, with its first
    /// item selected, and an empty query box.
    pub fn new(scrap_yard: ScrapYard) -> (r: App)
        ensures
            r.wf(),
            r.yard() == scrap_yard,
            r.tab() == 0,
            r.selection() == reset_selection_of(r.count()),
            r.count() > 0 ==> r.selection() == Some(0usize),
            r.count() == 0 ==> r.selection() is None,
            r.scroll() == 0,
            r.query_text().len() == 0,
            r.command() == QueryCommand::Empty,
            r.mode() == InputMode::Normal,
            !r.quitting(),
    {
        let mut app = App {
            scrap_yard,
            selected: None,
            tab_bar: TabBar::new(),
            query: String::new(),
            query_command: QueryCommand::Empty,
            input_mode: InputMode::Normal,
            should_quit: false,
            scroll_position: 0,
        };
        app.reset_selection();
        app
    }

    pub fn enter_query_mode(&mut self)
        ensures
            final(self).wf(),
            enter_query_step(*old(self), *final(self)),
    {
        proof {
            use_type_invariant(&self.tab_bar);
        }
        self.input_mode = InputMode::Query;
    }

    pub fn exit_query_mode(&mut self)
        ensures
            final(self).wf(),
            exit_query_step(*old(self), *final(self)),
    {
        proof {
            use_type_invariant(&self.tab_bar);
        }
        self.input_mode = InputMode::Normal;
        clear_string(&mut self.query);
        self.query_command = QueryCommand::Empty;
    }

    pub fn query_push(&mut self, c: char)
        ensures
            final(self).wf(),
            query_push_step(*old(self), *final(self), c),
    {
        proof {
            use_type_invariant(&self.tab_bar);
        }
        push_char(&mut self.query, c);
        self.validate_query();
    }

    pub fn query_pop(&mut self)
        ensures
            final(self).wf(),
            query_pop_step(*old(self), *final(self)),
    {
        proof {
            use_type_invariant(&self.tab_bar);
        }
        pop_char(&mut self.query);
        self.validate_query();
    }

    /// Sets the command to the one that the text of the query box stands for.
    fn validate_query(&mut self)
        ensures
            final(self).wf(),
            same_list(*old(self), *final(self)),
            final(self).query_text() == old(self).query_text(),
            final(self).command() == spec_command(final(self).query_text()),
            is_ascii_chars(final(self).query_text()) ==> final(self).command() == spec_command_ascii(
                final(self).query_text(),
            ),
            final(self).mode() == old(self).mode(),
            final(self).quitting() == old(self).quitting(),
    {
        proof {
            use_type_invariant(&self.tab_bar);
        }
        proof {
            if is_ascii_chars(self.query@) {
                lemma_trimmed_ascii(self.query@);
                lemma_ascii_lower_ascii(trimmed(self.query@));
            }
        }
        let q = to_lower(trim_str(self.query.as_str()));
        self.query_command = classify_query(q.as_str());
    }

    /// The kind that a word names, whatever its case and surrounding
    /// whitespace.
    pub fn parse_item_type(s: &str) -> (r: Option<ItemType>)
        ensures
            r == spec_parse_item_type(s@),
            is_ascii_chars(s@) ==> r == spec_parse_ascii_item_type(s@),
    {
        proof {
            if is_ascii_chars(s@) {
                lemma_trimmed_ascii(s@);
            }
        }
        let w = to_lower(trim_str(s));
        item_type_from_word(w.as_str())
    }

    pub fn is_query_valid(&self) -> (r: bool)
        ensures
            r == is_deletion(self.command()),
    {
        match self.query_command {
            QueryCommand::DeleteAll | QueryCommand::DeleteByType(_) => true,
            _ => false,
        }
    }

    /// Carries out the command of the query box and leaves the query box;
    /// hands back the items that a deletion took out, so that they can be
    /// removed from the disk.
    pub fn run_query(&mut self) -> (removed: Vec<TrashItem>)
        ensures
            final(self).wf(),
            run_query_step(*old(self), *final(self), removed@),
    {
        proof {
            use_type_invariant(&self.tab_bar);
        }
        let removed = match self.query_command {
            QueryCommand::DeleteAll => {
                let r = self.scrap_yard.delete_all();
                self.reset_selection();
                r
            },
            QueryCommand::DeleteByType(item_type) => {
                let r = self.scrap_yard.delete_by_type(&item_type);
                self.reset_selection();
                r
            },
            _ => Vec::new(),
        };
        self.exit_query_mode();
        removed
    }

    pub fn current_item_type(&self) -> (r: &ItemType)
        ensures
            *r == self.current_kind(),
    {
        self.tab_bar.current_type()
    }

    pub fn current_items_count(&self) -> (r: usize)
        ensures
            r == self.count(),
    {
        self.scrap_yard.get_type_count(self.current_item_type())
    }

    /// The item at a place of the list of the current tab, if the list is
    /// that long.
    pub fn get_item_at(&self, index: usize) -> (r: Option<&TrashItem>)
        ensures
            r == (if index < self.count() {
                Some(&self.yard().items_of(self.current_kind())[index as int])
            } else {
                None
            }),
    {
        self.scrap_yard.get_item_at(self.current_item_type(), index)
    }

    /// The selected item, if any.
    pub fn get_selected_item(&self) -> (r: Option<&TrashItem>)
        ensures
            r == (match self.selection() {
                Some(i) => if i < self.count() {
                    Some(&self.yard().items_of(self.current_kind())[i as int])
                } else {
                    None
                },
                None => None,
            }),
    {
        match self.selected {
            Some(i) => self.get_item_at(i),
            None => None,
        }
    }

    /// Selects the first item of the current tab, if it has any, and puts
    /// the scroll bar at the top.
    fn reset_selection(&mut self)
        ensures
            final(self).wf(),
            final(self).yard() == old(self).yard(),
            final(self).tab() == old(self).tab(),
            final(self).selection() == reset_selection_of(final(self).count()),
            final(self).scroll() == 0,
            same_query(*old(self), *final(self)),
            final(self).quitting() == old(self).quitting(),
    {
        proof {
            use_type_invariant(&self.tab_bar);
        }
        let count = self.current_items_count();
        self.selected = if count == 0 {
            None
        } else {
            Some(0)
        };
        self.scroll_position = 0;
    }

    pub fn next_tab(&mut self)
        ensures
            final(self).wf(),
            next_tab_step(*old(self), *final(self)),
    {
        proof {
            use_type_invariant(&self.tab_bar);
        }
        self.tab_bar.next();
        self.reset_selection();
    }

    pub fn prev_tab(&mut self)
        ensures
            final(self).wf(),
            prev_tab_step(*old(self), *final(self)),
    {
        proof {
            use_type_invariant(&self.tab_bar);
        }
        self.tab_bar.prev();
        self.reset_selection();
    }

    pub fn next_item(&mut self)
        ensures
            final(self).wf(),
            next_item_step(*old(self), *final(self)),
    {
        proof {
            use_type_invariant(&self.tab_bar);
        }
        let count = self.current_items_count();
        if count == 0 {
            return;
        }
        let i = match self.selected {
            Some(i) => if i >= count - 1 {
                0
            } else {
                i + 1
            },
            None => 0,
        };
        self.selected = Some(i);
        self.scroll_position = i;
    }

    pub fn prev_item(&mut self)
        ensures
            final(self).wf(),
            prev_item_step(*old(self), *final(self)),
    {
        proof {
            use_type_invariant(&self.tab_bar);
        }
        let count = self.current_items_count();
        if count == 0 {
            return;
        }
        let i = match self.selected {
            Some(i) => if i == 0 {
                count - 1
            } else {
                i - 1
            },
            None => 0,
        };
        self.selected = Some(i);
        self.scroll_position = i;
    }

    /// What a key does (see `handle_key_step`); hands back the items that a
    /// deletion took out, so that they can be removed from the disk.
    pub fn handle_key(&mut self, key: KeyInput) -> (removed: Vec<TrashItem>)
        ensures
            final(self).wf(),
            handle_key_step(*old(self), *final(self), key, removed@),
    {
        proof {
            use_type_invariant(&self.tab_bar);
        }
        match self.input_mode {
            InputMode::Query => match key {
                KeyInput::Esc => self.exit_query_mode(),
                KeyInput::Enter => {
                    if self.is_query_valid() {
                        return self.run_query();
                    }
                },
                KeyInput::Backspace => self.query_pop(),
                KeyInput::Char(c) => self.query_push(c),
                _ => {},
            },
            InputMode::Normal => match key {
                KeyInput::Char('q') | KeyInput::Esc => self.should_quit = true,
                KeyInput::Char('/') => self.enter_query_mode(),
                KeyInput::Tab | KeyInput::Right => self.next_tab(),
                KeyInput::BackTab | KeyInput::Left => self.prev_tab(),
                KeyInput::Down => self.next_item(),
                KeyInput::Up => self.prev_item(),
                _ => {},
            },
        }
        Vec::new()
    }

    /// The tabs that the header shows (see `spec_header_tabs`).
    pub fn header_tabs(&self) -> (r: Vec<HeaderTab>)
        ensures
            r@ == spec_header_tabs(*self, 8),
    {
        proof {
            use_type_invariant(&self.tab_bar);
        }
        let tabs = self.tab_bar.tabs.as_slice();
        let mut r: Vec<HeaderTab> = Vec::new();
        let mut i: usize = 0;
        while i < 8
            invariant
                i <= 8,
                tabs@ == spec_tabs(),
                r@ == spec_header_tabs(*self, i as int),
            decreases 8 - i,
        {
            let count = self.scrap_yard.get_type_count(&tabs[i]);
            if count != 0 {
                r.push(
                    HeaderTab {
                        index: i,
                        item_type: tabs[i],
                        count,
                        selected: i == self.tab_bar.current,
                    },
                );
            }
            i = i + 1;
        }
        r
    }

    /// The mark of the command in the query box.
    pub fn query_status(&self) -> (r: QueryStatus)
        ensures
            r == spec_query_status(self.command()),
    {
        match self.query_command {
            QueryCommand::Empty => QueryStatus::NoCommand,
            QueryCommand::DeleteAll => QueryStatus::Runnable,
            QueryCommand::DeleteByType(_) => QueryStatus::Runnable,
            QueryCommand::Invalid => QueryStatus::Invalid,
        }
    }

    /// Whether the query line shows the hint on what can be typed: while the
    /// query box has the keys and is empty.
    pub fn shows_query_hint(&self) -> (r: bool)
        ensures
            r == (self.query_text().len() == 0 && self.mode() == InputMode::Query),
    {
        self.query.as_str().is_empty() && self.input_mode == InputMode::Query
    }

    pub fn scrap_yard(&self) -> (r: &ScrapYard)
        ensures
            *r == self.yard(),
    {
        &self.scrap_yard
    }

    /// The place of the selected item in the list of the current tab.
    pub fn selected(&self) -> (r: Option<usize>)
        ensures
            r == self.selection(),
    {
        self.selected
    }

    /// The place of the current tab among the tabs.
    pub fn selected_tab(&self) -> (r: usize)
        ensures
            r == self.tab(),
    {
        self.tab_bar.current
    }

    pub fn tabs(&self) -> (r: &[ItemType])
        ensures
            r@ == self.tab_list(),
    {
        self.tab_bar.tabs.as_slice()
    }

    pub fn query(&self) -> (r: &str)
        ensures
            r@ == self.query_text(),
    {
        self.query.as_str()
    }

    pub fn query_command(&self) -> (r: QueryCommand)
        ensures
            r == self.command(),
    {
        self.query_command
    }

    pub fn input_mode(&self) -> (r: InputMode)
        ensures
            r == self.mode(),
    {
        self.input_mode
    }

    pub fn should_quit(&self) -> (r: bool)
        ensures
            r == self.quitting(),
    {
        self.should_quit
    }

    pub fn scroll_position(&self) -> (r: usize)
        ensures
            r == self.scroll(),
    {
        self.scroll_position
    }
}

/// Going to the next tab and back to the previous one returns to the tab one
/// started from, with its selection reset and all else as it was.
pub proof fn law_prev_tab_undoes_next_tab(a: App, b: App, c: App)
    requires
        a.wf(),
        next_tab_step(a, b),
        prev_tab_step(b, c),
    ensures
        c.tab() == a.tab(),
        c.yard() == a.yard(),
        c.selection() == reset_selection_of(a.count()),
        c.scroll() == 0,
        same_query(a, c),
        c.quitting() == a.quitting(),
{
}

/// Going to the previous tab and back to the next one returns to the tab one
/// started from, with its selection reset and all else as it was.
pub proof fn law_next_tab_undoes_prev_tab(a: App, b: App, c: App)
    requires
        a.wf(),
        prev_tab_step(a, b),
        next_tab_step(b, c),
    ensures
        c.tab() == a.tab(),
        c.yard() == a.yard(),
        c.selection() == reset_selection_of(a.count()),
        c.scroll() == 0,
        same_query(a, c),
        c.quitting() == a.quitting(),
{
}

/// Moving the selection down and then up returns to the item one started
/// from, when some item of the list was selected.
pub proof fn law_prev_item_undoes_next_item(a: App, b: App, c: App)
    requires
        a.selection() is Some,
        a.selection_in_range(),
        next_item_step(a, b),
        prev_item_step(b, c),
    ensures
        c.selection() == a.selection(),
        c.scroll() == a.selection().unwrap(),
        c.yard() == a.yard(),
        c.tab() == a.tab(),
        same_query(a, c),
        c.quitting() == a.quitting(),
{
}

/// Moving the selection up and then down returns to the item one started
/// from, when some item of the list was selected.
pub proof fn law_next_item_undoes_prev_item(a: App, b: App, c: App)
    requires
        a.selection() is Some,
        a.selection_in_range(),
        prev_item_step(a, b),
        next_item_step(b, c),
    ensures
        c.selection() == a.selection(),
        c.scroll() == a.selection().unwrap(),
        c.yard() == a.yard(),
        c.tab() == a.tab(),
        same_query(a, c),
        c.quitting() == a.quitting(),
{
}

/// Whatever key is pressed, the selection keeps pointing into the list of the
/// current tab, or at nothing.
pub proof fn law_keys_keep_selection_in_range(
    a: App,
    b: App,
    key: KeyInput,
    removed: Seq<TrashItem>,
)
    requires
        a.wf(),
        a.selection_in_range(),
        handle_key_step(a, b, key, removed),
    ensures
        b.selection_in_range(),
{
}

/// Whatever key is pressed, the command in the query box stays the one that
/// its text stands for.
pub proof fn law_keys_keep_command_in_step(
    a: App,
    b: App,
    key: KeyInput,
    removed: Seq<TrashItem>,
)
    requires
        a.command_matches_query(),
        handle_key_step(a, b, key, removed),
    ensures
        b.command_matches_query(),
{
}

/// Typing a character and erasing it gives back the query box as it was.
pub proof fn law_pop_undoes_push(a: App, b: App, c: App, ch: char)
    requires
        a.command_matches_query(),
        query_push_step(a, b, ch),
        query_pop_step(b, c),
    ensures
        c.query_text() == a.query_text(),
        c.command() == a.command(),
        c.mode() == a.mode(),
        same_list(a, c),
        c.quitting() == a.quitting(),
{
    assert(a.query_text().push(ch).drop_last() =~= a.query_text());
}

/// In the query box no key quits: `q` is typed like any other character.
pub proof fn law_query_box_never_quits(a: App, b: App, key: KeyInput, removed: Seq<TrashItem>)
    requires
        a.mode() == InputMode::Query,
        handle_key_step(a, b, key, removed),
    ensures
        b.quitting() == a.quitting(),
{
}

/// Only a key pressed in the query box can take items out, and only Enter on
/// a command that asks for a deletion.
pub proof fn law_only_enter_on_a_deletion_removes(
    a: App,
    b: App,
    key: KeyInput,
    removed: Seq<TrashItem>,
)
    requires
        handle_key_step(a, b, key, removed),
        !(a.mode() == InputMode::Query && key == KeyInput::Enter && is_deletion(a.command())),
    ensures
        removed.len() == 0,
        b.yard() == a.yard(),
{
}

/// Running `delete <type>` takes out exactly the items of the kind that the
/// command names, whatever tab is current: that kind is left empty, every
/// other kind keeps its items, and the items handed back are the old items of
/// that kind.
pub proof fn law_delete_by_type_removes_the_named_kind(
    a: App,
    b: App,
    removed: Seq<TrashItem>,
    t: ItemType,
)
    requires
        a.command() == QueryCommand::DeleteByType(t),
        run_query_step(a, b, removed),
    ensures
        b.yard().items_of(t).len() == 0,
        forall|u: ItemType| u != t ==> b.yard().items_of(u) == a.yard().items_of(u),
        removed == a.yard().items_of(t),
{
}

/// Running `delete all` leaves every kind empty and hands back every item.
pub proof fn law_delete_all_removes_everything(a: App, b: App, removed: Seq<TrashItem>)
    requires
        a.command() == QueryCommand::DeleteAll,
        run_query_step(a, b, removed),
    ensures
        forall|u: ItemType| b.yard().items_of(u).len() == 0,
        removed == a.yard().all_items(),
{
}

/// In the list, Down selects the next item and Up the previous one: from
/// item `i`, Down gives `i + 1` when there is one, and Up gives `i - 1` when
/// `i` is not the first; the scroll bar follows.
pub proof fn law_down_and_up_move_by_one(
    a: App,
    b: App,
    key: KeyInput,
    removed: Seq<TrashItem>,
    i: usize,
)
    requires
        a.mode() == InputMode::Normal,
        a.selection() == Some(i),
        handle_key_step(a, b, key, removed),
    ensures
        key == KeyInput::Down && i + 1 < a.count() ==> b.selection() == Some((i + 1) as usize)
            && b.scroll() == i + 1,
        key == KeyInput::Up && 0 < i < a.count() ==> b.selection() == Some((i - 1) as usize)
            && b.scroll() == i - 1,
        key == KeyInput::Down || key == KeyInput::Up ==> b.yard() == a.yard() && b.tab()
            == a.tab() && removed.len() == 0,
{
}

/// What the keys do in the list: Tab and Right go to the next tab (after the
/// last comes the first), BackTab and Left to the previous one (before the
/// first comes the last), both selecting the first item of the new tab if it
/// has one; `/` opens the query box as it was; `q` and Esc quit. None of them
/// takes an item out.
pub proof fn law_list_keys(a: App, b: App, key: KeyInput, removed: Seq<TrashItem>)
    requires
        a.wf(),
        a.mode() == InputMode::Normal,
        handle_key_step(a, b, key, removed),
    ensures
        removed.len() == 0,
        b.yard() == a.yard(),
        key == KeyInput::Tab || key == KeyInput::Right ==> b.tab() == (if a.tab() == 7 {
            0
        } else {
            a.tab() + 1
        }),
        key == KeyInput::BackTab || key == KeyInput::Left ==> b.tab() == (if a.tab() == 0 {
            7
        } else {
            a.tab() - 1
        }),
        key == KeyInput::Tab || key == KeyInput::Right || key == KeyInput::BackTab || key
            == KeyInput::Left ==> (b.count() > 0 ==> b.selection() == Some(0usize)) && (b.count()
            == 0 ==> b.selection() is None) && b.scroll() == 0,
        key == KeyInput::Char('/') ==> b.mode() == InputMode::Query && b.query_text()
            == a.query_text() && b.tab() == a.tab() && b.selection() == a.selection(),
        key == KeyInput::Char('q') || key == KeyInput::Esc ==> b.quitting() && b.tab() == a.tab(),
        !(key == KeyInput::Char('q') || key == KeyInput::Esc) ==> b.quitting() == a.quitting(),
{
}

/// In the list, moving past the last item comes back to the first, and
/// moving before the first goes to the last.
pub proof fn law_selection_wraps(a: App, b: App, key: KeyInput, removed: Seq<TrashItem>)
    requires
        a.mode() == InputMode::Normal,
        a.count() > 0,
        handle_key_step(a, b, key, removed),
    ensures
        key == KeyInput::Down && a.selection() is Some && a.selection().unwrap() == a.count() - 1
            ==> b.selection() == Some(0usize),
        key == KeyInput::Up && a.selection() == Some(0usize) ==> b.selection() is Some
            && b.selection().unwrap() == a.count() - 1,
        (key == KeyInput::Down || key == KeyInput::Up) && a.selection() is None ==> b.selection()
            == Some(0usize),
{
}

/// What the keys do in the query box: a character is added at the end of the
/// query, Backspace erases its last character, Esc leaves the box and empties
/// it, and Enter on a query that asks for no deletion changes nothing. Only
/// Enter can take items out.
pub proof fn law_query_box_keys(a: App, b: App, key: KeyInput, removed: Seq<TrashItem>)
    requires
        a.mode() == InputMode::Query,
        handle_key_step(a, b, key, removed),
    ensures
        key != KeyInput::Enter ==> removed.len() == 0 && b.yard() == a.yard(),
        forall|c: char| key == KeyInput::Char(c) ==> b.query_text() == a.query_text().push(c)
            && b.mode() == InputMode::Query,
        key == KeyInput::Backspace && a.query_text().len() > 0 ==> b.query_text()
            == a.query_text().drop_last() && b.mode() == InputMode::Query,
        key == KeyInput::Esc ==> b.query_text().len() == 0 && b.mode() == InputMode::Normal
            && b.command() == QueryCommand::Empty,
        key == KeyInput::Enter && !(a.command() is DeleteAll || a.command() is DeleteByType)
            ==> same_state(a, b) && removed.len() == 0,
        key == KeyInput::Enter && (a.command() is DeleteAll || a.command() is DeleteByType)
            ==> b.mode() == InputMode::Normal && b.query_text().len() == 0,
{
}

} // verus!
