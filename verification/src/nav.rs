//! The navigation model: the screen stack, the two menus, and the key
//! bindings, decided here and carried out by the event loop (which performs
//! the loading and launching that a decision asks for).

use vstd::prelude::*;
use crate::app::{
    HOME_MENU, screen_title, EventFightsState, EventsState, FighterSearchState, Screen, moved_down, moved_up, primary_fighter,
};

verus! {

/// A key, as far as the bindings tell keys apart.
#[derive(Debug, Clone, Copy, PartialEq, Eq, Structural)]
pub enum Key {
    Char(char),
    Up,
    Down,
    Left,
    Right,
    Enter,
    Esc,
    Backspace,
    Home,
    /// Any key no binding uses.
    Other,
}

/// One key event: the key, whether Ctrl was held, and whether it is a press
/// (repeats and releases are ignored).
#[derive(Debug, Clone, Copy, PartialEq, Eq, Structural)]
pub struct KeyPress {
    pub key: Key,
    pub ctrl: bool,
    pub press: bool,
}

/// Where a key event goes first.
#[derive(Debug, Clone, Copy, PartialEq, Eq, Structural)]
pub enum Route {
    /// Not a press: nothing happens.
    Ignore,
    /// Ctrl-C, or `q`: leave the program.
    Quit,
    /// A job overlay is up: only its keys apply (see [`job_key`]).
    JobOverlay,
    /// The Home key: back to the root.
    GoHome,
    /// Esc, or Backspace off a text-entry screen: one level up.
    Pop,
    /// Everything else belongs to the current screen.
    Screen,
}

/// Screens where Backspace edits a query instead of going back.
pub open spec fn text_entry(s: Screen) -> bool {
    s is FighterSearch || s is Predict
}

/// The routing rule: releases are ignored, Ctrl-C always quits, a visible job
/// overlay takes every other key, then `q` quits, Home goes home, Esc goes
/// back, and Backspace goes back except on the text-entry screens.
pub open spec fn route_of(k: KeyPress, current: Screen, job_visible: bool) -> Route {
    if !k.press {
        Route::Ignore
    } else if k.ctrl && k.key == Key::Char('c') {
        Route::Quit
    } else if job_visible {
        Route::JobOverlay
    } else if k.key == Key::Char('q') {
        Route::Quit
    } else if k.key == Key::Home {
        Route::GoHome
    } else if k.key == Key::Esc {
        Route::Pop
    } else if k.key == Key::Backspace && !text_entry(current) {
        Route::Pop
    } else {
        Route::Screen
    }
}

/// Routes one key event for the screen `current`.
pub fn route(k: KeyPress, current: &Screen, job_visible: bool) -> (r: Route)
    ensures
        r == route_of(k, *current, job_visible),
{
    if !k.press {
        return Route::Ignore;
    }
    if k.ctrl && k.key == Key::Char('c') {
        return Route::Quit;
    }
    if job_visible {
        return Route::JobOverlay;
    }
    match k.key {
        Key::Char('q') => Route::Quit,
        Key::Home => Route::GoHome,
        Key::Esc => Route::Pop,
        Key::Backspace => {
            let editing = match current {
                Screen::FighterSearch | Screen::Predict => true,
                _ => false,
            };
            if editing { Route::Screen } else { Route::Pop }
        },
        _ => Route::Screen,
    }
}

/// What a key does while a job overlay is visible.
#[derive(Debug, Clone, Copy, PartialEq, Eq, Structural)]
pub enum JobKeyAction {
    Nothing,
    Quit,
    /// Close the finished job's log.
    Dismiss,
    /// Close the finished job's log and go back to the root.
    DismissAndGoHome,
}

/// The overlay rule: `q` quits; a finished job is closed by Esc or Enter, or
/// by Home, which also goes home; a running job ignores everything else.
pub open spec fn job_key_of(k: Key, finished: bool) -> JobKeyAction {
    if k == Key::Char('q') {
        JobKeyAction::Quit
    } else if finished && k == Key::Home {
        JobKeyAction::DismissAndGoHome
    } else if finished && (k == Key::Esc || k == Key::Enter) {
        JobKeyAction::Dismiss
    } else {
        JobKeyAction::Nothing
    }
}

/// Decides what `k` does over a job overlay.
pub fn job_key(k: Key, finished: bool) -> (a: JobKeyAction)
    ensures
        a == job_key_of(k, finished),
{
    match k {
        Key::Char('q') => JobKeyAction::Quit,
        Key::Home if finished => JobKeyAction::DismissAndGoHome,
        Key::Esc if finished => JobKeyAction::Dismiss,
        Key::Enter if finished => JobKeyAction::Dismiss,
        _ => JobKeyAction::Nothing,
    }
}

/// While a job is running its overlay stays up: only `q` does anything, and
/// `q` quits whatever the job's state. Closing the overlay needs a finished
/// job.
pub proof fn running_job_ignores_all_but_quit(k: Key, finished: bool)
    ensures
        !finished && k != Key::Char('q') ==> job_key_of(k, finished) == JobKeyAction::Nothing,
        k == Key::Char('q') ==> job_key_of(k, finished) == JobKeyAction::Quit,
        (job_key_of(k, finished) == JobKeyAction::Dismiss || job_key_of(k, finished) == JobKeyAction::DismissAndGoHome)
            ==> finished,
{
}

// ------------------------------------------------------------------------- //
// The screen stack and the menus
// ------------------------------------------------------------------------- //

/// The navigation stack with the two menu selections and the quit flag.
#[derive(Debug, Clone)]
pub struct Nav {
    /// Screens from the root; the last one is current.
    pub stack: Vec<Screen>,
    /// Highlighted Home menu entry.
    pub home_selected: usize,
    /// Highlighted Database menu entry.
    pub database_selected: usize,
    /// Set once the user asked to leave.
    pub should_quit: bool,
}

/// Number of Home menu entries.
pub const HOME_ENTRIES: usize = 4;

/// Number of Database menu entries.
pub const DATABASE_ENTRIES: usize = 2;

/// The stack is never empty and its root is Home; each menu highlight is on
/// an entry.
pub open spec fn nav_wf(n: Nav) -> bool {
    &&& n.stack@.len() >= 1
    &&& n.stack@[0] is Home
    &&& n.home_selected < HOME_ENTRIES
    &&& n.database_selected < DATABASE_ENTRIES
}

/// The stack after pushing `s`.
pub open spec fn after_push(stack: Seq<Screen>, s: Screen) -> Seq<Screen> {
    stack.push(s)
}

/// The stack after going back one level; at the root nothing changes.
pub open spec fn after_pop(stack: Seq<Screen>) -> Seq<Screen> {
    if stack.len() > 1 { stack.drop_last() } else { stack }
}

/// The stack after going home: the root alone.
pub open spec fn after_home(stack: Seq<Screen>) -> Seq<Screen> {
    stack.take(1)
}

/// The Database menu highlight after `stack` became current: it resets when
/// the Database screen is (re)entered.
pub open spec fn database_selection_on_entry(stack: Seq<Screen>, old_selected: usize) -> usize {
    if stack.last() is Database { 0 } else { old_selected }
}

/// The screen opened from a Home menu entry.
pub open spec fn home_target(selected: int) -> Screen {
    if selected == 0 {
        Screen::Scrape
    } else if selected == 1 {
        Screen::Database
    } else if selected == 2 {
        Screen::Predict
    } else {
        Screen::Model
    }
}

/// The screen opened from a Database menu entry.
pub open spec fn database_target(selected: int) -> Screen {
    if selected == 0 { Screen::Events } else { Screen::FighterSearch }
}

impl Nav {
    /// A fresh stack holding Home, both menus on their first entry.
    pub fn new() -> (n: Nav)
        ensures
            nav_wf(n),
            n.stack@ == seq![Screen::Home],
            n.home_selected == 0,
            n.database_selected == 0,
            !n.should_quit,
    {
        let mut stack: Vec<Screen> = Vec::new();
        stack.push(Screen::Home);
        Nav { stack, home_selected: 0, database_selected: 0, should_quit: false }
    }

    /// The current (top) screen.
    pub fn current(&self) -> (s: &Screen)
        requires
            nav_wf(*self),
        ensures
            *s == self.stack@.last(),
    {
        let n = self.stack.len();
        &self.stack[n - 1]
    }

    fn enter_current(&mut self)
        requires
            nav_wf(*old(self)),
        ensures
            final(self).stack == old(self).stack,
            final(self).home_selected == old(self).home_selected,
            final(self).should_quit == old(self).should_quit,
            final(self).database_selected == database_selection_on_entry(old(self).stack@, old(self).database_selected),
            nav_wf(*final(self)),
    {
        let is_db = match self.current() {
            Screen::Database => true,
            _ => false,
        };
        if is_db {
            self.database_selected = 0;
        }
    }

    /// Pushes `screen`, making it current.
    pub fn push(&mut self, screen: Screen)
        requires
            nav_wf(*old(self)),
        ensures
            nav_wf(*final(self)),
            final(self).stack@ == after_push(old(self).stack@, screen),
            final(self).home_selected == old(self).home_selected,
            final(self).database_selected == database_selection_on_entry(final(self).stack@, old(self).database_selected),
            final(self).should_quit == old(self).should_quit,
    {
        self.stack.push(screen);
        self.enter_current();
    }

    /// Goes back one level; at the root nothing happens. Returns whether a
    /// screen was left.
    pub fn pop(&mut self) -> (popped: bool)
        requires
            nav_wf(*old(self)),
        ensures
            nav_wf(*final(self)),
            popped == (old(self).stack@.len() > 1),
            final(self).stack@ == after_pop(old(self).stack@),
            final(self).home_selected == old(self).home_selected,
            final(self).database_selected == (if popped {
                database_selection_on_entry(final(self).stack@, old(self).database_selected)
            } else {
                old(self).database_selected
            }),
            final(self).should_quit == old(self).should_quit,
    {
        if self.stack.len() > 1 {
            self.stack.pop();
            self.enter_current();
            true
        } else {
            false
        }
    }

    /// Clears the stack back to Home and resets the Home highlight.
    pub fn go_home(&mut self)
        requires
            nav_wf(*old(self)),
        ensures
            nav_wf(*final(self)),
            final(self).stack@ == after_home(old(self).stack@),
            final(self).stack@ == seq![Screen::Home],
            final(self).home_selected == 0,
            final(self).database_selected == old(self).database_selected,
            final(self).should_quit == old(self).should_quit,
    {
        self.stack.truncate(1);
        self.home_selected = 0;
        assert(self.stack@ =~= seq![Screen::Home]);
    }

    /// A Home-screen key: Up and Down move the highlight (stopping at the
    /// ends); Enter returns the screen to open.
    pub fn home_key(&mut self, k: Key) -> (open: Option<Screen>)
        requires
            nav_wf(*old(self)),
        ensures
            nav_wf(*final(self)),
            final(self).stack == old(self).stack,
            final(self).database_selected == old(self).database_selected,
            final(self).should_quit == old(self).should_quit,
            final(self).home_selected == (match k {
                Key::Up => moved_up(old(self).home_selected as int),
                Key::Down => moved_down(old(self).home_selected as int, HOME_ENTRIES as int),
                _ => old(self).home_selected as int,
            }),
            open == (if k == Key::Enter { Some(home_target(old(self).home_selected as int)) } else { None }),
    {
        match k {
            Key::Up => {
                if self.home_selected > 0 {
                    self.home_selected -= 1;
                }
                None
            },
            Key::Down => {
                if self.home_selected + 1 < HOME_ENTRIES {
                    self.home_selected += 1;
                }
                None
            },
            Key::Enter => Some(
                if self.home_selected == 0 {
                    Screen::Scrape
                } else if self.home_selected == 1 {
                    Screen::Database
                } else if self.home_selected == 2 {
                    Screen::Predict
                } else {
                    Screen::Model
                },
            ),
            _ => None,
        }
    }

    /// A Database-screen key: Up and Down move the highlight; Enter returns the
    /// screen to open.
    pub fn database_key(&mut self, k: Key) -> (open: Option<Screen>)
        requires
            nav_wf(*old(self)),
        ensures
            nav_wf(*final(self)),
            final(self).stack == old(self).stack,
            final(self).home_selected == old(self).home_selected,
            final(self).should_quit == old(self).should_quit,
            final(self).database_selected == (match k {
                Key::Up => moved_up(old(self).database_selected as int),
                Key::Down => moved_down(old(self).database_selected as int, DATABASE_ENTRIES as int),
                _ => old(self).database_selected as int,
            }),
            open == (if k == Key::Enter { Some(database_target(old(self).database_selected as int)) } else { None }),
    {
        match k {
            Key::Up => {
                if self.database_selected > 0 {
                    self.database_selected -= 1;
                }
                None
            },
            Key::Down => {
                if self.database_selected + 1 < DATABASE_ENTRIES {
                    self.database_selected += 1;
                }
                None
            },
            Key::Enter => Some(if self.database_selected == 0 { Screen::Events } else { Screen::FighterSearch }),
            _ => None,
        }
    }
}

/// Enter on the Home menu opens the screen its highlighted entry names: the
/// opened screen's title is the entry's label, for every entry.
pub proof fn home_entries_open_their_screens()
    ensures
        forall|i: int| 0 <= i < HOME_ENTRIES ==> screen_title(#[trigger] home_target(i)) == HOME_MENU[i].0@,
{
    reveal_strlit("Scrape");
    reveal_strlit("Database");
    reveal_strlit("Predict");
    reveal_strlit("Model");
    assert(HOME_MENU[0].0@ == "Scrape"@);
    assert(HOME_MENU[1].0@ == "Database"@);
    assert(HOME_MENU[2].0@ == "Predict"@);
    assert(HOME_MENU[3].0@ == "Model"@);
}

/// Going back undoes opening a screen: push then pop restores the stack.
pub proof fn pop_undoes_push(stack: Seq<Screen>, s: Screen)
    requires
        stack.len() >= 1,
    ensures
        after_pop(after_push(stack, s)) == stack,
{
    assert(stack.push(s).drop_last() =~= stack);
}

/// No sequence of pushes, pops and Home presses can empty the stack or
/// replace its Home root, and going back at the root changes nothing.
pub proof fn navigation_keeps_the_root(stack: Seq<Screen>, s: Screen)
    requires
        stack.len() >= 1,
        stack[0] is Home,
    ensures
        after_push(stack, s).len() >= 1 && after_push(stack, s)[0] is Home,
        after_pop(stack).len() >= 1 && after_pop(stack)[0] is Home,
        after_home(stack).len() == 1 && after_home(stack)[0] is Home,
        stack.len() == 1 ==> after_pop(stack) == stack,
{
}

// ------------------------------------------------------------------------- //
// Per-screen keys
// ------------------------------------------------------------------------- //

/// Events list: Up and Down move the highlight; Enter opens the highlighted
/// event's card.
pub fn events_key(st: &mut EventsState, k: Key) -> (open: Option<Screen>)
    ensures
        final(st).events == old(st).events,
        final(st).selected == (match k {
            Key::Up => moved_up(old(st).selected as int),
            Key::Down => moved_down(old(st).selected as int, old(st).events@.len() as int),
            _ => old(st).selected as int,
        }),
        open == (if k == Key::Enter && old(st).selected < old(st).events@.len() {
            Some(Screen::EventFights { event_id: old(st).events@[old(st).selected as int].event_id })
        } else {
            None
        }),
{
    match k {
        Key::Up => {
            st.select_prev();
            None
        },
        Key::Down => {
            st.select_next();
            None
        },
        Key::Enter => match st.selected_event() {
            Some(ev) => Some(Screen::EventFights { event_id: ev.event_id }),
            None => None,
        },
        _ => None,
    }
}

/// What a key on the fight card asks of the event loop.
#[derive(Debug, Clone, PartialEq)]
pub enum CardAction {
    Nothing,
    /// The highlight moved: reload the highlighted fight's rounds.
    Moved,
    /// Open this screen.
    Open(Screen),
}

/// Fight card: Up and Down move the highlight; Enter opens the highlighted
/// fight's winner (else its loser) as a fighter profile.
pub fn event_fights_key<R>(st: &mut EventFightsState<R>, k: Key) -> (a: CardAction)
    ensures
        final(st).fights == old(st).fights,
        final(st).selected == (match k {
            Key::Up => moved_up(old(st).selected as int),
            Key::Down => moved_down(old(st).selected as int, old(st).fights@.len() as int),
            _ => old(st).selected as int,
        }),
        (k == Key::Up || k == Key::Down) ==> a == CardAction::Moved,
        k == Key::Enter ==> match a {
            CardAction::Open(Screen::Fighter { name }) => {
                &&& old(st).selected < old(st).fights@.len()
                &&& primary_fighter(old(st).fights@[old(st).selected as int]) == Some(name@)
            },
            CardAction::Nothing => old(st).selected >= old(st).fights@.len()
                || primary_fighter(old(st).fights@[old(st).selected as int]) is None,
            _ => false,
        },
        !(k == Key::Up || k == Key::Down || k == Key::Enter) ==> a == CardAction::Nothing,
{
    match k {
        Key::Up => {
            st.select_prev();
            CardAction::Moved
        },
        Key::Down => {
            st.select_next();
            CardAction::Moved
        },
        Key::Enter => match st.selected_fighter_name() {
            Some(name) => CardAction::Open(Screen::Fighter { name: name.to_owned() }),
            None => CardAction::Nothing,
        },
        _ => CardAction::Nothing,
    }
}

/// A query with its last character removed (an empty query stays empty).
pub open spec fn query_backspaced(q: Seq<char>) -> Seq<char> {
    if q.len() > 0 { q.drop_last() } else { q }
}

/// Removes the last character of `s`, if any.
pub fn backspace(s: &mut String)
    ensures
        final(s)@ == query_backspaced(old(s)@),
{
    let v = crate::text::chars_of(s.as_str());
    if v.len() == 0 {
        return;
    }
    let mut out = String::new();
    let mut i: usize = 0;
    while i + 1 < v.len()
        invariant
            v@ == old(s)@,
            v.len() >= 1,
            i + 1 <= v.len(),
            out@ == v@.take(i as int),
        decreases v.len() - i,
    {
        out.push(v[i]);
        i += 1;
        assert(out@ =~= v@.take(i as int));
    }
    assert(v@.take(i as int) =~= v@.drop_last());
    *s = out;
}

/// What a key on a text-entry screen asks of the event loop.
#[derive(Debug, Clone, PartialEq)]
pub enum SearchAction {
    Nothing,
    /// The query changed: recompute the narrowed list.
    QueryChanged,
    /// Open this screen.
    Open(Screen),
}

/// Fighter search: Up and Down move the highlight, Enter opens the
/// highlighted fighter, Backspace and typed characters edit the query.
pub fn search_key(st: &mut FighterSearchState, k: Key) -> (a: SearchAction)
    ensures
        final(st).filtered == old(st).filtered,
        final(st).selected == (match k {
            Key::Up => moved_up(old(st).selected as int),
            Key::Down => moved_down(old(st).selected as int, old(st).filtered@.len() as int),
            _ => old(st).selected as int,
        }),
        final(st).query@ == (match k {
            Key::Backspace => query_backspaced(old(st).query@),
            Key::Char(c) => old(st).query@.push(c),
            _ => old(st).query@,
        }),
        match k {
            Key::Backspace => a == SearchAction::QueryChanged,
            Key::Char(_) => a == SearchAction::QueryChanged,
            Key::Enter => match a {
                SearchAction::Open(Screen::Fighter { name }) => {
                    &&& old(st).selected < old(st).filtered@.len()
                    &&& name@ == old(st).filtered@[old(st).selected as int]@
                },
                SearchAction::Nothing => old(st).selected >= old(st).filtered@.len(),
                _ => false,
            },
            _ => a == SearchAction::Nothing,
        },
{
    match k {
        Key::Up => {
            st.select_prev();
            SearchAction::Nothing
        },
        Key::Down => {
            st.select_next();
            SearchAction::Nothing
        },
        Key::Enter => match st.selected_name() {
            Some(name) => SearchAction::Open(Screen::Fighter { name: name.to_owned() }),
            None => SearchAction::Nothing,
        },
        Key::Backspace => {
            backspace(&mut st.query);
            SearchAction::QueryChanged
        },
        Key::Char(c) => {
            st.query.push(c);
            SearchAction::QueryChanged
        },
        _ => SearchAction::Nothing,
    }
}

/// What a key on the Scrape screen asks for.
#[derive(Debug, Clone, Copy, PartialEq, Eq, Structural)]
pub enum ScrapeKeyAction {
    Nothing,
    /// Flip the full re-scrape option.
    ToggleFull,
    /// Move the event limit by this many.
    BumpLimit(i64),
    /// Move the request rate a step up (`true`) or down.
    BumpRate(bool),
    /// Start the scraper.
    Run,
}

/// The Scrape bindings: `f` toggles full, `+`/`=` and `-`/`_` move the limit
/// by 50, `]` and `[` move the rate, Enter or `r` runs.
pub open spec fn scrape_key_of(k: Key) -> ScrapeKeyAction {
    match k {
        Key::Char(c) => if c == 'f' {
            ScrapeKeyAction::ToggleFull
        } else if c == '+' || c == '=' {
            ScrapeKeyAction::BumpLimit(50i64)
        } else if c == '-' || c == '_' {
            ScrapeKeyAction::BumpLimit(-50i64)
        } else if c == '[' {
            ScrapeKeyAction::BumpRate(false)
        } else if c == ']' {
            ScrapeKeyAction::BumpRate(true)
        } else if c == 'r' {
            ScrapeKeyAction::Run
        } else {
            ScrapeKeyAction::Nothing
        },
        Key::Enter => ScrapeKeyAction::Run,
        _ => ScrapeKeyAction::Nothing,
    }
}

/// Decides a Scrape-screen key.
pub fn scrape_key(k: Key) -> (a: ScrapeKeyAction)
    ensures
        a == scrape_key_of(k),
{
    match k {
        Key::Char('f') => ScrapeKeyAction::ToggleFull,
        Key::Char('+') | Key::Char('=') => ScrapeKeyAction::BumpLimit(50),
        Key::Char('-') | Key::Char('_') => ScrapeKeyAction::BumpLimit(-50),
        Key::Char('[') => ScrapeKeyAction::BumpRate(false),
        Key::Char(']') => ScrapeKeyAction::BumpRate(true),
        Key::Char('r') | Key::Enter => ScrapeKeyAction::Run,
        _ => ScrapeKeyAction::Nothing,
    }
}

/// What a key on the Model screen asks for.
#[derive(Debug, Clone, Copy, PartialEq, Eq, Structural)]
pub enum ModelKeyAction {
    Nothing,
    /// Re-read the model status.
    Refresh,
    /// Have the sidecar reload the model from disk.
    Reload,
    /// Start training.
    Train,
}

/// Decides a Model-screen key: `r` refreshes, `l` reloads, `t` or Enter
/// trains.
pub fn model_key(k: Key) -> (a: ModelKeyAction)
    ensures
        a == (match k {
            Key::Char(c) => if c == 'r' {
                ModelKeyAction::Refresh
            } else if c == 'l' {
                ModelKeyAction::Reload
            } else if c == 't' {
                ModelKeyAction::Train
            } else {
                ModelKeyAction::Nothing
            },
            Key::Enter => ModelKeyAction::Train,
            _ => ModelKeyAction::Nothing,
        }),
{
    match k {
        Key::Char('r') => ModelKeyAction::Refresh,
        Key::Char('l') => ModelKeyAction::Reload,
        Key::Char('t') | Key::Enter => ModelKeyAction::Train,
        _ => ModelKeyAction::Nothing,
    }
}

/// What a key on the Predict screen asks for.
#[derive(Debug, Clone, Copy, PartialEq, Eq, Structural)]
pub enum PredictKeyAction {
    Nothing,
    /// Focus the other slot (then its pool is refreshed).
    ToggleSlot,
    /// Move the candidate highlight up.
    Up,
    /// Move the candidate highlight down.
    Down,
    /// Commit the highlighted candidate to the focused slot.
    Commit,
    /// Delete the query's last character.
    Backspace,
    /// Append a character to the query.
    Type(char),
}

/// Decides a Predict-screen key: Left or Right switch slots, Up and Down move
/// the highlight, Enter commits, Backspace and characters edit the query.
pub fn predict_key(k: Key) -> (a: PredictKeyAction)
    ensures
        a == (match k {
            Key::Left => PredictKeyAction::ToggleSlot,
            Key::Right => PredictKeyAction::ToggleSlot,
            Key::Up => PredictKeyAction::Up,
            Key::Down => PredictKeyAction::Down,
            Key::Enter => PredictKeyAction::Commit,
            Key::Backspace => PredictKeyAction::Backspace,
            Key::Char(c) => PredictKeyAction::Type(c),
            _ => PredictKeyAction::Nothing,
        }),
{
    match k {
        Key::Left | Key::Right => PredictKeyAction::ToggleSlot,
        Key::Up => PredictKeyAction::Up,
        Key::Down => PredictKeyAction::Down,
        Key::Enter => PredictKeyAction::Commit,
        Key::Backspace => PredictKeyAction::Backspace,
        Key::Char(c) => PredictKeyAction::Type(c),
        _ => PredictKeyAction::Nothing,
    }
}

} // verus!
