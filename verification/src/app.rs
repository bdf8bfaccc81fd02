//! Screen navigation vocabulary and the pure per-screen state the terminal
//! front end drives: list selections, the predict pickers, and the locally
//! applied eligibility policy.

use vstd::prelude::*;
use vstd::hash_map::StringHashMap;
use vstd::relations::sorted_by;
use crate::models::{Division, EligibilityPayload, EligibilityRules, EventRow, FightRow, eligible, eligible_spec};
use crate::fuzzy::{rank, ranked};
use crate::text::{lex_order, sort_strings, str_eq, views};

verus! {

// ------------------------------------------------------------------------- //
// Screens
// ------------------------------------------------------------------------- //

/// One screen of the navigation stack.
#[derive(Debug, Clone, PartialEq, Eq)]
pub enum Screen {
    /// Landing screen: intro poster and the top menu.
    Home,
    /// Run the scraper with toggleable options.
    Scrape,
    /// Database hub: browse events or find a fighter.
    Database,
    /// The events list.
    Events,
    /// The fights on one event.
    EventFights { event_id: i64 },
    /// Live fuzzy fighter search.
    FighterSearch,
    /// One fighter's career profile.
    Fighter { name: String },
    /// Pick two fighters and predict.
    Predict,
    /// Model status and train / reload actions.
    Model,
}

/// The header title of each screen.
pub open spec fn screen_title(s: Screen) -> Seq<char> {
    match s {
        Screen::Home => "Home"@,
        Screen::Scrape => "Scrape"@,
        Screen::Database => "Database"@,
        Screen::Events => "Events"@,
        Screen::EventFights { .. } => "Fight card"@,
        Screen::FighterSearch => "Find a fighter"@,
        Screen::Fighter { name } => name@,
        Screen::Predict => "Predict"@,
        Screen::Model => "Model"@,
    }
}

/// The footer hint of each screen.
pub open spec fn screen_hint(s: Screen) -> Seq<char> {
    match s {
        Screen::Home => "↑↓ move · ⏎ select · q Quit"@,
        Screen::Database => "↑↓ move · ⏎ select · Esc Back · Home · q Quit"@,
        Screen::Scrape => "f full · +/- limit · [/] rate · c clear · ⏎/r run · Esc Back · Home · q Quit"@,
        Screen::Events => "↑↓ move · ⏎ open card · Esc Back · Home · q Quit"@,
        Screen::EventFights { .. } => "↑↓ move · ⏎ fighter · Esc Back · Home · q Quit"@,
        Screen::FighterSearch => "type to search · ↑↓ move · ⏎ open · Esc Back · Home · q Quit"@,
        Screen::Fighter { .. } => "Esc Back · Home · q Quit"@,
        Screen::Predict => "type · ↑↓ pick · ⏎ choose · ←→ slot · Esc Back · Home · q Quit"@,
        Screen::Model => "t train · l reload · r refresh · Esc Back · Home · q Quit"@,
    }
}

impl Screen {
    /// Human-readable title for the header.
    pub fn title(&self) -> (t: String)
        ensures
            t@ == screen_title(*self),
    {
        match self {
            Screen::Home => "Home".to_owned(),
            Screen::Scrape => "Scrape".to_owned(),
            Screen::Database => "Database".to_owned(),
            Screen::Events => "Events".to_owned(),
            Screen::EventFights { .. } => "Fight card".to_owned(),
            Screen::FighterSearch => "Find a fighter".to_owned(),
            Screen::Fighter { name } => name.clone(),
            Screen::Predict => "Predict".to_owned(),
            Screen::Model => "Model".to_owned(),
        }
    }

    /// Contextual footer hint for this screen.
    pub fn footer_hint(&self) -> (h: &'static str)
        ensures
            h@ == screen_hint(*self),
    {
        match self {
            Screen::Home => "↑↓ move · ⏎ select · q Quit",
            Screen::Database => "↑↓ move · ⏎ select · Esc Back · Home · q Quit",
            Screen::Scrape => "f full · +/- limit · [/] rate · c clear · ⏎/r run · Esc Back · Home · q Quit",
            Screen::Events => "↑↓ move · ⏎ open card · Esc Back · Home · q Quit",
            Screen::EventFights { .. } => "↑↓ move · ⏎ fighter · Esc Back · Home · q Quit",
            Screen::FighterSearch => "type to search · ↑↓ move · ⏎ open · Esc Back · Home · q Quit",
            Screen::Fighter { .. } => "Esc Back · Home · q Quit",
            Screen::Predict => "type · ↑↓ pick · ⏎ choose · ←→ slot · Esc Back · Home · q Quit",
            Screen::Model => "t train · l reload · r refresh · Esc Back · Home · q Quit",
        }
    }
}

/// The top-level menu options on Home, in display order.
pub const HOME_MENU: [(&'static str, &'static str); 4] = [
    ("Scrape", "refresh data/ufc.db with the Go scraper"),
    ("Database", "browse events & cards, or find a fighter"),
    ("Predict", "pick two fighters, get a win probability"),
    ("Model", "view metrics, train or reload the model"),
];

/// The Database sub-menu paths, in display order.
pub const DATABASE_MENU: [(&'static str, &'static str); 2] = [
    ("Browse events", "events -> a card -> a fighter profile"),
    ("Find a fighter", "fuzzy search by name -> a fighter profile"),
];

// ------------------------------------------------------------------------- //
// List selections
// ------------------------------------------------------------------------- //

/// A selection index is valid for a list of `len` rows: on a row, or 0 for an
/// empty list.
pub open spec fn selection_valid(selected: int, len: int) -> bool {
    (len == 0 && selected == 0) || (0 <= selected < len)
}

/// The highlight one row up (it stops at the top).
pub open spec fn moved_up(selected: int) -> int {
    if selected > 0 { selected - 1 } else { 0 }
}

/// The highlight one row down (it stops at the last row).
pub open spec fn moved_down(selected: int, len: int) -> int {
    if selected + 1 < len { selected + 1 } else { selected }
}

/// The highlight pulled back into range: 0 for an empty list, the last row
/// when it ran past the end.
pub open spec fn clamped(selected: int, len: int) -> int {
    if len == 0 { 0 } else if selected >= len { len - 1 } else { selected }
}

fn step_down(selected: usize, len: usize) -> (r: usize)
    ensures
        r == moved_down(selected as int, len as int),
{
    if selected < len && len - selected > 1 { selected + 1 } else { selected }
}

fn clamp_index(selected: usize, len: usize) -> (r: usize)
    ensures
        r == clamped(selected as int, len as int),
{
    if len == 0 { 0 } else if selected >= len { len - 1 } else { selected }
}

/// Moving the highlight keeps a valid selection valid, and clamping always
/// yields a valid selection.
pub proof fn selection_moves_stay_valid(selected: int, len: int)
    requires
        len >= 0,
        selected >= 0,
    ensures
        selection_valid(clamped(selected, len), len),
        selection_valid(selected, len) ==> selection_valid(moved_up(selected), len),
        selection_valid(selected, len) ==> selection_valid(moved_down(selected, len), len),
        selection_valid(selected, len) ==> clamped(selected, len) == selected,
{
}

/// State of the fuzzy fighter search screen.
#[derive(Debug, Clone)]
pub struct FighterSearchState {
    /// Current search query.
    pub query: String,
    /// Names currently shown, best match first.
    pub filtered: Vec<String>,
    /// Index of the highlighted row.
    pub selected: usize,
}

impl Default for FighterSearchState {
    fn default() -> (s: FighterSearchState)
        ensures
            s.query@.len() == 0,
            s.filtered@.len() == 0,
            s.selected == 0,
    {
        FighterSearchState { query: String::new(), filtered: Vec::new(), selected: 0 }
    }
}

impl FighterSearchState {
    pub fn select_prev(&mut self)
        ensures
            final(self).selected == moved_up(old(self).selected as int),
            final(self).query == old(self).query,
            final(self).filtered == old(self).filtered,
    {
        self.selected = if self.selected > 0 { self.selected - 1 } else { 0 };
    }

    pub fn select_next(&mut self)
        ensures
            final(self).selected == moved_down(old(self).selected as int, old(self).filtered@.len() as int),
            final(self).query == old(self).query,
            final(self).filtered == old(self).filtered,
    {
        self.selected = step_down(self.selected, self.filtered.len());
    }

    pub fn clamp_selection(&mut self)
        ensures
            final(self).selected == clamped(old(self).selected as int, old(self).filtered@.len() as int),
            final(self).query == old(self).query,
            final(self).filtered == old(self).filtered,
    {
        self.selected = clamp_index(self.selected, self.filtered.len());
    }

    pub fn selected_name(&self) -> (n: Option<&str>)
        ensures
            match n {
                Some(name) => self.selected < self.filtered@.len() && name@ == self.filtered@[self.selected as int]@,
                None => self.selected >= self.filtered@.len(),
            },
    {
        if self.selected < self.filtered.len() {
            Some(self.filtered[self.selected].as_str())
        } else {
            None
        }
    }
}

/// State of the events list.
#[derive(Debug, Clone)]
pub struct EventsState {
    /// All events, most recent first.
    pub events: Vec<EventRow>,
    /// Index of the highlighted event.
    pub selected: usize,
}

impl Default for EventsState {
    fn default() -> (s: EventsState)
        ensures
            s.events@.len() == 0,
            s.selected == 0,
    {
        EventsState { events: Vec::new(), selected: 0 }
    }
}

impl EventsState {
    pub fn select_prev(&mut self)
        ensures
            final(self).selected == moved_up(old(self).selected as int),
            final(self).events == old(self).events,
    {
        self.selected = if self.selected > 0 { self.selected - 1 } else { 0 };
    }

    pub fn select_next(&mut self)
        ensures
            final(self).selected == moved_down(old(self).selected as int, old(self).events@.len() as int),
            final(self).events == old(self).events,
    {
        self.selected = step_down(self.selected, self.events.len());
    }

    pub fn clamp_selection(&mut self)
        ensures
            final(self).selected == clamped(old(self).selected as int, old(self).events@.len() as int),
            final(self).events == old(self).events,
    {
        self.selected = clamp_index(self.selected, self.events.len());
    }

    pub fn selected_event(&self) -> (e: Option<&EventRow>)
        ensures
            match e {
                Some(ev) => self.selected < self.events@.len() && *ev == self.events@[self.selected as int],
                None => self.selected >= self.events@.len(),
            },
    {
        if self.selected < self.events.len() {
            Some(&self.events[self.selected])
        } else {
            None
        }
    }
}

/// State of the fights-on-one-event screen; `R` is the per-round statistics
/// row shown for the highlighted fight.
#[derive(Debug, Clone)]
pub struct EventFightsState<R> {
    /// The event whose card is shown.
    pub event: Option<EventRow>,
    /// The fights on the event, in card order.
    pub fights: Vec<FightRow>,
    /// Index of the highlighted fight.
    pub selected: usize,
    /// Round statistics of the highlighted fight.
    pub rounds: Vec<R>,
}

impl<R> Default for EventFightsState<R> {
    fn default() -> (s: EventFightsState<R>)
        ensures
            s.event is None,
            s.fights@.len() == 0,
            s.selected == 0,
            s.rounds@.len() == 0,
    {
        EventFightsState { event: None, fights: Vec::new(), selected: 0, rounds: Vec::new() }
    }
}

/// A present, non-empty name.
pub open spec fn present_name(n: Option<String>) -> bool {
    n matches Some(s) && s@.len() > 0
}

/// The fighter to open from a fight: the winner when named, else the loser.
pub open spec fn primary_fighter(f: FightRow) -> Option<Seq<char>> {
    if present_name(f.winner_name) {
        Some(f.winner_name->0@)
    } else if present_name(f.loser_name) {
        Some(f.loser_name->0@)
    } else {
        None
    }
}

impl<R> EventFightsState<R> {
    pub fn select_prev(&mut self)
        ensures
            final(self).selected == moved_up(old(self).selected as int),
            final(self).fights == old(self).fights,
    {
        self.selected = if self.selected > 0 { self.selected - 1 } else { 0 };
    }

    pub fn select_next(&mut self)
        ensures
            final(self).selected == moved_down(old(self).selected as int, old(self).fights@.len() as int),
            final(self).fights == old(self).fights,
    {
        self.selected = step_down(self.selected, self.fights.len());
    }

    pub fn clamp_selection(&mut self)
        ensures
            final(self).selected == clamped(old(self).selected as int, old(self).fights@.len() as int),
            final(self).fights == old(self).fights,
    {
        self.selected = clamp_index(self.selected, self.fights.len());
    }

    pub fn selected_fight(&self) -> (f: Option<&FightRow>)
        ensures
            match f {
                Some(fr) => self.selected < self.fights@.len() && *fr == self.fights@[self.selected as int],
                None => self.selected >= self.fights@.len(),
            },
    {
        if self.selected < self.fights.len() {
            Some(&self.fights[self.selected])
        } else {
            None
        }
    }

    /// The fighter to open as a profile from the highlighted fight: the winner
    /// when named, else the loser.
    pub fn selected_fighter_name(&self) -> (n: Option<&str>)
        ensures
            self.selected < self.fights@.len() ==> (n matches Some(name) ==> primary_fighter(self.fights@[self.selected as int]) == Some(name@)),
            self.selected < self.fights@.len() ==> (n is None <==> primary_fighter(self.fights@[self.selected as int]) is None),
            self.selected >= self.fights@.len() ==> n is None,
    {
        let fr = match self.selected_fight() {
            Some(fr) => fr,
            None => return None,
        };
        match &fr.winner_name {
            Some(w) if !w.as_str().is_empty() => return Some(w.as_str()),
            _ => {},
        }
        match &fr.loser_name {
            Some(l) if !l.as_str().is_empty() => Some(l.as_str()),
            _ => None,
        }
    }
}

// ------------------------------------------------------------------------- //
// Predict pickers
// ------------------------------------------------------------------------- //

/// Which of the two predict slots has focus.
#[derive(Debug, Clone, Copy, PartialEq, Eq, Structural)]
pub enum PredictSlot {
    A,
    B,
}

impl Default for PredictSlot {
    fn default() -> (s: PredictSlot)
        ensures
            s == PredictSlot::A,
    {
        PredictSlot::A
    }
}

/// The opposite slot.
pub open spec fn other_slot(s: PredictSlot) -> PredictSlot {
    match s {
        PredictSlot::A => PredictSlot::B,
        PredictSlot::B => PredictSlot::A,
    }
}

impl PredictSlot {
    /// The opposite slot.
    pub fn other(self) -> (o: PredictSlot)
        ensures
            o == other_slot(self),
    {
        match self {
            PredictSlot::A => PredictSlot::B,
            PredictSlot::B => PredictSlot::A,
        }
    }
}

/// Switching slots twice returns to the same slot, and never stays put.
pub proof fn other_slot_is_an_involution(s: PredictSlot)
    ensures
        other_slot(other_slot(s)) == s,
        other_slot(s) != s,
{
}

/// State of the Predict screen; `R` is the prediction result type.
#[derive(Debug, Clone)]
pub struct PredictState<R> {
    /// Slot being edited.
    pub slot: PredictSlot,
    /// Chosen fighter A.
    pub name_a: Option<String>,
    /// Chosen fighter B.
    pub name_b: Option<String>,
    /// Fuzzy query for the focused slot.
    pub query: String,
    /// Unfiltered candidates for the focused slot: the whole roster, or the
    /// other slot's eligible opponents when that slot holds a pick.
    pub pool: Vec<String>,
    /// The pool narrowed by the query.
    pub candidates: Vec<String>,
    /// Index of the highlighted candidate.
    pub selected: usize,
    /// Last prediction, if any.
    pub result: Option<R>,
    /// Last error message.
    pub error: Option<String>,
}

impl<R> Default for PredictState<R> {
    fn default() -> (s: PredictState<R>)
        ensures
            s.slot == PredictSlot::A,
            s.name_a is None && s.name_b is None,
            s.query@.len() == 0,
            s.pool@.len() == 0 && s.candidates@.len() == 0,
            s.selected == 0,
            s.result is None && s.error is None,
    {
        PredictState {
            slot: PredictSlot::A,
            name_a: None,
            name_b: None,
            query: String::new(),
            pool: Vec::new(),
            candidates: Vec::new(),
            selected: 0,
            result: None,
            error: None,
        }
    }
}

/// The pick held by `slot`.
pub open spec fn pick_in<R>(p: PredictState<R>, slot: PredictSlot) -> Option<String> {
    match slot {
        PredictSlot::A => p.name_a,
        PredictSlot::B => p.name_b,
    }
}

/// The character view of an optional pick.
pub open spec fn pick_view(n: Option<String>) -> Option<Seq<char>> {
    match n {
        Some(s) => Some(s@),
        None => None,
    }
}

/// Whether `name` is one of `names`.
fn contains_name(names: &Vec<String>, name: &str) -> (r: bool)
    ensures
        r == views(names@).contains(name@),
{
    let mut i: usize = 0;
    while i < names.len()
        invariant
            i <= names.len(),
            forall|k: int| 0 <= k < i ==> names@[k]@ != name@,
        decreases names.len() - i,
    {
        if str_eq(names[i].as_str(), name) {
            assert(views(names@)[i as int] == name@);
            return true;
        }
        i += 1;
    }
    proof {
        if views(names@).contains(name@) {
            let k = choose|k: int| 0 <= k < views(names@).len() && views(names@)[k] == name@;
            assert(names@[k]@ == name@);
        }
    }
    false
}

impl<R> PredictState<R> {
    /// Switches focus to the other slot and resets the query and highlight.
    pub fn toggle_slot(&mut self)
        ensures
            final(self).slot == other_slot(old(self).slot),
            final(self).query@.len() == 0,
            final(self).selected == 0,
            final(self).name_a == old(self).name_a,
            final(self).name_b == old(self).name_b,
            final(self).pool == old(self).pool,
            final(self).candidates == old(self).candidates,
            final(self).result == old(self).result,
            final(self).error == old(self).error,
    {
        self.slot = self.slot.other();
        self.query = String::new();
        self.selected = 0;
    }

    pub fn select_prev(&mut self)
        ensures
            final(self).selected == moved_up(old(self).selected as int),
            final(self).candidates == old(self).candidates,
            final(self).slot == old(self).slot,
            final(self).name_a == old(self).name_a,
            final(self).name_b == old(self).name_b,
            final(self).pool == old(self).pool,
            final(self).query == old(self).query,
            final(self).result == old(self).result,
            final(self).error == old(self).error,
    {
        self.selected = if self.selected > 0 { self.selected - 1 } else { 0 };
    }

    pub fn select_next(&mut self)
        ensures
            final(self).selected == moved_down(old(self).selected as int, old(self).candidates@.len() as int),
            final(self).candidates == old(self).candidates,
            final(self).slot == old(self).slot,
            final(self).name_a == old(self).name_a,
            final(self).name_b == old(self).name_b,
            final(self).pool == old(self).pool,
            final(self).query == old(self).query,
            final(self).result == old(self).result,
            final(self).error == old(self).error,
    {
        self.selected = step_down(self.selected, self.candidates.len());
    }

    pub fn clamp_selection(&mut self)
        ensures
            final(self).selected == clamped(old(self).selected as int, old(self).candidates@.len() as int),
            final(self).candidates == old(self).candidates,
            final(self).slot == old(self).slot,
            final(self).name_a == old(self).name_a,
            final(self).name_b == old(self).name_b,
            final(self).pool == old(self).pool,
            final(self).query == old(self).query,
            final(self).result == old(self).result,
            final(self).error == old(self).error,
    {
        self.selected = clamp_index(self.selected, self.candidates.len());
    }

    /// The highlighted candidate, if the highlight is on one.
    pub fn highlighted_candidate(&self) -> (n: Option<&str>)
        ensures
            match n {
                Some(name) => self.selected < self.candidates@.len() && name@ == self.candidates@[self.selected as int]@,
                None => self.selected >= self.candidates@.len(),
            },
    {
        if self.selected < self.candidates.len() {
            Some(self.candidates[self.selected].as_str())
        } else {
            None
        }
    }

    /// Commits `name` to the focused slot and resets the query and highlight.
    pub fn commit_slot(&mut self, name: String)
        ensures
            pick_in(*final(self), old(self).slot) == Some(name),
            pick_in(*final(self), other_slot(old(self).slot)) == pick_in(*old(self), other_slot(old(self).slot)),
            final(self).slot == old(self).slot,
            final(self).query@.len() == 0,
            final(self).selected == 0,
            final(self).pool == old(self).pool,
            final(self).candidates == old(self).candidates,
            final(self).result == old(self).result,
            final(self).error == old(self).error,
    {
        match self.slot {
            PredictSlot::A => self.name_a = Some(name),
            PredictSlot::B => self.name_b = Some(name),
        }
        self.query = String::new();
        self.selected = 0;
    }

    /// The pick in the slot opposite the focused one: the fighter that
    /// constrains the focused slot's pool.
    pub fn other_committed(&self) -> (n: Option<&str>)
        ensures
            match n {
                Some(name) => pick_view(pick_in(*self, other_slot(self.slot))) == Some(name@),
                None => pick_in(*self, other_slot(self.slot)) is None,
            },
    {
        match self.slot {
            PredictSlot::A => match &self.name_b {
                Some(n) => Some(n.as_str()),
                None => None,
            },
            PredictSlot::B => match &self.name_a {
                Some(n) => Some(n.as_str()),
                None => None,
            },
        }
    }

    /// The pick in the focused slot.
    pub fn focused_committed(&self) -> (n: Option<&str>)
        ensures
            match n {
                Some(name) => pick_view(pick_in(*self, self.slot)) == Some(name@),
                None => pick_in(*self, self.slot) is None,
            },
    {
        match self.slot {
            PredictSlot::A => match &self.name_a {
                Some(n) => Some(n.as_str()),
                None => None,
            },
            PredictSlot::B => match &self.name_b {
                Some(n) => Some(n.as_str()),
                None => None,
            },
        }
    }

    /// Replaces the focused slot's candidate pool. A pick in the focused slot
    /// that is not in the new pool is cleared (with the query, highlight,
    /// result and error) and its name returned, so an ineligible pairing never
    /// persists.
    pub fn set_pool(&mut self, pool: Vec<String>) -> (dropped: Option<String>)
        ensures
            final(self).pool == pool,
            final(self).slot == old(self).slot,
            pick_in(*final(self), other_slot(old(self).slot)) == pick_in(*old(self), other_slot(old(self).slot)),
            final(self).candidates == old(self).candidates,
            match pick_in(*old(self), old(self).slot) {
                Some(name) if !views(pool@).contains(name@) => {
                    &&& dropped matches Some(d) && d@ == name@
                    &&& pick_in(*final(self), old(self).slot) is None
                    &&& final(self).query@.len() == 0
                    &&& final(self).selected == 0
                    &&& final(self).result is None
                    &&& final(self).error is None
                },
                _ => {
                    &&& dropped is None
                    &&& pick_in(*final(self), old(self).slot) == pick_in(*old(self), old(self).slot)
                    &&& final(self).query == old(self).query
                    &&& final(self).selected == old(self).selected
                    &&& final(self).result == old(self).result
                    &&& final(self).error == old(self).error
                },
            },
            // The focused pick, if any remains, is always in the new pool.
            pick_in(*final(self), final(self).slot) matches Some(n) ==> views(pool@).contains(n@),
    {
        self.pool = pool;
        let stale: Option<String> = match self.focused_committed() {
            Some(name) => {
                if contains_name(&self.pool, name) {
                    None
                } else {
                    Some(name.to_owned())
                }
            },
            None => None,
        };
        if stale.is_some() {
            match self.slot {
                PredictSlot::A => self.name_a = None,
                PredictSlot::B => self.name_b = None,
            }
            self.query = String::new();
            self.selected = 0;
            self.result = None;
            self.error = None;
        }
        stale
    }

    /// After committing slot A, moves on to slot B when B is still empty.
    pub fn advance_after_commit(&mut self)
        ensures
            (old(self).slot == PredictSlot::A && old(self).name_b is None) ==> {
                &&& final(self).slot == PredictSlot::B
                &&& final(self).query@.len() == 0
                &&& final(self).selected == 0
            },
            !(old(self).slot == PredictSlot::A && old(self).name_b is None) ==> {
                &&& final(self).slot == old(self).slot
                &&& final(self).query == old(self).query
                &&& final(self).selected == old(self).selected
            },
            final(self).name_a == old(self).name_a,
            final(self).name_b == old(self).name_b,
            final(self).pool == old(self).pool,
            final(self).candidates == old(self).candidates,
            final(self).result == old(self).result,
            final(self).error == old(self).error,
    {
        if self.slot == PredictSlot::A && self.name_b.is_none() {
            self.slot = PredictSlot::B;
            self.query = String::new();
            self.selected = 0;
        }
    }

    /// Both fighters are chosen.
    pub fn both_selected(&self) -> (r: bool)
        ensures
            r == (self.name_a is Some && self.name_b is Some),
    {
        self.name_a.is_some() && self.name_b.is_some()
    }
}

/// The `--limit` value after a `+`/`-` adjustment by `delta`: clamped at zero,
/// and cleared (`None`) at zero.
pub open spec fn bumped_limit(limit: Option<u32>, delta: i64) -> Option<u32> {
    let current: int = match limit { Some(l) => l as int, None => 0 };
    let next = if current + delta < 0 { 0 } else { current + delta };
    if next == 0 { None } else { Some(next as u32) }
}

/// Adjusts a scrape `--limit` value by `delta`; clamps at zero and clears at
/// zero.
pub fn bump_limit_value(limit: Option<u32>, delta: i64) -> (r: Option<u32>)
    requires
        (match limit { Some(l) => l as int, None => 0 }) + delta <= i64::MAX,
    ensures
        r == bumped_limit(limit, delta),
{
    let current: i64 = match limit {
        Some(l) => l as i64,
        None => 0,
    };
    let sum = current + delta;
    let next: i64 = if sum < 0 { 0 } else { sum };
    if next == 0 {
        None
    } else {
        Some(next as u32)
    }
}

/// The limit is never left at zero (zero means no limit), and lowering it by
/// the amount it was just raised gives back the same limit.
pub proof fn limit_bumps_undo(limit: u32, delta: i64)
    requires
        limit > 0,
        delta >= 0,
        limit + delta <= u32::MAX,
    ensures
        bumped_limit(Some(limit), delta) != Some(0u32),
        bumped_limit(bumped_limit(Some(limit), delta), (-delta) as i64) == Some(limit),
{
    let up = limit as int + delta;
    assert(up as u32 == up);
    assert(up - delta == limit as int);
}

/// The eligibility policy and the per-fighter divisions, fetched once from the
/// sidecar so opponents can be filtered locally.
pub struct EligibilityState {
    /// The policy (`None` until fetched, or when no model is loaded).
    pub rules: Option<EligibilityRules>,
    /// Fighter name to the divisions they have fought in.
    pub divisions: StringHashMap<Vec<Division>>,
}

/// The divisions recorded for `name` (none when the name is unknown).
pub open spec fn divisions_of(divisions: Map<Seq<char>, Vec<Division>>, name: Seq<char>) -> Seq<Division> {
    if divisions.contains_key(name) {
        divisions[name]@
    } else {
        Seq::empty()
    }
}

/// Roster names other than `a` that the policy allows against `a`.
pub open spec fn allowed_opponents(
    roster: Seq<Seq<char>>,
    a: Seq<char>,
    rules: EligibilityRules,
    divisions: Map<Seq<char>, Vec<Division>>,
) -> Seq<Seq<char>> {
    roster.filter(
        |n: Seq<char>|
            n != a && eligible_spec(divisions_of(divisions, a), divisions_of(divisions, n), rules),
    )
}

/// Roster names other than `a`, in roster order.
pub open spec fn others(roster: Seq<Seq<char>>, a: Seq<char>) -> Seq<Seq<char>> {
    roster.filter(|n: Seq<char>| n != a)
}

/// What `eligible_opponents` returns: without a policy, every other roster
/// name in roster order; with one, the allowed opponents in sorted order.
pub open spec fn eligible_opponents_spec(
    rules: Option<EligibilityRules>,
    divisions: Map<Seq<char>, Vec<Division>>,
    a: Seq<char>,
    roster: Seq<Seq<char>>,
    r: Seq<Seq<char>>,
) -> bool {
    match rules {
        None => r == others(roster, a),
        Some(rules) => {
            &&& sorted_by(r, lex_order())
            &&& r.to_multiset() == allowed_opponents(roster, a, rules, divisions).to_multiset()
        },
    }
}

impl Default for EligibilityState {
    fn default() -> (s: EligibilityState)
        ensures
            s.rules is None,
            s.divisions@ == Map::<Seq<char>, Vec<Division>>::empty(),
    {
        EligibilityState { rules: None, divisions: StringHashMap::new() }
    }
}

/// The name-to-divisions map built from `(name, divisions)` entries, a later
/// entry for a name replacing an earlier one.
pub open spec fn divisions_map(entries: Seq<(String, Vec<Division>)>) -> Map<Seq<char>, Vec<Division>>
    decreases entries.len(),
{
    if entries.len() == 0 {
        Map::empty()
    } else {
        divisions_map(entries.drop_last()).insert(entries.last().0@, entries.last().1)
    }
}

impl EligibilityState {
    /// Takes over a freshly fetched policy: its rules, and exactly its
    /// per-fighter divisions (earlier entries are forgotten).
    pub fn adopt(&mut self, payload: EligibilityPayload)
        ensures
            final(self).rules == Some(payload.rules),
            final(self).divisions@ == divisions_map(payload.divisions@),
    {
        let EligibilityPayload { rules, divisions, weight_classes: _ } = payload;
        let ghost entries = divisions@;
        self.rules = Some(rules);
        self.divisions = StringHashMap::new();
        let mut rest = divisions;
        let ghost mut done: int = 0;
        assert(rest@ =~= entries.skip(0));
        while rest.len() > 0
            invariant
                0 <= done <= entries.len(),
                rest@ == entries.skip(done),
                self.divisions@ == divisions_map(entries.take(done)),
                self.rules == Some(rules),
            decreases rest@.len(),
        {
            let (name, divs) = rest.remove(0);
            proof {
                assert((name, divs) == entries[done]);
                assert(entries.take(done + 1).drop_last() =~= entries.take(done));
                assert(entries.take(done + 1).last() == entries[done]);
            }
            self.divisions.insert(name, divs);
            proof {
                done = done + 1;
                assert(rest@ =~= entries.skip(done));
            }
        }
        assert(entries.take(entries.len() as int) =~= entries);
    }

    /// Records the divisions fetched for one fighter, replacing any earlier
    /// entry for that name; the policy is left as it is.
    pub fn record_divisions(&mut self, name: String, divs: Vec<Division>)
        ensures
            final(self).divisions@ == old(self).divisions@.insert(name@, divs),
            final(self).rules == old(self).rules,
    {
        self.divisions.insert(name, divs);
    }

    fn divisions_for<'a>(&'a self, name: &str, empty: &'a Vec<Division>) -> (d: &'a Vec<Division>)
        requires
            empty@.len() == 0,
        ensures
            d@ == divisions_of(self.divisions@, name@),
    {
        match self.divisions.get(name) {
            Some(d) => d,
            None => empty,
        }
    }

    /// Opponent names for `a` that the policy allows, excluding `a` itself and
    /// sorted. Without a fetched policy every other roster name is returned, in
    /// roster order.
    pub fn eligible_opponents(&self, a: &str, roster: &[String]) -> (r: Vec<String>)
        ensures
            eligible_opponents_spec(self.rules, self.divisions@, a@, views(roster@), views(r@)),
    {
        let empty: Vec<Division> = Vec::new();
        let divs_a = self.divisions_for(a, &empty);
        let ghost rv = views(roster@);
        let ghost divs = self.divisions@;
        let ghost pred = match self.rules {
            None => |n: Seq<char>| n != a@,
            Some(rules) => |n: Seq<char>|
                n != a@ && eligible_spec(divisions_of(divs, a@), divisions_of(divs, n), rules),
        };
        let mut out: Vec<String> = Vec::new();
        let mut i: usize = 0;
        while i < roster.len()
            invariant
                i <= roster.len(),
                rv == views(roster@),
                divs == self.divisions@,
                divs_a@ == divisions_of(divs, a@),
                empty@.len() == 0,
                pred == (match self.rules {
                    None => |n: Seq<char>| n != a@,
                    Some(rules) => |n: Seq<char>|
                        n != a@ && eligible_spec(divisions_of(divs, a@), divisions_of(divs, n), rules),
                }),
                views(out@) == rv.take(i as int).filter(pred),
            decreases roster.len() - i,
        {
            let name = &roster[i];
            let keep = if str_eq(name.as_str(), a) {
                false
            } else {
                match &self.rules {
                    None => true,
                    Some(rules) => {
                        let divs_n = self.divisions_for(name.as_str(), &empty);
                        eligible(divs_a.as_slice(), divs_n.as_slice(), rules)
                    },
                }
            };
            proof {
                assert(rv.take(i + 1).drop_last() =~= rv.take(i as int));
                assert(rv.take(i + 1).last() == name@);
                assert(keep == pred(name@));
            }
            let ghost before = out@;
            if keep {
                out.push(name.clone());
                assert(views(out@) =~= views(before).push(name@));
            }
            proof {
                reveal(Seq::filter);
                let t = rv.take(i + 1);
                assert(t.len() > 0);
                assert(t.filter(pred) == (if pred(t.last()) {
                    t.drop_last().filter(pred).push(t.last())
                } else {
                    t.drop_last().filter(pred)
                }));
            }
            i += 1;
        }
        assert(rv.take(roster.len() as int) =~= rv);
        proof {
            reveal(Seq::filter);
        }
        match &self.rules {
            None => out,
            Some(_) => sort_strings(out),
        }
    }
}

// ------------------------------------------------------------------------- //
// The predict flow: pool, candidates and pick validation
// ------------------------------------------------------------------------- //

/// `n` is among the opponents `eligible_opponents(a, roster)` returns.
pub open spec fn is_listed_opponent(
    rules: Option<EligibilityRules>,
    divisions: Map<Seq<char>, Vec<Division>>,
    a: Seq<char>,
    roster: Seq<Seq<char>>,
    n: Seq<char>,
) -> bool {
    match rules {
        None => others(roster, a).contains(n),
        Some(r) => allowed_opponents(roster, a, r, divisions).contains(n),
    }
}

/// The names of a ranking, in order.
pub open spec fn ranked_names(names: Seq<Seq<char>>, q: Seq<char>) -> Seq<Seq<char>> {
    ranked(names, q).map_values(|p: (Seq<char>, i64)| p.0)
}

/// A copy of a list of names.
fn copy_names(names: &[String]) -> (r: Vec<String>)
    ensures
        views(r@) == views(names@),
{
    let mut out: Vec<String> = Vec::new();
    let mut i: usize = 0;
    while i < names.len()
        invariant
            i <= names.len(),
            views(out@) == views(names@).take(i as int),
        decreases names.len() - i,
    {
        let ghost before = out@;
        out.push(names[i].clone());
        assert(views(out@) =~= views(before).push(names@[i as int]@));
        i += 1;
        assert(views(out@) =~= views(names@).take(i as int));
    }
    assert(views(names@).take(names.len() as int) =~= views(names@));
    out
}

/// Whether `n` is among the opponents `elig` lists for `a`.
fn listed_opponent(elig: &EligibilityState, a: &str, roster: &[String], n: &str) -> (r: bool)
    ensures
        r == is_listed_opponent(elig.rules, elig.divisions@, a@, views(roster@), n@),
{
    broadcast use vstd::seq_lib::group_to_multiset_ensures;
    let list = elig.eligible_opponents(a, roster);
    let found = contains_name(&list, n);
    proof {
        match elig.rules {
            None => {},
            Some(r) => {
                let allowed = allowed_opponents(views(roster@), a@, r, elig.divisions@);
                assert(views(list@).contains(n@) <==> views(list@).to_multiset().count(n@) > 0);
                assert(allowed.contains(n@) <==> allowed.to_multiset().count(n@) > 0);
            },
        }
    }
    found
}

impl<R> PredictState<R> {
    /// Re-ranks the pool by the query into the candidate list and pulls the
    /// highlight back into range.
    pub fn recompute_candidates(&mut self)
        ensures
            views(final(self).candidates@) == ranked_names(views(old(self).pool@), old(self).query@),
            final(self).selected == clamped(old(self).selected as int, final(self).candidates@.len() as int),
            final(self).pool == old(self).pool,
            final(self).query == old(self).query,
            final(self).slot == old(self).slot,
            final(self).name_a == old(self).name_a,
            final(self).name_b == old(self).name_b,
            final(self).result == old(self).result,
            final(self).error == old(self).error,
    {
        self.candidates = rank(self.pool.as_slice(), self.query.as_str());
        self.clamp_selection();
    }

    /// Recomputes the focused slot's pool (the other slot's eligible opponents
    /// when it holds a pick, else the whole roster), clears a focused pick the
    /// new pool no longer holds, and re-ranks the candidates. Returns the
    /// cleared pick, if any.
    pub fn refresh_pool(&mut self, elig: &EligibilityState, roster: &[String]) -> (dropped: Option<String>)
        ensures
            match pick_in(*old(self), other_slot(old(self).slot)) {
                Some(o) => eligible_opponents_spec(elig.rules, elig.divisions@, o@, views(roster@), views(final(self).pool@)),
                None => views(final(self).pool@) == views(roster@),
            },
            views(final(self).candidates@) == ranked_names(views(final(self).pool@), final(self).query@),
            final(self).slot == old(self).slot,
            pick_in(*final(self), other_slot(old(self).slot)) == pick_in(*old(self), other_slot(old(self).slot)),
            match pick_in(*old(self), old(self).slot) {
                Some(name) if !views(final(self).pool@).contains(name@) => {
                    &&& dropped matches Some(d) && d@ == name@
                    &&& pick_in(*final(self), old(self).slot) is None
                    &&& final(self).query@.len() == 0
                    &&& final(self).selected == 0
                    &&& final(self).result is None
                    &&& final(self).error is None
                },
                _ => {
                    &&& dropped is None
                    &&& pick_in(*final(self), old(self).slot) == pick_in(*old(self), old(self).slot)
                    &&& final(self).query == old(self).query
                    &&& final(self).selected == clamped(old(self).selected as int, final(self).candidates@.len() as int)
                    &&& final(self).result == old(self).result
                    &&& final(self).error == old(self).error
                },
            },
            pick_in(*final(self), final(self).slot) matches Some(n) ==> views(final(self).pool@).contains(n@),
    {
        let pool = match self.other_committed() {
            Some(name) => elig.eligible_opponents(name, roster),
            None => copy_names(roster),
        };
        let dropped = self.set_pool(pool);
        self.recompute_candidates();
        dropped
    }

    /// After `just_committed` went into the focused slot, clears the other
    /// slot's pick (with the result and error) when it is no longer an
    /// eligible opponent of `just_committed`. Returns the cleared pick.
    pub fn validate_other_slot(&mut self, elig: &EligibilityState, roster: &[String], just_committed: &str) -> (dropped: Option<String>)
        ensures
            final(self).slot == old(self).slot,
            pick_in(*final(self), old(self).slot) == pick_in(*old(self), old(self).slot),
            final(self).query == old(self).query,
            final(self).selected == old(self).selected,
            final(self).pool == old(self).pool,
            final(self).candidates == old(self).candidates,
            match pick_in(*old(self), other_slot(old(self).slot)) {
                Some(o) if !is_listed_opponent(elig.rules, elig.divisions@, just_committed@, views(roster@), o@) => {
                    &&& dropped matches Some(d) && d@ == o@
                    &&& pick_in(*final(self), other_slot(old(self).slot)) is None
                    &&& final(self).result is None
                    &&& final(self).error is None
                },
                _ => {
                    &&& dropped is None
                    &&& pick_in(*final(self), other_slot(old(self).slot)) == pick_in(*old(self), other_slot(old(self).slot))
                    &&& final(self).result == old(self).result
                    &&& final(self).error == old(self).error
                },
            },
    {
        let stale: Option<String> = match self.other_committed() {
            Some(o) => {
                if listed_opponent(elig, just_committed, roster, o) {
                    None
                } else {
                    Some(o.to_owned())
                }
            },
            None => None,
        };
        if stale.is_some() {
            match self.slot {
                PredictSlot::A => self.name_b = None,
                PredictSlot::B => self.name_a = None,
            }
            self.result = None;
            self.error = None;
        }
        stale
    }
}

/// The opponents listed for `a` never include `a` itself; each listed name is
/// on the roster, and under a policy it is one the policy allows against `a`.
pub proof fn listed_opponents_are_allowed_others(
    rules: Option<EligibilityRules>,
    divisions: Map<Seq<char>, Vec<Division>>,
    a: Seq<char>,
    roster: Seq<Seq<char>>,
    n: Seq<char>,
)
    ensures
        !is_listed_opponent(rules, divisions, a, roster, a),
        is_listed_opponent(rules, divisions, a, roster, n) ==> {
            &&& roster.contains(n)
            &&& n != a
            &&& (rules matches Some(r) ==> eligible_spec(divisions_of(divisions, a), divisions_of(divisions, n), r))
        },
{
    broadcast use vstd::seq_lib::group_filter_ensures;
    broadcast use vstd::seq::Seq::lemma_filter_contains_rev;
    match rules {
        None => {
            let f = others(roster, a);
            if f.contains(a) {
                let i = choose|i: int| 0 <= i < f.len() && f[i] == a;
                assert(f[i] != a);
            }
            if f.contains(n) {
                let i = choose|i: int| 0 <= i < f.len() && f[i] == n;
                assert(f[i] != a);
            }
        },
        Some(r) => {
            let f = allowed_opponents(roster, a, r, divisions);
            if f.contains(a) {
                let i = choose|i: int| 0 <= i < f.len() && f[i] == a;
                assert(f[i] != a);
            }
            if f.contains(n) {
                let i = choose|i: int| 0 <= i < f.len() && f[i] == n;
                assert(f[i] != a);
                assert(eligible_spec(divisions_of(divisions, a), divisions_of(divisions, f[i]), r));
            }
        },
    }
}

/// The status notice shown when a pick is cleared for eligibility.
pub open spec fn cleared_notice(name: Seq<char>) -> Seq<char> {
    name + " is no longer an eligible opponent — pick cleared."@
}

/// Builds [`cleared_notice`] for `name`.
pub fn cleared_pick_notice(name: &str) -> (s: String)
    ensures
        s@ == cleared_notice(name@),
{
    let mut out = name.to_owned();
    crate::text::push_str(&mut out, " is no longer an eligible opponent — pick cleared.");
    out
}

} // verus!
