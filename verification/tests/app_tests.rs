use std::sync::mpsc;

use mma_tui::app::{
    bump_limit_value, EventFightsState, EventsState, FighterSearchState, PredictSlot,
    PredictState, Screen, DATABASE_MENU, HOME_MENU,
};
use mma_tui::jobs::{JobKind, JobMsg, JobStatus, RunningJob};
use mma_tui::models::{EventRow, FightRow};

fn names(v: &[&str]) -> Vec<String> {
    v.iter().map(|s| s.to_string()).collect()
}

#[test]
fn screen_titles_are_stable() {
    assert_eq!(Screen::Home.title(), "Home");
    assert_eq!(Screen::Database.title(), "Database");
    assert_eq!(Screen::EventFights { event_id: 1 }.title(), "Fight card");
    assert_eq!(
        Screen::Fighter {
            name: "Jon Jones".into()
        }
        .title(),
        "Jon Jones"
    );
}

#[test]
fn footer_hints_name_the_screen_keys() {
    assert_eq!(Screen::Home.footer_hint(), "↑↓ move · ⏎ select · q Quit");
    assert_eq!(Screen::Fighter { name: "X".into() }.footer_hint(), "Esc Back · Home · q Quit");
    assert!(Screen::Model.footer_hint().starts_with("t train"));
}

#[test]
fn nav_stack_push_pop_home_semantics() {
    let mut nav = vec![Screen::Home];
    nav.push(Screen::Database);
    nav.push(Screen::FighterSearch);
    assert_eq!(nav.last(), Some(&Screen::FighterSearch));
    nav.pop();
    assert_eq!(nav.last(), Some(&Screen::Database));
    nav.truncate(1);
    assert_eq!(nav, vec![Screen::Home]);
    if nav.len() > 1 {
        nav.pop();
    }
    assert_eq!(nav, vec![Screen::Home]);
}

#[test]
fn home_menu_has_four_entries_in_order() {
    let labels: Vec<&str> = HOME_MENU.iter().map(|(k, _)| *k).collect();
    assert_eq!(labels, vec!["Scrape", "Database", "Predict", "Model"]);
}

#[test]
fn database_menu_has_two_paths() {
    let labels: Vec<&str> = DATABASE_MENU.iter().map(|(k, _)| *k).collect();
    assert_eq!(labels, vec!["Browse events", "Find a fighter"]);
}

#[test]
fn home_menu_selection_clamps() {
    let mut sel: usize = 0;
    sel = sel.saturating_sub(1);
    assert_eq!(sel, 0);
    for _ in 0..10 {
        if sel + 1 < HOME_MENU.len() {
            sel += 1;
        }
    }
    assert_eq!(sel, HOME_MENU.len() - 1);
}

#[test]
fn search_selection_bounds() {
    let mut s = FighterSearchState {
        filtered: names(&["a", "b", "c"]),
        ..Default::default()
    };
    s.select_prev();
    assert_eq!(s.selected, 0);
    s.select_next();
    s.select_next();
    s.select_next();
    assert_eq!(s.selected, 2);
    assert_eq!(s.selected_name(), Some("c"));
    s.filtered = names(&["a"]);
    s.clamp_selection();
    assert_eq!(s.selected, 0);
}

#[test]
fn search_selection_on_empty_list() {
    let mut s = FighterSearchState::default();
    s.select_next();
    assert_eq!(s.selected, 0);
    assert_eq!(s.selected_name(), None);
    s.selected = 7;
    s.clamp_selection();
    assert_eq!(s.selected, 0);
}

#[test]
fn events_selection_bounds() {
    let mut e = EventsState {
        events: vec![
            EventRow {
                event_id: 1,
                title: "UFC 1".into(),
                date: None,
                location: None,
            },
            EventRow {
                event_id: 2,
                title: "UFC 2".into(),
                date: None,
                location: None,
            },
        ],
        ..EventsState::default()
    };
    e.select_next();
    e.select_next();
    assert_eq!(e.selected, 1);
    assert_eq!(e.selected_event().map(|x| x.event_id), Some(2));
}

fn fight_row() -> FightRow {
    FightRow {
        fight_id: 7,
        event_id: Some(1),
        event_name: None,
        date: None,
        winner_name: Some("Winner".into()),
        loser_name: Some("Loser".into()),
        weight_class: None,
        title_bout: 0,
        method: None,
        round_ended: 1,
        time_ended: 0,
        referee: None,
    }
}

#[test]
fn event_fights_default_opens_winner_then_loser() {
    let mut ef = EventFightsState::<()> {
        fights: vec![fight_row()],
        ..Default::default()
    };
    assert_eq!(ef.selected_fighter_name(), Some("Winner"));
    ef.fights[0].winner_name = Some(String::new());
    assert_eq!(ef.selected_fighter_name(), Some("Loser"));
}

#[test]
fn event_fights_with_no_named_corner_opens_nothing() {
    let mut ef = EventFightsState::<()> {
        fights: vec![fight_row()],
        ..Default::default()
    };
    ef.fights[0].winner_name = None;
    ef.fights[0].loser_name = Some(String::new());
    assert_eq!(ef.selected_fighter_name(), None);
    ef.selected = 3;
    assert_eq!(ef.selected_fighter_name(), None);
    ef.clamp_selection();
    assert_eq!(ef.selected, 0);
}

#[test]
fn predict_toggle_and_commit_flow() {
    let mut p = PredictState::<()>::default();
    assert_eq!(p.slot, PredictSlot::A);
    p.candidates = names(&["Jon Jones", "Jan Blachowicz"]);
    p.selected = 1;
    assert_eq!(p.highlighted_candidate(), Some("Jan Blachowicz"));

    p.commit_slot("Jan Blachowicz".to_string());
    assert_eq!(p.name_a.as_deref(), Some("Jan Blachowicz"));
    p.advance_after_commit();
    assert_eq!(p.slot, PredictSlot::B);

    p.candidates = names(&["Jon Jones"]);
    p.selected = 0;
    p.commit_slot("Jon Jones".to_string());
    assert!(p.both_selected());
}

#[test]
fn predict_other_and_focused_committed_track_the_slot() {
    let mut p = PredictState::<()> {
        name_a: Some("Alex".into()),
        name_b: Some("Bob".into()),
        ..Default::default()
    };
    p.slot = PredictSlot::A;
    assert_eq!(p.focused_committed(), Some("Alex"));
    assert_eq!(p.other_committed(), Some("Bob"));
    p.slot = PredictSlot::B;
    assert_eq!(p.focused_committed(), Some("Bob"));
    assert_eq!(p.other_committed(), Some("Alex"));
}

#[test]
fn set_pool_keeps_an_eligible_focused_pick() {
    let mut p = PredictState::<()> {
        slot: PredictSlot::B,
        name_a: Some("Alex".into()),
        name_b: Some("Bob".into()),
        ..Default::default()
    };
    let dropped = p.set_pool(names(&["Bob", "Cara"]));
    assert_eq!(dropped, None);
    assert_eq!(p.name_b.as_deref(), Some("Bob"));
    assert_eq!(p.pool, names(&["Bob", "Cara"]));
}

#[test]
fn set_pool_clears_a_now_ineligible_focused_pick() {
    let mut p = PredictState::<()> {
        slot: PredictSlot::B,
        name_a: Some("Alex".into()),
        name_b: Some("Bob".into()),
        query: "bo".into(),
        selected: 3,
        result: None,
        error: Some("stale".into()),
        ..Default::default()
    };
    let dropped = p.set_pool(names(&["Cara", "Dana"]));
    assert_eq!(dropped.as_deref(), Some("Bob"));
    assert_eq!(p.name_b, None);
    assert_eq!(p.query, "");
    assert_eq!(p.selected, 0);
    assert_eq!(p.error, None);
    assert_eq!(p.name_a.as_deref(), Some("Alex"));
}

#[test]
fn set_pool_leaves_an_empty_focused_slot_alone() {
    let mut p = PredictState::<()> {
        slot: PredictSlot::A,
        name_b: Some("Bob".into()),
        ..Default::default()
    };
    let dropped = p.set_pool(names(&["X", "Y", "Z"]));
    assert_eq!(dropped, None);
    assert_eq!(p.name_a, None);
    assert_eq!(p.pool, names(&["X", "Y", "Z"]));
}

#[test]
fn set_pool_clears_the_result_with_the_dropped_pick() {
    let mut p = PredictState::<u8> {
        slot: PredictSlot::A,
        name_a: Some("Ann".into()),
        result: Some(7),
        ..Default::default()
    };
    assert_eq!(p.set_pool(names(&["Bea"])).as_deref(), Some("Ann"));
    assert_eq!(p.result, None);
}

#[test]
fn predict_slot_other_swaps() {
    assert_eq!(PredictSlot::A.other(), PredictSlot::B);
    assert_eq!(PredictSlot::B.other(), PredictSlot::A);
    assert_eq!(PredictSlot::A.other().other(), PredictSlot::A);
}

#[test]
fn toggle_slot_resets_query_and_highlight() {
    let mut p = PredictState::<()> {
        query: "jo".into(),
        selected: 4,
        ..Default::default()
    };
    p.toggle_slot();
    assert_eq!(p.slot, PredictSlot::B);
    assert_eq!(p.query, "");
    assert_eq!(p.selected, 0);
}

#[test]
fn scrape_limit_bumps() {
    let mut limit = None;
    limit = bump_limit_value(limit, 50);
    limit = bump_limit_value(limit, 50);
    assert_eq!(limit, Some(100));
    limit = bump_limit_value(limit, -200);
    assert_eq!(limit, None);
    assert_eq!(bump_limit_value(Some(10), -10), None);
    assert_eq!(bump_limit_value(Some(10), -3), Some(7));
}

#[test]
fn job_lifecycle_running_to_done() {
    let (tx, rx) = mpsc::channel();
    let mut job = RunningJob::new(JobKind::Scrape, rx);
    assert_eq!(job.status, JobStatus::Running);
    assert!(!job.status.is_finished());

    tx.send(JobMsg::Line("saved event 1/2".into())).unwrap();
    tx.send(JobMsg::Progress(1, 2)).unwrap();
    tx.send(JobMsg::Done(true)).unwrap();

    let completed = job.drain();
    assert_eq!(completed, Some(true));
    assert_eq!(job.status, JobStatus::Done);
    assert!(job.status.is_finished());
    assert_eq!(job.progress, Some((1, 2)));
    assert!(job.log.iter().any(|l| l.contains("saved event 1/2")));
}

#[test]
fn job_lifecycle_failure_marks_failed() {
    let (tx, rx) = mpsc::channel();
    let mut job = RunningJob::new(JobKind::Train, rx);
    tx.send(JobMsg::Done(false)).unwrap();
    assert_eq!(job.drain(), Some(false));
    assert_eq!(job.status, JobStatus::Failed);
}
