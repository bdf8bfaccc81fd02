use mma_tui::app::{EventFightsState, EventsState, FighterSearchState, Screen};
use mma_tui::models::{EventRow, FightRow};
use mma_tui::nav::{
    backspace, event_fights_key, events_key, job_key, model_key, route, scrape_key, search_key, CardAction,
    JobKeyAction, Key, KeyPress, ModelKeyAction, Nav, Route, ScrapeKeyAction, SearchAction,
};

fn press(key: Key) -> KeyPress {
    KeyPress { key, ctrl: false, press: true }
}

#[test]
fn nav_starts_at_home_and_pops_back_to_it() {
    let mut nav = Nav::new();
    assert_eq!(nav.current(), &Screen::Home);
    nav.push(Screen::Database);
    nav.push(Screen::FighterSearch);
    assert_eq!(nav.current(), &Screen::FighterSearch);
    assert!(nav.pop());
    assert_eq!(nav.current(), &Screen::Database);
    assert!(nav.pop());
    assert_eq!(nav.current(), &Screen::Home);
    assert!(!nav.pop(), "popping at the root is a no-op");
    assert_eq!(nav.stack, vec![Screen::Home]);
}

#[test]
fn go_home_truncates_to_the_root_and_resets_the_menu() {
    let mut nav = Nav::new();
    nav.home_key(Key::Down);
    nav.home_key(Key::Down);
    assert_eq!(nav.home_selected, 2);
    nav.push(Screen::Database);
    nav.push(Screen::Events);
    nav.push(Screen::EventFights { event_id: 7 });
    nav.go_home();
    assert_eq!(nav.stack, vec![Screen::Home]);
    assert_eq!(nav.home_selected, 0);
}

#[test]
fn home_menu_moves_clamp_and_enter_opens_the_entry() {
    let mut nav = Nav::new();
    assert_eq!(nav.home_key(Key::Up), None);
    assert_eq!(nav.home_selected, 0);
    for _ in 0..10 {
        nav.home_key(Key::Down);
    }
    assert_eq!(nav.home_selected, 3);
    assert_eq!(nav.home_key(Key::Enter), Some(Screen::Model));
    nav.home_key(Key::Up);
    nav.home_key(Key::Up);
    assert_eq!(nav.home_key(Key::Enter), Some(Screen::Database));
    assert_eq!(nav.home_key(Key::Char('x')), None);
}

#[test]
fn database_menu_resets_on_entry() {
    let mut nav = Nav::new();
    nav.push(Screen::Database);
    nav.database_key(Key::Down);
    assert_eq!(nav.database_selected, 1);
    assert_eq!(nav.database_key(Key::Enter), Some(Screen::FighterSearch));
    nav.push(Screen::FighterSearch);
    nav.pop();
    assert_eq!(nav.database_selected, 0, "coming back to Database resets its highlight");
    assert_eq!(nav.database_key(Key::Enter), Some(Screen::Events));
}

#[test]
fn routing_follows_the_global_bindings() {
    let ctrl_c = KeyPress { key: Key::Char('c'), ctrl: true, press: true };
    assert_eq!(route(ctrl_c, &Screen::Home, true), Route::Quit);
    let release = KeyPress { key: Key::Char('q'), ctrl: false, press: false };
    assert_eq!(route(release, &Screen::Home, false), Route::Ignore);
    assert_eq!(route(press(Key::Char('q')), &Screen::Home, true), Route::JobOverlay);
    assert_eq!(route(press(Key::Char('q')), &Screen::Events, false), Route::Quit);
    assert_eq!(route(press(Key::Home), &Screen::Events, false), Route::GoHome);
    assert_eq!(route(press(Key::Esc), &Screen::Predict, false), Route::Pop);
    assert_eq!(route(press(Key::Backspace), &Screen::Events, false), Route::Pop);
    assert_eq!(route(press(Key::Backspace), &Screen::FighterSearch, false), Route::Screen);
    assert_eq!(route(press(Key::Backspace), &Screen::Predict, false), Route::Screen);
    assert_eq!(route(press(Key::Char('a')), &Screen::Predict, false), Route::Screen);
}

#[test]
fn job_overlay_keys() {
    assert_eq!(job_key(Key::Char('q'), false), JobKeyAction::Quit);
    assert_eq!(job_key(Key::Esc, false), JobKeyAction::Nothing);
    assert_eq!(job_key(Key::Esc, true), JobKeyAction::Dismiss);
    assert_eq!(job_key(Key::Enter, true), JobKeyAction::Dismiss);
    assert_eq!(job_key(Key::Home, true), JobKeyAction::DismissAndGoHome);
    assert_eq!(job_key(Key::Home, false), JobKeyAction::Nothing);
}

#[test]
fn events_enter_opens_the_highlighted_card() {
    let ev = |id: i64| EventRow { event_id: id, title: format!("UFC {id}"), date: None, location: None };
    let mut st = EventsState { events: vec![ev(311), ev(310)], selected: 0 };
    assert_eq!(events_key(&mut st, Key::Down), None);
    assert_eq!(st.selected, 1);
    assert_eq!(events_key(&mut st, Key::Enter), Some(Screen::EventFights { event_id: 310 }));
    let mut empty = EventsState::default();
    assert_eq!(events_key(&mut empty, Key::Enter), None);
}

#[test]
fn card_enter_opens_the_winner_else_the_loser() {
    let fight = |w: Option<&str>, l: Option<&str>| FightRow {
        fight_id: 1,
        event_id: Some(1),
        event_name: None,
        date: None,
        winner_name: w.map(str::to_string),
        loser_name: l.map(str::to_string),
        weight_class: None,
        title_bout: 0,
        method: None,
        round_ended: 0,
        time_ended: 0,
        referee: None,
    };
    let mut st = EventFightsState::<()>::default();
    st.fights = vec![fight(Some("A"), Some("B")), fight(Some(""), Some("C")), fight(None, None)];
    assert_eq!(
        event_fights_key(&mut st, Key::Enter),
        CardAction::Open(Screen::Fighter { name: "A".to_string() })
    );
    assert_eq!(event_fights_key(&mut st, Key::Down), CardAction::Moved);
    assert_eq!(
        event_fights_key(&mut st, Key::Enter),
        CardAction::Open(Screen::Fighter { name: "C".to_string() })
    );
    event_fights_key(&mut st, Key::Down);
    assert_eq!(event_fights_key(&mut st, Key::Enter), CardAction::Nothing);
    assert_eq!(event_fights_key(&mut st, Key::Char('z')), CardAction::Nothing);
}

#[test]
fn search_keys_edit_the_query_and_open_a_fighter() {
    let mut st = FighterSearchState::default();
    assert_eq!(search_key(&mut st, Key::Char('j')), SearchAction::QueryChanged);
    assert_eq!(search_key(&mut st, Key::Char('ö')), SearchAction::QueryChanged);
    assert_eq!(st.query, "jö");
    assert_eq!(search_key(&mut st, Key::Backspace), SearchAction::QueryChanged);
    assert_eq!(st.query, "j");
    assert_eq!(search_key(&mut st, Key::Enter), SearchAction::Nothing);
    st.filtered = vec!["Jon Jones".to_string()];
    assert_eq!(
        search_key(&mut st, Key::Enter),
        SearchAction::Open(Screen::Fighter { name: "Jon Jones".to_string() })
    );
    let mut s = String::new();
    backspace(&mut s);
    assert_eq!(s, "");
}

#[test]
fn scrape_and_model_bindings() {
    assert_eq!(scrape_key(Key::Char('f')), ScrapeKeyAction::ToggleFull);
    assert_eq!(scrape_key(Key::Char('+')), ScrapeKeyAction::BumpLimit(50));
    assert_eq!(scrape_key(Key::Char('=')), ScrapeKeyAction::BumpLimit(50));
    assert_eq!(scrape_key(Key::Char('-')), ScrapeKeyAction::BumpLimit(-50));
    assert_eq!(scrape_key(Key::Char('_')), ScrapeKeyAction::BumpLimit(-50));
    assert_eq!(scrape_key(Key::Char('[')), ScrapeKeyAction::BumpRate(false));
    assert_eq!(scrape_key(Key::Char(']')), ScrapeKeyAction::BumpRate(true));
    assert_eq!(scrape_key(Key::Char('r')), ScrapeKeyAction::Run);
    assert_eq!(scrape_key(Key::Enter), ScrapeKeyAction::Run);
    assert_eq!(scrape_key(Key::Char('c')), ScrapeKeyAction::Nothing);
    assert_eq!(model_key(Key::Char('r')), ModelKeyAction::Refresh);
    assert_eq!(model_key(Key::Char('l')), ModelKeyAction::Reload);
    assert_eq!(model_key(Key::Char('t')), ModelKeyAction::Train);
    assert_eq!(model_key(Key::Enter), ModelKeyAction::Train);
    assert_eq!(model_key(Key::Up), ModelKeyAction::Nothing);
}
