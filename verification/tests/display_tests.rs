use mma_tui::display::{
    count_text, coverage_text, round_summary, event_card_title, fight_detail, finish_summary, friendly_label, full_chip_text, limit_chip_text,
    limit_text, menu_labels, mmss, on_off, opponent_of, opt_lbs, outcome_for, poster_headline, record_line,
    subtitle, summary_text, Outcome,
};
use mma_tui::models::{DbSummary, EventRow, FightRow, LatestCard};

fn fight() -> FightRow {
    FightRow {
        fight_id: 1,
        event_id: Some(1),
        event_name: None,
        date: Some("2025-01-18".into()),
        winner_name: Some("Islam Makhachev".into()),
        loser_name: Some("Renato Moicano".into()),
        weight_class: Some("Lightweight".into()),
        title_bout: 1,
        method: Some("Submission".into()),
        round_ended: 1,
        time_ended: 222,
        referee: None,
    }
}

fn bout(winner: Option<&str>, loser: Option<&str>) -> FightRow {
    FightRow {
        fight_id: 1,
        event_id: Some(1),
        event_name: None,
        date: Some("2023-04-08".into()),
        winner_name: winner.map(str::to_string),
        loser_name: loser.map(str::to_string),
        weight_class: Some("Middleweight".into()),
        title_bout: 1,
        method: Some("KO/TKO".into()),
        round_ended: 2,
        time_ended: 271,
        referee: None,
    }
}

#[test]
fn mmss_formats() {
    assert_eq!(mmss(0), "0:00");
    assert_eq!(mmss(9), "0:09");
    assert_eq!(mmss(222), "3:42");
    assert_eq!(mmss(-5), "0:00");
}

#[test]
fn mmss_formats_whole_seconds_of_a_bout() {
    assert_eq!(mmss(0), "0:00");
    assert_eq!(mmss(9), "0:09");
    assert_eq!(mmss(135), "2:15");
}

#[test]
fn mmss_handles_whole_minutes_and_long_bouts() {
    assert_eq!(mmss(60), "1:00");
    assert_eq!(mmss(1500), "25:00");
    assert_eq!(mmss(i64::MIN), "0:00");
}

#[test]
fn fight_detail_skips_empty_parts() {
    let fr = FightRow { method: None, round_ended: 0, time_ended: 0, weight_class: None, ..fight() };
    assert_eq!(fight_detail(&fr), "");
}

#[test]
fn fight_detail_joins_every_known_part() {
    assert_eq!(fight_detail(&fight()), "· Submission · R1 3:42 · [Lightweight]");
    let only_method = FightRow { round_ended: 0, weight_class: Some(String::new()), ..fight() };
    assert_eq!(fight_detail(&only_method), "· Submission");
}

#[test]
fn event_card_title_adds_a_known_location() {
    let e = EventRow {
        event_id: 1,
        title: "UFC 311".into(),
        date: None,
        location: Some("Inglewood, USA".into()),
    };
    assert_eq!(event_card_title(&e), "UFC 311 — Inglewood, USA");
    let bare = EventRow { location: Some(String::new()), ..e };
    assert_eq!(event_card_title(&bare), "UFC 311");
}

#[test]
fn record_line_starts_with_record_and_includes_nc() {
    let s = record_line(24, 4, 0, 1);
    assert!(s.starts_with("Record:"), "got: {s}");
    assert!(s.contains("24-4-0"));
    assert!(s.contains("(1 NC)"));
}

#[test]
fn record_line_omits_nc_when_zero() {
    assert_eq!(record_line(24, 4, 0, 0), "Record: 24-4-0");
}

#[test]
fn outcome_is_perspective_relative() {
    let me = "Israel Adesanya";
    assert_eq!(outcome_for(me, &bout(Some(me), Some("Alex Pereira"))), Outcome::Win);
    assert_eq!(outcome_for(me, &bout(Some("Alex Pereira"), Some(me))), Outcome::Loss);
    assert_eq!(outcome_for(me, &bout(None, None)), Outcome::Other);
}

#[test]
fn opponent_is_the_other_corner() {
    let me = "Israel Adesanya";
    assert_eq!(opponent_of(me, &bout(Some(me), Some("Alex Pereira"))), Some("Alex Pereira".to_string()));
    assert_eq!(opponent_of(me, &bout(Some("Alex Pereira"), Some(me))), Some("Alex Pereira".to_string()));
}

#[test]
fn opponent_is_none_without_another_named_corner() {
    let me = "Israel Adesanya";
    assert_eq!(opponent_of(me, &bout(None, None)), None);
    assert_eq!(opponent_of(me, &bout(Some(me), None)), None);
}

#[test]
fn finish_summary_prefers_title_wins() {
    assert!(finish_summary(24, 4, 0, 1, 5).contains("5 title wins"));
    assert!(finish_summary(24, 4, 0, 1, 0).contains("pro bouts"));
    assert_eq!(finish_summary(0, 0, 0, 0, 0), "no recorded bouts");
}

#[test]
fn finish_summary_exact_wording() {
    assert_eq!(finish_summary(24, 4, 0, 1, 5), "5 title wins");
    assert_eq!(finish_summary(3, 0, 0, 0, 1), "1 title win");
    assert_eq!(finish_summary(24, 4, 0, 1, 0), "29 pro bouts on record");
}

#[test]
fn opt_lbs_renders_or_dashes() {
    assert_eq!(opt_lbs(Some(185)), "185 lbs");
    assert_eq!(opt_lbs(None), "—");
}

#[test]
fn menu_labels_are_the_four_options_in_order() {
    assert_eq!(menu_labels(), vec!["Scrape", "Database", "Predict", "Model"]);
}

#[test]
fn poster_headline_shouts_card_number_when_numbered() {
    let card = LatestCard {
        event_id: 1,
        title: "UFC 311: Makhachev vs Moicano".into(),
        date: Some("2025-01-18".into()),
        location: Some("Inglewood, USA".into()),
        number: Some(311),
    };
    assert_eq!(poster_headline(&card), "UFC 311");
    assert_eq!(subtitle(&card), Some("2025-01-18 · Inglewood, USA".to_string()));
}

#[test]
fn poster_headline_falls_back_to_title_when_unnumbered() {
    let card = LatestCard {
        event_id: 2,
        title: "UFC Fight Night: Smith vs Jones".into(),
        date: None,
        location: Some("Las Vegas, USA".into()),
        number: None,
    };
    assert_eq!(poster_headline(&card), "UFC Fight Night: Smith vs Jones");
    assert_eq!(subtitle(&card), Some("Las Vegas, USA".to_string()));
}

#[test]
fn subtitle_is_none_when_nothing_known() {
    let card = LatestCard { event_id: 3, title: "UFC 1".into(), date: None, location: None, number: Some(1) };
    assert_eq!(subtitle(&card), None);
    let card2 = LatestCard { date: Some(String::new()), location: Some(String::new()), ..card };
    assert_eq!(subtitle(&card2), None);
}

#[test]
fn subtitle_with_only_a_date() {
    let card = LatestCard {
        event_id: 4,
        title: "UFC 2".into(),
        date: Some("1994-03-11".into()),
        location: Some(String::new()),
        number: Some(2),
    };
    assert_eq!(subtitle(&card), Some("1994-03-11".to_string()));
}

#[test]
fn summary_text_reuses_counts() {
    let s = DbSummary { n_fighters: 4, n_events: 2, n_fights: 9, ..Default::default() };
    assert_eq!(summary_text(&s), "Database: 4 fighters · 2 events · 9 fights");
}

#[test]
fn count_text_pluralizes_all_but_one() {
    assert_eq!(count_text(1, "fight"), "1 fight");
    assert_eq!(count_text(0, "fight"), "0 fights");
    assert_eq!(count_text(12, "event"), "12 events");
}

#[test]
fn friendly_labels_known_and_passthrough() {
    assert_eq!(friendly_label("test_accuracy"), "Test accuracy");
    assert_eq!(friendly_label("best_model"), "Best model");
    assert_eq!(friendly_label("something_else"), "something_else");
}

#[test]
fn full_chip_reads_on_or_off() {
    assert_eq!(full_chip_text(true), "Full: ON");
    assert_eq!(full_chip_text(false), "Full: OFF");
}

#[test]
fn limit_chip_shows_value_or_none() {
    assert_eq!(limit_chip_text(Some(250)), "Limit: 250");
    assert_eq!(limit_chip_text(None), "Limit: none");
    assert_eq!(limit_text(Some(7)), "7");
}

#[test]
fn on_off_maps_bool() {
    assert_eq!(on_off(true), "ON");
    assert_eq!(on_off(false), "OFF");
}

#[test]
fn round_summary_lists_key_counters() {
    let s = round_summary(Some("Islam Makhachev"), Some(1), 12, 20, 1, 2, 1, 184);
    assert!(s.contains("Islam Makhachev  R1"));
    assert!(s.contains("sig 12/20"));
    assert!(s.contains("td 1/2"));
    assert!(s.contains("kd 1"));
    assert!(s.contains("ctrl 3:04"));
    assert_eq!(round_summary(None, None, 0, 0, 0, 0, 0, -3), "?  R0  sig 0/0  td 0/0  kd 0  ctrl 0:00");
}

#[test]
fn coverage_names_the_dated_span() {
    let d = |s: &str| Some(s.to_string());
    assert_eq!(coverage_text(&d("1993-11-12"), &d("2025-01-18")), "Coverage: 1993-11-12 → 2025-01-18");
    assert_eq!(coverage_text(&d("2025-01-18"), &d("2025-01-18")), "Coverage: 2025-01-18");
    assert_eq!(coverage_text(&None, &d("2025-01-18")), "Coverage: (no dated events)");
}
