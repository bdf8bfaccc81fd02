use mma_tui::db::{latest_card_from, like_pattern, parse_card_number};
use mma_tui::models::EventRow;
use mma_tui::scraper::parse_progress;

#[test]
fn parse_card_number_extracts_numbered_cards() {
    assert_eq!(parse_card_number("UFC 311"), Some(311));
    assert_eq!(parse_card_number("UFC 1"), Some(1));
    assert_eq!(parse_card_number("UFC 300"), Some(300));
}

#[test]
fn parse_card_number_rejects_non_numbered() {
    assert_eq!(parse_card_number("UFC Fight Night"), None);
    assert_eq!(parse_card_number("UFC on ESPN 42"), None);
    assert_eq!(parse_card_number("UFC Fight Night: Smith vs Jones"), None);
    assert_eq!(parse_card_number("PFL 5"), None);
    assert_eq!(parse_card_number("UFC"), None);
}

#[test]
fn parse_card_number_reads_titled_cards() {
    assert_eq!(parse_card_number("UFC 311 Makhachev vs Moicano"), Some(311));
    // The token runs up to whitespace, so a trailing colon spoils it.
    assert_eq!(parse_card_number("UFC 311: Makhachev vs Moicano"), None);
    // Only a token made purely of digits counts: no sign.
    assert_eq!(parse_card_number("UFC +5"), None);
    assert_eq!(parse_card_number("UFC   7"), Some(7));
    assert_eq!(parse_card_number("UFC 4294967295"), Some(4294967295));
    assert_eq!(parse_card_number("UFC 4294967296"), None);
}

#[test]
fn parse_progress_extracts_n_over_m() {
    assert_eq!(parse_progress("saved event 3/12"), Some((3, 12)));
    assert_eq!(parse_progress("event 3 of 12 [3/12] done"), Some((3, 12)));
    assert_eq!(parse_progress("0/5 events"), Some((0, 5)));
}

#[test]
fn parse_progress_rejects_non_progress_lines() {
    assert_eq!(parse_progress("starting scraper..."), None);
    assert_eq!(parse_progress("rate 2.5/s"), None);
    assert_eq!(parse_progress("12/0"), None);
    assert_eq!(parse_progress("13/12"), None);
}

#[test]
fn parse_progress_skips_a_bad_pair_and_takes_the_next() {
    assert_eq!(parse_progress("13/12 then 4/9"), Some((4, 9)));
    assert_eq!(parse_progress("5/ 6/7"), Some((6, 7)));
    assert_eq!(parse_progress(""), None);
    assert_eq!(parse_progress("12/12"), Some((12, 12)));
    // A rejected pair's denominator may start the next pair.
    assert_eq!(parse_progress("5/3/4"), Some((3, 4)));
    assert_eq!(parse_progress("9/0/2"), Some((0, 2)));
    assert_eq!(parse_progress("9/8/7"), None);
}

#[test]
fn like_pattern_escapes_wildcards() {
    assert_eq!(like_pattern("jon"), "%jon%");
    assert_eq!(like_pattern("50%_off\\"), "%50\\%\\_off\\\\%");
    assert_eq!(like_pattern(""), "%%");
}

#[test]
fn latest_card_reads_the_number_from_the_title() {
    let row = EventRow { event_id: 9, title: "UFC 311".into(), date: Some("2025-01-18".into()), location: None };
    let card = latest_card_from(row);
    assert_eq!(card.number, Some(311));
    assert_eq!(card.event_id, 9);
    let billed = EventRow {
        event_id: 7,
        title: "UFC 311: Makhachev vs Moicano".into(),
        date: Some("2025-01-18".into()),
        location: Some("Inglewood, USA".into()),
    };
    let card = latest_card_from(billed);
    assert_eq!(card.number, Some(311));
    assert_eq!(card.title, "UFC 311: Makhachev vs Moicano");
    assert_eq!(card.location.as_deref(), Some("Inglewood, USA"));
    let named = EventRow { event_id: 3, title: "UFC Fight Night".into(), date: None, location: None };
    assert_eq!(latest_card_from(named).number, None);
}
