use mma_tui::fuzzy::{rank, rank_scored};

fn names(list: &[&str]) -> Vec<String> {
    list.iter().map(|s| s.to_string()).collect()
}

#[test]
fn empty_query_returns_all_in_order_with_zero_scores() {
    let input = names(&["Charlie", "Alpha", "Bravo"]);
    let out = rank_scored(&input, "");
    assert_eq!(
        out,
        vec![
            ("Charlie".to_string(), 0),
            ("Alpha".to_string(), 0),
            ("Bravo".to_string(), 0),
        ]
    );
}

#[test]
fn whitespace_query_is_treated_as_empty() {
    let input = names(&["Charlie", "Alpha", "Bravo"]);
    assert_eq!(rank(&input, "   "), input);
}

#[test]
fn rank_strips_scores_but_keeps_order() {
    let input = names(&["Jon Jones", "Junior dos Santos"]);
    let scored = rank_scored(&input, "jon");
    let plain = rank(&input, "jon");
    let from_scored: Vec<String> = scored.into_iter().map(|(n, _)| n).collect();
    assert_eq!(plain, from_scored);
}

#[test]
fn empty_query_returns_all_in_original_order() {
    let input = names(&["Zulu", "Alpha", "Mike", "Bravo"]);
    let out = rank(&input, "");
    assert_eq!(out, input, "empty query must return every name, order preserved");
}

#[test]
fn whitespace_only_query_returns_all() {
    let input = names(&["Zulu", "Alpha", "Mike"]);
    assert_eq!(rank(&input, "\t  \n"), input);
}

#[test]
fn empty_query_against_empty_list_is_empty() {
    let input: Vec<String> = Vec::new();
    assert!(rank(&input, "").is_empty());
}

#[test]
fn no_match_returns_empty() {
    let input = names(&["Jon Jones", "Israel Adesanya", "Alex Pereira"]);
    let out = rank(&input, "zzzqxw");
    assert!(out.is_empty(), "a query that matches nothing yields no results");
}

#[test]
fn case_insensitive_matching() {
    let input = names(&["Conor McGregor"]);
    assert_eq!(rank(&input, "CONOR"), names(&["Conor McGregor"]));
    assert_eq!(rank(&input, "mcgregor"), names(&["Conor McGregor"]));
    assert_eq!(rank(&input, "McGrEgOr"), names(&["Conor McGregor"]));
}

#[test]
fn case_does_not_change_match_set() {
    let input = names(&["Khabib Nurmagomedov", "Justin Gaethje", "Dustin Poirier"]);
    let lower = rank(&input, "dustin");
    let upper = rank(&input, "DUSTIN");
    assert_eq!(lower, upper);
    assert_eq!(lower, names(&["Dustin Poirier"]));
}

#[test]
fn prefix_match_beats_scattered_match() {
    let input = names(&["Junior dos Santos", "Jon Jones"]);
    let out = rank(&input, "jon");
    assert_eq!(out.first().map(String::as_str), Some("Jon Jones"));

    let scored = rank_scored(&input, "jon");
    let jon = scored.iter().find(|(n, _)| n == "Jon Jones").unwrap().1;
    let junior = scored.iter().find(|(n, _)| n == "Junior dos Santos").unwrap().1;
    assert!(jon > junior, "prefix score ({jon}) should exceed scattered score ({junior})");
}

#[test]
fn exact_match_holds_top_score_and_beats_partial() {
    let input = names(&["Jon Smith", "Jon Jones"]);
    let scored = rank_scored(&input, "Jon Jones");

    assert_eq!(
        scored.first().map(|(n, _)| n.as_str()),
        Some("Jon Jones"),
        "the contiguous full match must be first"
    );

    let exact = scored.iter().find(|(n, _)| n == "Jon Jones").unwrap().1;
    if let Some((_, partial)) = scored.iter().find(|(n, _)| n == "Jon Smith") {
        assert!(exact > *partial, "exact full match ({exact}) must beat partial match ({partial})");
    }
    let best = scored.iter().map(|(_, s)| *s).max().unwrap();
    assert_eq!(exact, best, "exact full match should hold the top score");
}

#[test]
fn results_are_sorted_descending_by_score() {
    let input = names(&["Alexander Volkanovski", "Max Holloway", "Alex Volkov", "Brian Ortega"]);
    let scored = rank_scored(&input, "vol");
    for pair in scored.windows(2) {
        assert!(pair[0].1 >= pair[1].1, "scores not in descending order: {scored:?}");
    }
}

#[test]
fn adesa_surfaces_israel_adesanya() {
    let roster = names(&[
        "Israel Adesanya",
        "Alex Pereira",
        "Sean Strickland",
        "Dricus du Plessis",
        "Robert Whittaker",
    ]);
    let out = rank(&roster, "adesa");
    assert_eq!(
        out.first().map(String::as_str),
        Some("Israel Adesanya"),
        "the classic 'adesa' -> 'Israel Adesanya' lookup must work"
    );
    assert_eq!(out, names(&["Israel Adesanya"]));
}

#[test]
fn rank_and_rank_scored_agree_on_ordering() {
    let input = names(&["Daniel Cormier", "Cain Velasquez", "Stipe Miocic"]);
    let plain = rank(&input, "ci");
    let from_scored: Vec<String> = rank_scored(&input, "ci").into_iter().map(|(n, _)| n).collect();
    assert_eq!(plain, from_scored);
}

#[test]
fn ties_preserve_original_order_for_duplicates() {
    let input = names(&["Test Fighter", "Other Guy", "Test Fighter"]);
    let scored = rank_scored(&input, "test fighter");
    let kept: Vec<&str> = scored
        .iter()
        .filter(|(n, _)| n == "Test Fighter")
        .map(|(n, _)| n.as_str())
        .collect();
    assert_eq!(kept, vec!["Test Fighter", "Test Fighter"]);
}

#[test]
fn every_ranked_entry_is_a_scored_input_name() {
    let input = names(&["Alexander Volkanovski", "Max Holloway", "Alex Volkov", "Brian Ortega"]);
    let scored = rank_scored(&input, "vol");
    assert!(!scored.is_empty());
    for (name, _score) in &scored {
        assert!(input.contains(name));
    }
    // Max Holloway and Brian Ortega do not contain v-o-l in order.
    assert!(scored.iter().all(|(n, _)| n != "Max Holloway" && n != "Brian Ortega"));
}

#[test]
fn ranking_differs_from_the_input_when_the_query_filters() {
    let input = names(&["Max Holloway", "Alex Volkov"]);
    assert_eq!(rank(&input, "volkov"), names(&["Alex Volkov"]));
}
