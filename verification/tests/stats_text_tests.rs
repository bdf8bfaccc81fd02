use mma_tui::stats_text::{canonical, explain};

const SUPPORTED_KEYS: &[&str] = &[
    "slpm",
    "str_acc",
    "sapm",
    "str_def",
    "td_avg",
    "td_acc",
    "td_def",
    "sub_avg",
    "elo",
    "age",
    "record",
    "reach_in",
    "height_in",
    "stance",
    "recent_winrate",
    "form_delta",
    "layoff_days",
    "win_probability",
];

#[test]
fn aliases_resolve() {
    assert_eq!(canonical("prob_a"), "win_probability");
    assert_eq!(canonical("reach"), "reach_in");
    assert_eq!(canonical("slpm"), "slpm");
}

#[test]
fn every_supported_key_has_nonempty_explanation() {
    for &key in SUPPORTED_KEYS {
        let text = explain(key);
        assert!(!text.trim().is_empty(), "explain({key:?}) returned an empty/whitespace string");
        assert!(text.len() > 15, "explain({key:?}) is suspiciously short: {text:?}");
    }
}

#[test]
fn explanations_are_distinct_per_key() {
    let mut seen = std::collections::HashSet::new();
    for &key in SUPPORTED_KEYS {
        seen.insert(explain(key));
    }
    assert_eq!(seen.len(), SUPPORTED_KEYS.len(), "some supported keys share the same explanation");
}

#[test]
fn unknown_key_returns_nonempty_fallback() {
    let text = explain("totally_made_up_stat");
    assert!(!text.trim().is_empty());
}

#[test]
fn aliases_for_win_probability_explain_the_same_thing() {
    let canonical_text = explain("win_probability");
    for alias in ["win_prob", "probability", "prob_a", "prob_b", "prob"] {
        assert_eq!(explain(alias), canonical_text, "alias {alias:?} should map to the win-probability explanation");
    }
}

#[test]
fn other_aliases_and_idempotence() {
    assert_eq!(canonical("height"), "height_in");
    assert_eq!(canonical("winrate"), "recent_winrate");
    assert_eq!(canonical("unknown_key"), "unknown_key");
    for &key in SUPPORTED_KEYS {
        assert_eq!(canonical(canonical(key)), canonical(key));
    }
    assert_eq!(explain("reach"), explain("reach_in"));
    assert_eq!(
        explain("nothing_here"),
        "A fighter statistic (no plain-English description available)."
    );
}
