use mma_tui::anim::{animating, frame_at_millis};
use mma_tui::app::{cleared_pick_notice, EligibilityState, PredictSlot, PredictState};
use mma_tui::config::{paths_equal, Config, EnvVars, FsProbe};
use mma_tui::jobs::{completion_log_line, completion_status, line_messages, JobKind, JobMsg, JobStatus};
use mma_tui::models::{Division, EligibilityPayload, EligibilityRules};
use mma_tui::protocol::{judge_reply, ReplyVerdict, RequestIds};
use mma_tui::scraper::scrape_flags;

fn names(v: &[&str]) -> Vec<String> {
    v.iter().map(|s| s.to_string()).collect()
}

fn policy() -> EligibilityState {
    let mut st = EligibilityState::default();
    st.record_divisions("Alex Pereira".to_string(), vec![Division("M".to_string(), 8)]);
    st.record_divisions("Israel Adesanya".to_string(), vec![Division("M".to_string(), 6)]);
    st.record_divisions("Robert Whittaker".to_string(), vec![Division("M".to_string(), 6)]);
    st.rules = Some(EligibilityRules { max_distance: 1, allow_cross_gender: false, allow_unknown_division: true });
    st
}

fn roster() -> Vec<String> {
    names(&["Alex Pereira", "Israel Adesanya", "Robert Whittaker"])
}

#[test]
fn refresh_pool_uses_the_roster_until_the_other_slot_is_picked() {
    let elig = policy();
    let mut p = PredictState::<()>::default();
    assert_eq!(p.refresh_pool(&elig, &roster()), None);
    assert_eq!(p.pool, roster());
    assert_eq!(p.candidates, roster());

    // Commit Adesanya in A and move to B: B's pool is Adesanya's opponents.
    p.commit_slot("Israel Adesanya".to_string());
    p.advance_after_commit();
    assert_eq!(p.slot, PredictSlot::B);
    assert_eq!(p.refresh_pool(&elig, &roster()), None);
    assert_eq!(p.pool, names(&["Robert Whittaker"]));
    assert_eq!(p.candidates, names(&["Robert Whittaker"]));
}

#[test]
fn refresh_pool_clears_a_focused_pick_that_left_the_pool() {
    let elig = policy();
    let mut p = PredictState::<()> {
        name_a: Some("Alex Pereira".into()),
        name_b: Some("Israel Adesanya".into()),
        slot: PredictSlot::A,
        ..Default::default()
    };
    let dropped = p.refresh_pool(&elig, &roster());
    assert_eq!(dropped.as_deref(), Some("Alex Pereira"));
    assert_eq!(p.name_a, None);
    assert_eq!(p.name_b.as_deref(), Some("Israel Adesanya"));
    assert_eq!(p.pool, names(&["Robert Whittaker"]));
}

#[test]
fn recompute_candidates_narrows_the_pool_by_the_query() {
    let mut p = PredictState::<()>::default();
    p.pool = roster();
    p.query = "whit".to_string();
    p.selected = 5;
    p.recompute_candidates();
    assert_eq!(p.candidates, names(&["Robert Whittaker"]));
    assert_eq!(p.selected, 0);
}

#[test]
fn validate_other_slot_clears_an_ineligible_opponent() {
    let elig = policy();
    let mut p = PredictState::<()> {
        name_a: Some("Alex Pereira".into()),
        name_b: Some("Israel Adesanya".into()),
        slot: PredictSlot::A,
        ..Default::default()
    };
    let dropped = p.validate_other_slot(&elig, &roster(), "Alex Pereira");
    assert_eq!(dropped.as_deref(), Some("Israel Adesanya"));
    assert_eq!(p.name_b, None);
    assert_eq!(p.name_a.as_deref(), Some("Alex Pereira"));

    let mut q = PredictState::<()> {
        name_a: Some("Robert Whittaker".into()),
        name_b: Some("Israel Adesanya".into()),
        slot: PredictSlot::A,
        ..Default::default()
    };
    assert_eq!(q.validate_other_slot(&elig, &roster(), "Robert Whittaker"), None);
    assert_eq!(q.name_b.as_deref(), Some("Israel Adesanya"));
    assert_eq!(
        cleared_pick_notice("Israel Adesanya"),
        "Israel Adesanya is no longer an eligible opponent — pick cleared."
    );
}

#[test]
fn db_flag_is_none_for_default_db_path() {
    let probe = FsProbe { venv_python_is_file: false, scraper_binary_is_executable: vec![] };
    let cfg = Config::resolve("/tmp/repo".to_string(), &EnvVars::default(), &probe);
    assert_eq!(cfg.db_path, cfg.default_db_path());
    assert_eq!(cfg.db_flag(), None);
}

#[test]
fn db_flag_is_some_for_overridden_db_path() {
    let probe = FsProbe { venv_python_is_file: false, scraper_binary_is_executable: vec![] };
    let env = EnvVars { mma_db: Some("/writable/ufc.db".to_string()), ..Default::default() };
    let cfg = Config::resolve("/tmp/repo".to_string(), &env, &probe);
    assert_eq!(cfg.db_flag(), Some("/writable/ufc.db".to_string()));
}

#[test]
fn append_flags_incremental_default_is_empty() {
    assert!(scrape_flags(None, false, None).is_empty());
}

#[test]
fn scrape_flags_map_the_options_in_order() {
    assert_eq!(scrape_flags(None, true, Some(25)), names(&["--full", "--limit", "25"]));
    assert_eq!(
        scrape_flags(Some("/writable/ufc.db"), true, Some(3)),
        names(&["--db", "/writable/ufc.db", "--full", "--limit", "3"])
    );
    assert_eq!(scrape_flags(Some("/writable/ufc.db"), false, None), names(&["--db", "/writable/ufc.db"]));
}

#[test]
fn output_lines_become_progress_then_line() {
    assert_eq!(
        line_messages("saved event 3/12".to_string(), true),
        vec![JobMsg::Progress(3, 12), JobMsg::Line("saved event 3/12".to_string())]
    );
    assert_eq!(
        line_messages("saved event 3/12".to_string(), false),
        vec![JobMsg::Line("saved event 3/12".to_string())]
    );
    assert_eq!(line_messages("hello".to_string(), true), vec![JobMsg::Line("hello".to_string())]);
}

#[test]
fn completion_texts() {
    assert_eq!(completion_log_line(JobKind::Scrape, true), "$ Scraping finished OK");
    assert_eq!(completion_log_line(JobKind::Train, false), "$ Training model exited with errors");
    assert_eq!(completion_status(JobKind::Scrape, true), "Scraping complete — press Esc/Enter to dismiss.");
    assert_eq!(completion_status(JobKind::Train, false), "Training model failed — press Esc/Enter to dismiss.");
}

#[test]
fn reply_verdicts_match_ids() {
    assert_eq!(judge_reply(3, 2, true, None), ReplyVerdict::Skip);
    assert_eq!(judge_reply(3, 3, true, None), ReplyVerdict::Accept);
    assert_eq!(
        judge_reply(3, 3, false, Some("model not trained".to_string())),
        ReplyVerdict::Refused("model not trained".to_string())
    );
    assert_eq!(
        judge_reply(3, 3, false, None),
        ReplyVerdict::Refused("sidecar returned ok:false with no error message".to_string())
    );
    let mut ids = RequestIds::new();
    assert_eq!(ids.take(), 1);
    assert_eq!(ids.take(), 2);
    assert_eq!(ids.next, 3);
}

#[test]
fn animation_clock_and_cadence() {
    assert_eq!(frame_at_millis(0), 0);
    assert_eq!(frame_at_millis(1000), 30);
    assert_eq!(frame_at_millis(1234), 37);
    assert!(animating(true, false, 1000));
    assert!(animating(false, true, 35));
    assert!(!animating(false, true, 36));
    assert!(!animating(false, false, 0));
    let _ = JobStatus::Running;
}

#[test]
fn adopting_a_policy_replaces_the_divisions() {
    let mut st = EligibilityState::default();
    st.record_divisions("Old Name".to_string(), vec![Division("M".to_string(), 1)]);
    st.adopt(EligibilityPayload {
        rules: EligibilityRules { max_distance: 0, allow_cross_gender: false, allow_unknown_division: false },
        divisions: vec![
            ("A".to_string(), vec![Division("M".to_string(), 5)]),
            ("B".to_string(), vec![Division("M".to_string(), 5)]),
            ("C".to_string(), vec![Division("M".to_string(), 6)]),
        ],
        weight_classes: vec![],
    });
    assert!(st.rules.is_some());
    let roster = names(&["A", "B", "C", "Old Name"]);
    // "Old Name" now has no divisions, and unknown divisions are refused.
    assert_eq!(st.eligible_opponents("A", &roster), names(&["B"]));
}

#[test]
fn append_flags_db_only_when_no_options() {
    assert_eq!(scrape_flags(Some("/writable/ufc.db"), false, None), names(&["--db", "/writable/ufc.db"]));
}

#[test]
fn limit_bumps_clear_at_zero_and_undo() {
    assert_eq!(mma_tui::app::bump_limit_value(Some(100), 50), Some(150));
    assert_eq!(mma_tui::app::bump_limit_value(Some(150), -50), Some(100));
    assert_eq!(mma_tui::app::bump_limit_value(None, 50), Some(50));
    assert_eq!(mma_tui::app::bump_limit_value(Some(50), -50), None);
    assert_eq!(mma_tui::app::bump_limit_value(Some(20), -50), None);
    assert_eq!(mma_tui::app::bump_limit_value(None, -50), None);
}

#[test]
fn db_flag_compares_paths_by_component() {
    let probe = FsProbe { venv_python_is_file: false, scraper_binary_is_executable: vec![] };
    for same in ["/tmp/repo//data/ufc.db", "/tmp/repo/data/./ufc.db", "/tmp/repo/data/ufc.db/"] {
        let env = EnvVars { mma_db: Some(same.to_string()), ..Default::default() };
        let cfg = Config::resolve("/tmp/repo".to_string(), &env, &probe);
        assert_eq!(cfg.db_flag(), None, "{same} is the default database");
    }
    let env = EnvVars { mma_db: Some("/tmp/repo/data/../data/ufc.db".to_string()), ..Default::default() };
    let cfg = Config::resolve("/tmp/repo".to_string(), &env, &probe);
    assert_eq!(cfg.db_flag(), Some("/tmp/repo/data/../data/ufc.db".to_string()));
}

#[test]
fn paths_equal_by_components() {
    assert!(paths_equal("a//b/", "a/b"));
    assert!(paths_equal("/a/./b", "/a/b"));
    assert!(!paths_equal("/a/b", "a/b"));
    assert!(!paths_equal("./a", "a"));
    assert!(paths_equal("./a", "./a/."));
    assert!(!paths_equal("a/..", "."));
}
