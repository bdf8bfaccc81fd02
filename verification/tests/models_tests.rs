use mma_tui::app::EligibilityState;
use mma_tui::models::{eligible, fighter_in_class, Division, EligibilityRules, Gender, WeightClass};

fn div(g: &str, o: i32) -> Division {
    Division(g.to_string(), o)
}

fn wc(name: &str, g: Gender, o: i32) -> WeightClass {
    WeightClass { name: name.to_string(), gender: g, ordinal: o }
}

fn rules(max: i32, cross: bool, unknown: bool) -> EligibilityRules {
    EligibilityRules { max_distance: max, allow_cross_gender: cross, allow_unknown_division: unknown }
}

#[test]
fn fighter_in_class_matches_on_gender_and_ordinal() {
    let mw = wc("Middleweight", Gender::Men, 6);
    let hw = wc("Heavyweight", Gender::Men, 8);

    let adesanya = [div("M", 6)];
    assert!(fighter_in_class(&adesanya, &mw));
    assert!(!fighter_in_class(&adesanya, &hw));

    let pereira = [div("M", 8)];
    assert!(fighter_in_class(&pereira, &hw));
    assert!(!fighter_in_class(&pereira, &mw));
}

#[test]
fn fighter_in_class_requires_matching_gender() {
    let womens_straw = wc("Women's Strawweight", Gender::Women, 1);
    let mens_fly = [div("M", 1)];
    assert!(!fighter_in_class(&mens_fly, &womens_straw));
    let womens = [div("W", 1)];
    assert!(fighter_in_class(&womens, &womens_straw));
}

#[test]
fn fighter_in_class_handles_multi_division_and_empty() {
    let lhw = wc("Light Heavyweight", Gender::Men, 7);
    let multi = [div("M", 6), div("M", 7)];
    assert!(fighter_in_class(&multi, &lhw));
    let none: [Division; 0] = [];
    assert!(!fighter_in_class(&none, &lhw));
}

#[test]
fn division_accessors_read_the_pair() {
    let d = div("W", 3);
    assert_eq!(d.gender(), "W");
    assert_eq!(d.ordinal(), 3);
    assert_eq!(Gender::Men.tag(), "M");
    assert_eq!(Gender::Women.tag(), "W");
}

#[test]
fn eligible_distance_respects_max_distance_rule() {
    let a = [div("M", 6)];
    let b = [div("M", 7)];
    assert!(eligible(&a, &b, &rules(1, false, true)));
    assert!(!eligible(&a, &b, &rules(0, false, true)));
    let far = [div("M", 8)];
    assert!(!eligible(&a, &far, &rules(1, false, true)));
    assert!(eligible(&a, &far, &rules(2, false, true)));
}

#[test]
fn eligible_cross_gender_follows_the_rule() {
    let m = [div("M", 2)];
    let w = [div("W", 3)];
    assert!(!eligible(&m, &w, &rules(1, false, true)));
    assert!(eligible(&m, &w, &rules(1, true, true)));
}

#[test]
fn eligible_unknown_division_follows_the_rule() {
    let known = [div("M", 4)];
    let none: [Division; 0] = [];
    assert!(eligible(&none, &known, &rules(1, false, true)));
    assert!(!eligible(&none, &known, &rules(1, false, false)));
    assert!(eligible(&none, &none, &rules(1, false, true)));
}

#[test]
fn eligible_uses_the_closest_pair_on_a_shared_ladder() {
    // Multi-division fighter: M#4 is far from M#8 but M#7 is adjacent.
    let a = [div("M", 4), div("M", 7)];
    let b = [div("M", 8)];
    assert!(eligible(&a, &b, &rules(1, false, false)));
    // A women's division alongside does not make the pair cross-gender.
    let c = [div("W", 2), div("M", 9)];
    assert!(!eligible(&c, &b, &rules(0, true, true)));
    assert!(eligible(&c, &b, &rules(1, false, false)));
}

#[test]
fn eligible_is_symmetric_on_concrete_pairs() {
    let cases: Vec<(Vec<Division>, Vec<Division>)> = vec![
        (vec![div("M", 6)], vec![div("M", 8)]),
        (vec![div("M", 2)], vec![div("W", 3)]),
        (vec![], vec![div("M", 4)]),
        (vec![div("M", 4), div("W", 1)], vec![div("W", 2)]),
    ];
    for (a, b) in &cases {
        for r in [rules(0, false, false), rules(1, true, true), rules(2, false, true)] {
            assert_eq!(eligible(a, b, &r), eligible(b, a, &r));
        }
    }
}

fn state(with_rules: bool) -> EligibilityState {
    let mut st = EligibilityState::default();
    st.record_divisions("Alex Pereira".to_string(), vec![div("M", 8)]);
    st.record_divisions("Israel Adesanya".to_string(), vec![div("M", 6)]);
    st.record_divisions("Robert Whittaker".to_string(), vec![div("M", 6)]);
    if with_rules {
        st.rules = Some(rules(1, false, true));
    }
    st
}

fn roster() -> Vec<String> {
    ["Alex Pereira", "Israel Adesanya", "Robert Whittaker"].iter().map(|s| s.to_string()).collect()
}

#[test]
fn eligible_opponents_filter_the_other_slot_by_policy() {
    let st = state(true);
    let r = roster();
    assert_eq!(st.eligible_opponents("Israel Adesanya", &r), vec!["Robert Whittaker".to_string()]);
    assert!(st.eligible_opponents("Alex Pereira", &r).is_empty());
    assert_eq!(st.eligible_opponents("Robert Whittaker", &r), vec!["Israel Adesanya".to_string()]);
}

#[test]
fn eligible_opponents_without_policy_keep_roster_order() {
    let st = state(false);
    let r: Vec<String> = ["Robert Whittaker", "Alex Pereira", "Israel Adesanya"].iter().map(|s| s.to_string()).collect();
    assert_eq!(
        st.eligible_opponents("Alex Pereira", &r),
        vec!["Robert Whittaker".to_string(), "Israel Adesanya".to_string()]
    );
}

#[test]
fn eligible_opponents_with_policy_come_back_sorted() {
    let mut st = EligibilityState::default();
    st.record_divisions("Zed".to_string(), vec![div("M", 5)]);
    st.record_divisions("Amy".to_string(), vec![div("M", 5)]);
    st.record_divisions("Max".to_string(), vec![div("M", 5)]);
    st.rules = Some(rules(0, false, true));
    let r: Vec<String> = ["Zed", "Max", "Amy", "Unknown"].iter().map(|s| s.to_string()).collect();
    assert_eq!(
        st.eligible_opponents("Max", &r),
        vec!["Amy".to_string(), "Unknown".to_string(), "Zed".to_string()]
    );
}

#[test]
fn default_eligibility_state_has_no_policy() {
    let st = EligibilityState::default();
    assert!(st.rules.is_none());
    assert_eq!(st.eligible_opponents("A", &["A".to_string(), "B".to_string()]), vec!["B".to_string()]);
}
