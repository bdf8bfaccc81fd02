//! Shared data model: database rows, sidecar IPC shapes, and the weight-class
//! eligibility policy with its local decision procedure.

use vstd::prelude::*;
use crate::text::str_eq;

verus! {

// ------------------------------------------------------------------------- //
// Database rows
// ------------------------------------------------------------------------- //

/// One row of the `events` table.
#[derive(Debug, Clone, PartialEq)]
pub struct EventRow {
    pub event_id: i64,
    pub title: String,
    /// ISO `YYYY-MM-DD`.
    pub date: Option<String>,
    pub location: Option<String>,
}

/// One row of the `fights` table. The winner/loser names may be empty or absent
/// for a draw or a no-contest.
#[derive(Debug, Clone, PartialEq)]
pub struct FightRow {
    pub fight_id: i64,
    pub event_id: Option<i64>,
    pub event_name: Option<String>,
    /// ISO `YYYY-MM-DD`.
    pub date: Option<String>,
    pub winner_name: Option<String>,
    pub loser_name: Option<String>,
    pub weight_class: Option<String>,
    /// 0/1 in the database.
    pub title_bout: i64,
    pub method: Option<String>,
    pub round_ended: i64,
    /// Seconds into the final round.
    pub time_ended: i64,
    pub referee: Option<String>,
}

/// The newest numbered card (or the newest event of any kind, with no number).
#[derive(Debug, Clone, PartialEq)]
pub struct LatestCard {
    pub event_id: i64,
    pub title: String,
    /// ISO `YYYY-MM-DD`.
    pub date: Option<String>,
    pub location: Option<String>,
    /// The card number parsed from the title, e.g. 311 for `"UFC 311"`.
    pub number: Option<u32>,
}

/// Database-wide counts and the dated span of the events table.
#[derive(Debug, Clone, PartialEq)]
pub struct DbSummary {
    pub n_fighters: i64,
    pub n_events: i64,
    pub n_fights: i64,
    pub n_round_stats: i64,
    /// Earliest event date (ISO), if any event is dated.
    pub earliest_event: Option<String>,
    /// Latest event date (ISO), if any event is dated.
    pub latest_event: Option<String>,
}

impl Default for DbSummary {
    fn default() -> (s: DbSummary)
        ensures
            s.n_fighters == 0 && s.n_events == 0 && s.n_fights == 0 && s.n_round_stats == 0,
            s.earliest_event is None && s.latest_event is None,
    {
        DbSummary {
            n_fighters: 0,
            n_events: 0,
            n_fights: 0,
            n_round_stats: 0,
            earliest_event: None,
            latest_event: None,
        }
    }
}

// ------------------------------------------------------------------------- //
// Sidecar IPC shapes
// ------------------------------------------------------------------------- //

/// One request to the sidecar: a correlation id plus the command.
#[derive(Debug, Clone, PartialEq)]
pub struct SidecarRequest {
    pub id: u64,
    pub cmd: SidecarCommand,
}

/// The command a request carries; `Predict` names the two fighters.
#[derive(Debug, Clone, PartialEq)]
pub enum SidecarCommand {
    Ping,
    Status,
    Roster,
    Eligibility,
    Predict { a: String, b: String },
    Reload,
}

/// Payload of a successful `roster` reply.
#[derive(Debug, Clone, PartialEq)]
pub struct RosterPayload {
    pub fighters: Vec<String>,
}

/// Payload of a successful `reload` reply.
#[derive(Debug, Clone, PartialEq)]
pub struct ReloadPayload {
    pub model_loaded: bool,
    pub n_fighters: i64,
}

// ------------------------------------------------------------------------- //
// Divisions, weight classes and the eligibility policy
// ------------------------------------------------------------------------- //

/// One division a fighter has fought in: a gender tag (`"M"` / `"W"`) and the
/// division's rank on that gender's ladder.
#[derive(Debug, Clone, PartialEq)]
pub struct Division(pub String, pub i32);

impl Division {
    /// The gender tag.
    pub fn gender(&self) -> (g: &str)
        ensures
            g@ == self.0@,
    {
        self.0.as_str()
    }

    /// The ordinal rank on the gender's ladder.
    pub fn ordinal(&self) -> (o: i32)
        ensures
            o == self.1,
    {
        self.1
    }
}

/// Which of the two separate ladders a weight class sits on.
#[derive(Debug, Clone, Copy, PartialEq, Eq, Structural)]
pub enum Gender {
    Men,
    Women,
}

/// The wire tag of a gender: `"M"` for men, `"W"` for women.
pub open spec fn gender_tag(g: Gender) -> Seq<char> {
    match g {
        Gender::Men => "M"@,
        Gender::Women => "W"@,
    }
}

impl Gender {
    /// The wire tag (`"M"` / `"W"`), as carried by a [`Division`].
    pub fn tag(self) -> (t: &'static str)
        ensures
            t@ == gender_tag(self),
    {
        match self {
            Gender::Men => "M",
            Gender::Women => "W",
        }
    }
}

/// One selectable weight class: a display name and its `(gender, ordinal)`
/// identity.
#[derive(Debug, Clone, PartialEq)]
pub struct WeightClass {
    pub name: String,
    pub gender: Gender,
    pub ordinal: i32,
}

/// Whether one division is the `(gender, ordinal)` identity of a weight class.
pub open spec fn division_is_class(d: Division, wc: WeightClass) -> bool {
    d.0@ == gender_tag(wc.gender) && d.1 == wc.ordinal
}

/// A fighter is in a class iff one of their divisions is the class's identity.
pub open spec fn in_class(divs: Seq<Division>, wc: WeightClass) -> bool {
    exists|i: int| 0 <= i < divs.len() && division_is_class(#[trigger] divs[i], wc)
}

/// Whether a fighter with the divisions `divs` is in weight class `wc`.
pub fn fighter_in_class(divs: &[Division], wc: &WeightClass) -> (r: bool)
    ensures
        r == in_class(divs@, *wc),
{
    let tag = wc.gender.tag();
    let mut i: usize = 0;
    while i < divs.len()
        invariant
            i <= divs@.len(),
            tag@ == gender_tag(wc.gender),
            forall|k: int| 0 <= k < i ==> !division_is_class(#[trigger] divs@[k], *wc),
        decreases divs.len() - i,
    {
        if str_eq(divs[i].gender(), tag) && divs[i].ordinal() == wc.ordinal {
            assert(division_is_class(divs@[i as int], *wc));
            return true;
        }
        i += 1;
    }
    false
}

/// The eligibility policy fetched from the sidecar.
#[derive(Debug, Clone, Copy, PartialEq, Eq, Structural)]
pub struct EligibilityRules {
    /// A matchup is allowed iff the smallest division distance over a shared
    /// ladder is at most this.
    pub max_distance: i32,
    /// Whether a matchup may cross the men's and women's ladders.
    pub allow_cross_gender: bool,
    /// Whether a fighter with no known division may still be matched.
    pub allow_unknown_division: bool,
}

/// The eligibility policy with every fighter's divisions and the weight-class
/// ladder, as fetched once from the sidecar.
#[derive(Debug, Clone, PartialEq)]
pub struct EligibilityPayload {
    /// The policy.
    pub rules: EligibilityRules,
    /// Each fighter's name with the divisions they have fought in.
    pub divisions: Vec<(String, Vec<Division>)>,
    /// The weight-class ladder: men's classes ascending, then women's.
    pub weight_classes: Vec<WeightClass>,
}

/// Absolute value.
pub open spec fn abs(x: int) -> int {
    if x < 0 { -x } else { x }
}

/// Two divisions sit on the same gender ladder.
pub open spec fn same_ladder(a: Division, b: Division) -> bool {
    a.0@ == b.0@
}

/// Some division of `a` and some division of `b` share a gender ladder.
pub open spec fn shares_ladder(a: Seq<Division>, b: Seq<Division>) -> bool {
    exists|i: int, j: int|
        0 <= i < a.len() && 0 <= j < b.len() && same_ladder(#[trigger] a[i], #[trigger] b[j])
}

/// Some pair of divisions on a shared ladder is at most `max` ranks apart; that
/// is, the minimum distance over the shared ladders is at most `max`.
pub open spec fn close_on_shared_ladder(a: Seq<Division>, b: Seq<Division>, max: int) -> bool {
    exists|i: int, j: int|
        0 <= i < a.len() && 0 <= j < b.len() && same_ladder(#[trigger] a[i], #[trigger] b[j])
            && abs(a[i].1 - b[j].1) <= max
}

/// The eligibility decision: no divisions on either side defers to
/// `allow_unknown_division`; no shared ladder defers to `allow_cross_gender`;
/// otherwise the closest pair on a shared ladder must be within `max_distance`.
pub open spec fn eligible_spec(a: Seq<Division>, b: Seq<Division>, rules: EligibilityRules) -> bool {
    if a.len() == 0 || b.len() == 0 {
        rules.allow_unknown_division
    } else if !shares_ladder(a, b) {
        rules.allow_cross_gender
    } else {
        close_on_shared_ladder(a, b, rules.max_distance as int)
    }
}

/// Applies the fetched `rules` to two fighters' division sets.
pub fn eligible(divs_a: &[Division], divs_b: &[Division], rules: &EligibilityRules) -> (r: bool)
    ensures
        r == eligible_spec(divs_a@, divs_b@, *rules),
{
    if divs_a.len() == 0 || divs_b.len() == 0 {
        return rules.allow_unknown_division;
    }
    let ghost a = divs_a@;
    let ghost b = divs_b@;
    let max: i64 = rules.max_distance as i64;
    let mut shared = false;
    let mut close = false;
    let mut i: usize = 0;
    while i < divs_a.len()
        invariant
            a == divs_a@,
            b == divs_b@,
            max == rules.max_distance,
            i <= a.len(),
            shared == exists|x: int, y: int|
                0 <= x < i && 0 <= y < b.len() && same_ladder(#[trigger] a[x], #[trigger] b[y]),
            close == exists|x: int, y: int|
                0 <= x < i && 0 <= y < b.len() && same_ladder(#[trigger] a[x], #[trigger] b[y])
                    && abs(a[x].1 - b[y].1) <= max,
        decreases divs_a.len() - i,
    {
        let mut j: usize = 0;
        while j < divs_b.len()
            invariant
                a == divs_a@,
                b == divs_b@,
                max == rules.max_distance,
                i < a.len(),
                j <= b.len(),
                shared == exists|x: int, y: int|
                    0 <= x < a.len() && 0 <= y < b.len() && (x < i || (x == i && y < j))
                        && same_ladder(#[trigger] a[x], #[trigger] b[y]),
                close == exists|x: int, y: int|
                    0 <= x < a.len() && 0 <= y < b.len() && (x < i || (x == i && y < j))
                        && same_ladder(#[trigger] a[x], #[trigger] b[y])
                        && abs(a[x].1 - b[y].1) <= max,
            decreases divs_b.len() - j,
        {
            if str_eq(divs_a[i].gender(), divs_b[j].gender()) {
                assert(same_ladder(a[i as int], b[j as int]));
                shared = true;
                let diff: i64 = divs_a[i].ordinal() as i64 - divs_b[j].ordinal() as i64;
                let dist: i64 = if diff < 0 { -diff } else { diff };
                if dist <= max {
                    close = true;
                }
            }
            j += 1;
        }
        i += 1;
    }
    if !shared {
        rules.allow_cross_gender
    } else {
        close
    }
}

/// The eligibility gate is symmetric: swapping the two fighters never changes
/// the decision.
pub proof fn eligible_is_symmetric(a: Seq<Division>, b: Seq<Division>, rules: EligibilityRules)
    ensures
        eligible_spec(a, b, rules) == eligible_spec(b, a, rules),
{
    assert(shares_ladder(a, b) ==> shares_ladder(b, a)) by {
        if shares_ladder(a, b) {
            let (i, j) = choose|i: int, j: int|
                0 <= i < a.len() && 0 <= j < b.len() && same_ladder(#[trigger] a[i], #[trigger] b[j]);
            assert(same_ladder(b[j], a[i]));
        }
    }
    assert(shares_ladder(b, a) ==> shares_ladder(a, b)) by {
        if shares_ladder(b, a) {
            let (i, j) = choose|i: int, j: int|
                0 <= i < b.len() && 0 <= j < a.len() && same_ladder(#[trigger] b[i], #[trigger] a[j]);
            assert(same_ladder(a[j], b[i]));
        }
    }
    let m = rules.max_distance as int;
    assert(close_on_shared_ladder(a, b, m) ==> close_on_shared_ladder(b, a, m)) by {
        if close_on_shared_ladder(a, b, m) {
            let (i, j) = choose|i: int, j: int|
                0 <= i < a.len() && 0 <= j < b.len() && same_ladder(#[trigger] a[i], #[trigger] b[j])
                    && abs(a[i].1 - b[j].1) <= m;
            assert(same_ladder(b[j], a[i]));
        }
    }
    assert(close_on_shared_ladder(b, a, m) ==> close_on_shared_ladder(a, b, m)) by {
        if close_on_shared_ladder(b, a, m) {
            let (i, j) = choose|i: int, j: int|
                0 <= i < b.len() && 0 <= j < a.len() && same_ladder(#[trigger] b[i], #[trigger] a[j])
                    && abs(b[i].1 - a[j].1) <= m;
            assert(same_ladder(a[j], b[i]));
        }
    }
}

/// Raising the allowed division distance never turns an allowed matchup into
/// a refused one; the other two switches work the same way.
pub proof fn eligibility_widens_with_the_rules(
    a: Seq<Division>,
    b: Seq<Division>,
    rules: EligibilityRules,
    wider: EligibilityRules,
)
    requires
        wider.max_distance >= rules.max_distance,
        rules.allow_cross_gender ==> wider.allow_cross_gender,
        rules.allow_unknown_division ==> wider.allow_unknown_division,
    ensures
        eligible_spec(a, b, rules) ==> eligible_spec(a, b, wider),
{
    if a.len() > 0 && b.len() > 0 && shares_ladder(a, b) && close_on_shared_ladder(a, b, rules.max_distance as int) {
        let (i, j) = choose|i: int, j: int|
            0 <= i < a.len() && 0 <= j < b.len() && same_ladder(#[trigger] a[i], #[trigger] b[j])
                && abs(a[i].1 - b[j].1) <= rules.max_distance as int;
        assert(same_ladder(a[i], b[j]) && abs(a[i].1 - b[j].1) <= wider.max_distance as int);
    }
}

} // verus!
