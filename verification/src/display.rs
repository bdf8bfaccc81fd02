//! Plain-text pieces of the screens: card titles, fight details, records,
//! poster headlines and option chips.

use vstd::prelude::*;
use crate::app::HOME_MENU;
use crate::models::{DbSummary, EventRow, FightRow, LatestCard};
use crate::text::{decimal, push_decimal, push_signed_decimal, push_str, signed_decimal, str_eq, views};

verus! {

/// A present, non-empty text field.
pub open spec fn filled(o: Option<String>) -> bool {
    o matches Some(s) && s@.len() > 0
}

fn is_filled(o: &Option<String>) -> (r: bool)
    ensures
        r == filled(*o),
{
    match o {
        Some(s) => !s.as_str().is_empty(),
        None => false,
    }
}

/// Separator-joined text: `parts[0] + sep + parts[1] + ...`.
pub open spec fn join(parts: Seq<Seq<char>>, sep: Seq<char>) -> Seq<char>
    decreases parts.len(),
{
    if parts.len() == 0 {
        Seq::empty()
    } else if parts.len() == 1 {
        parts[0]
    } else {
        join(parts.drop_last(), sep) + sep + parts.last()
    }
}

fn join_strings(parts: &Vec<String>, sep: &str) -> (r: String)
    ensures
        r@ == join(views(parts@), sep@),
{
    let mut out = String::new();
    let mut i: usize = 0;
    while i < parts.len()
        invariant
            i <= parts.len(),
            out@ == join(views(parts@).take(i as int), sep@),
        decreases parts.len() - i,
    {
        let ghost t = views(parts@).take(i + 1);
        assert(t.drop_last() =~= views(parts@).take(i as int));
        if i > 0 {
            push_str(&mut out, sep);
        } else {
            assert(views(parts@).take(0) =~= Seq::<Seq<char>>::empty());
        }
        push_str(&mut out, parts[i].as_str());
        i += 1;
    }
    assert(views(parts@).take(parts.len() as int) =~= views(parts@));
    out
}

/// Two-digit zero-padded spelling of `n < 100`.
pub open spec fn two_digits(n: nat) -> Seq<char> {
    if n < 10 { seq!['0'] + decimal(n) } else { decimal(n) }
}

/// `m:ss` for a number of seconds; negative values show as `0:00`.
pub open spec fn mmss_text(total: int) -> Seq<char> {
    let s = if total < 0 { 0 } else { total };
    decimal((s / 60) as nat) + seq![':'] + two_digits((s % 60) as nat)
}

/// Formats seconds as `m:ss` (e.g. `135` as `"2:15"`); negatives clamp to
/// `0:00`.
pub fn mmss(total_seconds: i64) -> (s: String)
    ensures
        s@ == mmss_text(total_seconds as int),
{
    let secs: i64 = if total_seconds < 0 { 0 } else { total_seconds };
    let mut out = String::new();
    push_decimal(&mut out, (secs / 60) as u64);
    out.push(':');
    let rem = (secs % 60) as u64;
    if rem < 10 {
        out.push('0');
    }
    push_decimal(&mut out, rem);
    assert(out@ =~= mmss_text(total_seconds as int));
    out
}

/// The fight-card pane title: `"<title> — <location>"`, or the bare title.
pub open spec fn card_title_text(e: EventRow) -> Seq<char> {
    if filled(e.location) {
        e.title@ + " — "@ + e.location->0@
    } else {
        e.title@
    }
}

/// Header for the fight-card pane: `"UFC 311 — Location"`.
pub fn event_card_title(e: &EventRow) -> (t: String)
    ensures
        t@ == card_title_text(*e),
{
    let mut out = e.title.clone();
    if is_filled(&e.location) {
        push_str(&mut out, " — ");
        match &e.location {
            Some(loc) => push_str(&mut out, loc.as_str()),
            None => {},
        }
    }
    out
}

/// The pieces of a fight's detail: method, finish round and time, weight
/// class, each only when known.
pub open spec fn fight_parts(fr: FightRow) -> Seq<Seq<char>> {
    (if filled(fr.method) { seq![fr.method->0@] } else { Seq::empty() })
    + (if fr.round_ended > 0 {
        seq!["R"@ + signed_decimal(fr.round_ended as int) + " "@ + mmss_text(fr.time_ended as int)]
    } else {
        Seq::empty()
    })
    + (if filled(fr.weight_class) { seq!["["@ + fr.weight_class->0@ + "]"@] } else { Seq::empty() })
}

/// The trailing detail of a fight line: `"· method · R1 3:42 · [class]"`, or
/// nothing when no piece is known.
pub open spec fn fight_detail_text(fr: FightRow) -> Seq<char> {
    let parts = fight_parts(fr);
    if parts.len() == 0 {
        Seq::empty()
    } else {
        "· "@ + join(parts, " · "@)
    }
}

/// The trailing detail of a fight line: method, finish round/time, weight
/// class.
pub fn fight_detail(fr: &FightRow) -> (d: String)
    ensures
        d@ == fight_detail_text(*fr),
{
    let mut parts: Vec<String> = Vec::new();
    let ghost p1: Seq<Seq<char>> = if filled(fr.method) { seq![fr.method->0@] } else { Seq::empty() };
    match &fr.method {
        Some(m) if !m.as_str().is_empty() => parts.push(m.clone()),
        _ => {},
    }
    assert(views(parts@) =~= p1);
    let ghost p2: Seq<Seq<char>> = if fr.round_ended > 0 {
        seq!["R"@ + signed_decimal(fr.round_ended as int) + " "@ + mmss_text(fr.time_ended as int)]
    } else {
        Seq::empty()
    };
    if fr.round_ended > 0 {
        let mut r = String::new();
        push_str(&mut r, "R");
        push_signed_decimal(&mut r, fr.round_ended);
        push_str(&mut r, " ");
        let t = mmss(fr.time_ended);
        push_str(&mut r, t.as_str());
        let ghost before = parts@;
        parts.push(r);
        assert(views(parts@) =~= views(before).push(r@));
    }
    assert(views(parts@) =~= p1 + p2);
    let ghost p3: Seq<Seq<char>> = if filled(fr.weight_class) { seq!["["@ + fr.weight_class->0@ + "]"@] } else { Seq::empty() };
    match &fr.weight_class {
        Some(w) if !w.as_str().is_empty() => {
            let mut b = String::new();
            push_str(&mut b, "[");
            push_str(&mut b, w.as_str());
            push_str(&mut b, "]");
            let ghost before = parts@;
            parts.push(b);
            assert(views(parts@) =~= views(before).push(b@));
        },
        _ => {},
    }
    assert(views(parts@) =~= fight_parts(*fr));
    if parts.len() == 0 {
        String::new()
    } else {
        let mut out = String::new();
        push_str(&mut out, "· ");
        let joined = join_strings(&parts, " · ");
        push_str(&mut out, joined.as_str());
        out
    }
}

/// A fight's outcome from one fighter's point of view.
#[derive(Debug, Clone, Copy, PartialEq, Eq, Structural)]
pub enum Outcome {
    Win,
    Loss,
    Other,
}

/// `name` is the winner (`Win`), else the loser (`Loss`), else neither.
pub open spec fn outcome_spec(name: Seq<char>, fr: FightRow) -> Outcome {
    if fr.winner_name matches Some(w) && w@ == name {
        Outcome::Win
    } else if fr.loser_name matches Some(l) && l@ == name {
        Outcome::Loss
    } else {
        Outcome::Other
    }
}

/// Whether `name` won, lost, or neither (draw, no contest, not listed).
pub fn outcome_for(name: &str, fr: &FightRow) -> (o: Outcome)
    ensures
        o == outcome_spec(name@, *fr),
{
    let won = match &fr.winner_name {
        Some(w) => str_eq(w.as_str(), name),
        None => false,
    };
    let lost = match &fr.loser_name {
        Some(l) => str_eq(l.as_str(), name),
        None => false,
    };
    if won {
        Outcome::Win
    } else if lost {
        Outcome::Loss
    } else {
        Outcome::Other
    }
}

/// The opponent of `name` in a fight: the other corner when `name` is one of
/// two named corners; otherwise any named corner that is not `name`, winner
/// first.
pub open spec fn opponent_spec(name: Seq<char>, fr: FightRow) -> Option<Seq<char>> {
    let w = filled(fr.winner_name);
    let l = filled(fr.loser_name);
    let wn = fr.winner_name->0@;
    let ln = fr.loser_name->0@;
    if w && l && wn == name {
        Some(ln)
    } else if w && l && ln == name {
        Some(wn)
    } else if w && wn != name {
        Some(wn)
    } else if l && ln != name {
        Some(ln)
    } else {
        None
    }
}

/// The opponent's name from `name`'s perspective, if any.
pub fn opponent_of(name: &str, fr: &FightRow) -> (o: Option<String>)
    ensures
        pick(o) == opponent_spec(name@, *fr),
{
    let w = is_filled(&fr.winner_name);
    let l = is_filled(&fr.loser_name);
    let wn: &str = match &fr.winner_name {
        Some(s) => s.as_str(),
        None => "",
    };
    let ln: &str = match &fr.loser_name {
        Some(s) => s.as_str(),
        None => "",
    };
    let w_is_me = str_eq(wn, name);
    let l_is_me = str_eq(ln, name);
    if w && l && w_is_me {
        Some(ln.to_owned())
    } else if w && l && l_is_me {
        Some(wn.to_owned())
    } else if w && !w_is_me {
        Some(wn.to_owned())
    } else if l && !l_is_me {
        Some(ln.to_owned())
    } else {
        None
    }
}

/// The character view of an optional string.
pub open spec fn pick(o: Option<String>) -> Option<Seq<char>> {
    match o {
        Some(s) => Some(s@),
        None => None,
    }
}

/// `"Record: W-L-D"`, with `" (N NC)"` appended when there are no-contests.
pub open spec fn record_text(wins: i64, losses: i64, draws: i64, no_contests: i64) -> Seq<char> {
    let base = "Record: "@ + signed_decimal(wins as int) + seq!['-'] + signed_decimal(losses as int)
        + seq!['-'] + signed_decimal(draws as int);
    if no_contests > 0 {
        base + " ("@ + signed_decimal(no_contests as int) + " NC)"@
    } else {
        base
    }
}

/// The fighter's record line, `"Record: W-L-D"` (plus no-contests).
pub fn record_line(wins: i64, losses: i64, draws: i64, no_contests: i64) -> (s: String)
    ensures
        s@ == record_text(wins, losses, draws, no_contests),
{
    let mut out = String::new();
    push_str(&mut out, "Record: ");
    push_signed_decimal(&mut out, wins);
    out.push('-');
    push_signed_decimal(&mut out, losses);
    out.push('-');
    push_signed_decimal(&mut out, draws);
    if no_contests > 0 {
        push_str(&mut out, " (");
        push_signed_decimal(&mut out, no_contests);
        push_str(&mut out, " NC)");
    }
    out
}

/// The finish blurb: no bouts on record, the title-win count, or the number
/// of pro bouts.
pub open spec fn finish_text(wins: i64, losses: i64, draws: i64, no_contests: i64, title_wins: i64) -> Seq<char> {
    let total = wins + losses + draws + no_contests;
    if total <= 0 {
        "no recorded bouts"@
    } else if title_wins > 0 {
        signed_decimal(title_wins as int) + " title win"@ + (if title_wins == 1 { Seq::empty() } else { "s"@ })
    } else {
        signed_decimal(total) + " pro bouts on record"@
    }
}

/// Short finish-record blurb derived from the win and title counters.
pub fn finish_summary(wins: i64, losses: i64, draws: i64, no_contests: i64, title_wins: i64) -> (s: String)
    requires
        i64::MIN <= wins + losses + draws + no_contests <= i64::MAX,
        i64::MIN <= wins + losses <= i64::MAX,
        i64::MIN <= wins + losses + draws <= i64::MAX,
    ensures
        s@ == finish_text(wins, losses, draws, no_contests, title_wins),
{
    let total = wins + losses + draws + no_contests;
    let mut out = String::new();
    if total <= 0 {
        push_str(&mut out, "no recorded bouts");
    } else if title_wins > 0 {
        push_signed_decimal(&mut out, title_wins);
        push_str(&mut out, " title win");
        if title_wins != 1 {
            push_str(&mut out, "s");
        }
        assert(out@ =~= finish_text(wins, losses, draws, no_contests, title_wins));
    } else {
        push_signed_decimal(&mut out, total);
        push_str(&mut out, " pro bouts on record");
    }
    out
}

/// `"<n> lbs"`, or a dash when unknown.
pub open spec fn lbs_text(v: Option<i64>) -> Seq<char> {
    match v {
        Some(n) => signed_decimal(n as int) + " lbs"@,
        None => "—"@,
    }
}

/// Weight in pounds, or a dash when unknown.
pub fn opt_lbs(v: Option<i64>) -> (s: String)
    ensures
        s@ == lbs_text(v),
{
    let mut out = String::new();
    match v {
        Some(n) => {
            push_signed_decimal(&mut out, n);
            push_str(&mut out, " lbs");
        },
        None => push_str(&mut out, "—"),
    }
    out
}

/// The home menu's option labels, in order.
pub fn menu_labels() -> (labels: Vec<&'static str>)
    ensures
        labels@.len() == 4,
        forall|i: int| 0 <= i < 4 ==> #[trigger] labels@[i] == HOME_MENU[i].0,
{
    let mut out: Vec<&'static str> = Vec::new();
    let mut i: usize = 0;
    while i < 4
        invariant
            i <= 4,
            out@.len() == i,
            forall|k: int| 0 <= k < i ==> #[trigger] out@[k] == HOME_MENU[k].0,
        decreases 4 - i,
    {
        out.push(HOME_MENU[i].0);
        i += 1;
    }
    out
}

/// The poster headline: `"UFC <n>"` for a numbered card, else the title.
pub open spec fn headline_text(card: LatestCard) -> Seq<char> {
    match card.number {
        Some(n) => "UFC "@ + decimal(n as nat),
        None => card.title@,
    }
}

/// The big poster headline for the latest card.
pub fn poster_headline(card: &LatestCard) -> (s: String)
    ensures
        s@ == headline_text(*card),
{
    match card.number {
        Some(n) => {
            let mut out = String::new();
            push_str(&mut out, "UFC ");
            push_decimal(&mut out, n as u64);
            out
        },
        None => card.title.clone(),
    }
}

/// The poster subtitle: date and location joined by `" · "`, either alone
/// when only one is known, or nothing.
pub open spec fn subtitle_text(card: LatestCard) -> Option<Seq<char>> {
    if filled(card.date) && filled(card.location) {
        Some(card.date->0@ + " · "@ + card.location->0@)
    } else if filled(card.date) {
        Some(card.date->0@)
    } else if filled(card.location) {
        Some(card.location->0@)
    } else {
        None
    }
}

/// The poster subtitle, e.g. `"2025-01-18 · Inglewood, USA"`.
pub fn subtitle(card: &LatestCard) -> (s: Option<String>)
    ensures
        pick(s) == subtitle_text(*card),
{
    let d = is_filled(&card.date);
    let l = is_filled(&card.location);
    let ds: &str = match &card.date {
        Some(x) => x.as_str(),
        None => "",
    };
    let ls: &str = match &card.location {
        Some(x) => x.as_str(),
        None => "",
    };
    if d && l {
        let mut out = ds.to_owned();
        push_str(&mut out, " · ");
        push_str(&mut out, ls);
        Some(out)
    } else if d {
        Some(ds.to_owned())
    } else if l {
        Some(ls.to_owned())
    } else {
        None
    }
}

/// The one-line database summary.
pub open spec fn summary_line(s: DbSummary) -> Seq<char> {
    "Database: "@ + signed_decimal(s.n_fighters as int) + " fighters · "@ + signed_decimal(s.n_events as int)
        + " events · "@ + signed_decimal(s.n_fights as int) + " fights"@
}

/// One-line database summary from the cached counts.
pub fn summary_text(s: &DbSummary) -> (t: String)
    ensures
        t@ == summary_line(*s),
{
    let mut out = String::new();
    push_str(&mut out, "Database: ");
    push_signed_decimal(&mut out, s.n_fighters);
    push_str(&mut out, " fighters · ");
    push_signed_decimal(&mut out, s.n_events);
    push_str(&mut out, " events · ");
    push_signed_decimal(&mut out, s.n_fights);
    push_str(&mut out, " fights");
    out
}

/// `"<n> <noun>"`, with an `s` unless `n` is exactly one.
pub open spec fn count_line(n: i64, noun: Seq<char>) -> Seq<char> {
    signed_decimal(n as int) + " "@ + noun + (if n == 1 { Seq::empty() } else { "s"@ })
}

/// "N thing(s)" for the database hub's counts.
pub fn count_text(n: i64, noun: &str) -> (t: String)
    ensures
        t@ == count_line(n, noun@),
{
    let mut out = String::new();
    push_signed_decimal(&mut out, n);
    push_str(&mut out, " ");
    push_str(&mut out, noun);
    if n != 1 {
        push_str(&mut out, "s");
    }
    assert(out@ =~= count_line(n, noun@));
    out
}

/// Human label of a metrics key; unknown keys pass through unchanged.
pub open spec fn friendly_label_text(key: Seq<char>) -> Seq<char> {
    if key == "test_accuracy"@ { "Test accuracy"@ }
    else if key == "test_log_loss"@ { "Test log-loss"@ }
    else if key == "test_brier"@ { "Test brier"@ }
    else if key == "best_model"@ { "Best model"@ }
    else if key == "n_train"@ { "Train rows"@ }
    else if key == "n_test"@ { "Test rows"@ }
    else if key == "test_cutoff"@ { "Test cutoff"@ }
    else { key }
}

/// Maps a raw metrics key to a human label.
pub fn friendly_label(key: &str) -> (l: String)
    ensures
        l@ == friendly_label_text(key@),
{
    if str_eq(key, "test_accuracy") { "Test accuracy".to_owned() }
    else if str_eq(key, "test_log_loss") { "Test log-loss".to_owned() }
    else if str_eq(key, "test_brier") { "Test brier".to_owned() }
    else if str_eq(key, "best_model") { "Best model".to_owned() }
    else if str_eq(key, "n_train") { "Train rows".to_owned() }
    else if str_eq(key, "n_test") { "Test rows".to_owned() }
    else if str_eq(key, "test_cutoff") { "Test cutoff".to_owned() }
    else { key.to_owned() }
}

/// `"ON"` / `"OFF"` for a flag.
pub fn on_off(active: bool) -> (s: &'static str)
    ensures
        s@ == (if active { "ON"@ } else { "OFF"@ }),
{
    if active { "ON" } else { "OFF" }
}

/// Chip text for the full re-scrape toggle: `"Full: ON"` / `"Full: OFF"`.
pub fn full_chip_text(full: bool) -> (s: String)
    ensures
        s@ == "Full: "@ + (if full { "ON"@ } else { "OFF"@ }),
{
    let mut out = String::new();
    push_str(&mut out, "Full: ");
    push_str(&mut out, on_off(full));
    out
}

/// The limit value as text: the number, or `"none"`.
pub open spec fn limit_value_text(limit: Option<u32>) -> Seq<char> {
    match limit {
        Some(l) => decimal(l as nat),
        None => "none"@,
    }
}

/// Display text for the limit value (`"250"` or `"none"`).
pub fn limit_text(limit: Option<u32>) -> (s: String)
    ensures
        s@ == limit_value_text(limit),
{
    let mut out = String::new();
    match limit {
        Some(l) => push_decimal(&mut out, l as u64),
        None => push_str(&mut out, "none"),
    }
    out
}

/// Chip text for the limit option: `"Limit: N"` / `"Limit: none"`.
pub fn limit_chip_text(limit: Option<u32>) -> (s: String)
    ensures
        s@ == "Limit: "@ + limit_value_text(limit),
{
    let mut out = String::new();
    push_str(&mut out, "Limit: ");
    let t = limit_text(limit);
    push_str(&mut out, t.as_str());
    out
}

/// One fighter's round on one line:
/// `"<name>  R<n>  sig L/A  td L/A  kd K  ctrl m:ss"` (`?` and `0` stand in for
/// a missing name and round).
pub open spec fn round_summary_text(
    name: Option<Seq<char>>,
    round: Option<i64>,
    sig_landed: i64,
    sig_attempted: i64,
    td_landed: i64,
    td_attempted: i64,
    knockdowns: i64,
    control_secs: i64,
) -> Seq<char> {
    (match name { Some(n) => n, None => "?"@ }) + "  R"@
        + signed_decimal(match round { Some(r) => r as int, None => 0 }) + "  sig "@
        + signed_decimal(sig_landed as int) + seq!['/'] + signed_decimal(sig_attempted as int) + "  td "@
        + signed_decimal(td_landed as int) + seq!['/'] + signed_decimal(td_attempted as int) + "  kd "@
        + signed_decimal(knockdowns as int) + "  ctrl "@ + mmss_text(control_secs as int)
}

/// Summarises one fighter's work in one round.
pub fn round_summary(
    name: Option<&str>,
    round: Option<i64>,
    sig_landed: i64,
    sig_attempted: i64,
    td_landed: i64,
    td_attempted: i64,
    knockdowns: i64,
    control_secs: i64,
) -> (s: String)
    ensures
        s@ == round_summary_text(
            match name { Some(n) => Some(n@), None => None },
            round,
            sig_landed,
            sig_attempted,
            td_landed,
            td_attempted,
            knockdowns,
            control_secs,
        ),
{
    let mut out = String::new();
    match name {
        Some(n) => push_str(&mut out, n),
        None => push_str(&mut out, "?"),
    }
    push_str(&mut out, "  R");
    push_signed_decimal(&mut out, match round { Some(r) => r, None => 0 });
    push_str(&mut out, "  sig ");
    push_signed_decimal(&mut out, sig_landed);
    out.push('/');
    push_signed_decimal(&mut out, sig_attempted);
    push_str(&mut out, "  td ");
    push_signed_decimal(&mut out, td_landed);
    out.push('/');
    push_signed_decimal(&mut out, td_attempted);
    push_str(&mut out, "  kd ");
    push_signed_decimal(&mut out, knockdowns);
    push_str(&mut out, "  ctrl ");
    let ctrl = mmss(control_secs);
    push_str(&mut out, ctrl.as_str());
    out
}

/// The dated span of the events table: both ends when they differ, one date
/// when they agree, a placeholder when no event is dated.
pub open spec fn coverage_line(earliest: Option<String>, latest: Option<String>) -> Seq<char> {
    match (earliest, latest) {
        (Some(a), Some(b)) => if a@ != b@ {
            "Coverage: "@ + a@ + " → "@ + b@
        } else {
            "Coverage: "@ + a@
        },
        _ => "Coverage: (no dated events)"@,
    }
}

/// Builds [`coverage_line`].
pub fn coverage_text(earliest: &Option<String>, latest: &Option<String>) -> (s: String)
    ensures
        s@ == coverage_line(*earliest, *latest),
{
    let mut out = String::new();
    match (earliest, latest) {
        (Some(a), Some(b)) => {
            push_str(&mut out, "Coverage: ");
            push_str(&mut out, a.as_str());
            if !str_eq(a.as_str(), b.as_str()) {
                push_str(&mut out, " → ");
                push_str(&mut out, b.as_str());
            }
        },
        _ => push_str(&mut out, "Coverage: (no dated events)"),
    }
    out
}

} // verus!
