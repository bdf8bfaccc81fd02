//! Plain-English explanations of the stat keys shown on the fighter and
//! predict screens, with the aliases the pipeline uses for them.

use vstd::prelude::*;
use crate::text::{all_ws, is_ws, str_eq};

verus! {

/// The canonical stat key: win-probability aliases, `reach`, `height` and
/// `winrate` map to their canonical names; every other key is itself.
pub open spec fn canonical_key(k: Seq<char>) -> Seq<char> {
    if k == "win_prob"@ || k == "probability"@ || k == "prob_a"@ || k == "prob_b"@ || k == "prob"@ {
        "win_probability"@
    } else if k == "reach"@ {
        "reach_in"@
    } else if k == "height"@ {
        "height_in"@
    } else if k == "winrate"@ {
        "recent_winrate"@
    } else {
        k
    }
}

/// Normalizes a stat key: a database column name, or one of the friendly
/// aliases the predictor uses, to its canonical name.
pub fn canonical(stat_key: &str) -> (k: &str)
    ensures
        k@ == canonical_key(stat_key@),
{
    if str_eq(stat_key, "win_prob") || str_eq(stat_key, "probability") || str_eq(stat_key, "prob_a")
        || str_eq(stat_key, "prob_b") || str_eq(stat_key, "prob") {
        "win_probability"
    } else if str_eq(stat_key, "reach") {
        "reach_in"
    } else if str_eq(stat_key, "height") {
        "height_in"
    } else if str_eq(stat_key, "winrate") {
        "recent_winrate"
    } else {
        stat_key
    }
}

/// The explanation of a canonical stat key, or the generic fallback.
pub open spec fn explanation(k: Seq<char>) -> Seq<char> {
    if k == "slpm"@ {
        "Significant strikes a fighter lands per minute — how busy and offensive they are on the feet (higher means more output)."@
    } else if k == "str_acc"@ {
        "Striking accuracy: the share of attempted strikes that actually land — higher means cleaner, more precise punching and kicking."@
    } else if k == "sapm"@ {
        "Significant strikes a fighter absorbs per minute — how much damage they take (lower is better, it means they get hit less)."@
    } else if k == "str_def"@ {
        "Striking defense: the share of opponents' strikes the fighter avoids or blocks — higher means they are harder to hit."@
    } else if k == "td_avg"@ {
        "Average takedowns landed per 15 minutes — how often a fighter drags the fight to the mat (higher means a stronger wrestler)."@
    } else if k == "td_acc"@ {
        "Takedown accuracy: the share of takedown attempts that succeed — higher means their wrestling shots actually finish."@
    } else if k == "td_def"@ {
        "Takedown defense: the share of opponents' takedown attempts the fighter stuffs — higher means they keep the fight standing."@
    } else if k == "sub_avg"@ {
        "Average submission attempts per 15 minutes — how actively a fighter hunts for chokes and joint locks (higher means a grappling threat)."@
    } else if k == "elo"@ {
        "An overall skill rating earned by beating opponents — like a chess rank for fighters; around 1500 is average and the best are 1750+."@
    } else if k == "age"@ {
        "The fighter's age in years on fight day — younger fighters are usually fresher, older ones more experienced but more worn down."@
    } else if k == "record"@ {
        "The fighter's career win-loss record (wins first) — a quick read on how often they have won versus lost."@
    } else if k == "reach_in"@ {
        "Arm span (fingertip to fingertip) in inches — a longer reach lets a fighter hit from farther away while staying out of range."@
    } else if k == "height_in"@ {
        "The fighter's height in inches — taller fighters often have leverage and reach advantages, though it is not always decisive."@
    } else if k == "stance"@ {
        "Which side the fighter leads with: orthodox (left foot forward), southpaw (right foot forward), or switch (changes between them)."@
    } else if k == "recent_winrate"@ {
        "The share of recent fights the fighter has won — a snapshot of how well they have been doing lately rather than over a whole career."@
    } else if k == "form_delta"@ {
        "Whether the fighter is trending up or down — a positive number means improving form, a negative number means a recent slide."@
    } else if k == "layoff_days"@ {
        "Days since the fighter's last bout — a long layoff can mean ring rust, while a short one means they are sharp and active."@
    } else if k == "win_probability"@ {
        "The model's estimated chance this fighter wins — 50% is a coin flip, and the farther above 50% the more confident the pick."@
    } else {
        "A fighter statistic (no plain-English description available)."@
    }
}

/// A short, plain-English explanation of what `stat_key` measures; unknown
/// keys get a generic fallback.
pub fn explain(stat_key: &str) -> (text: &'static str)
    ensures
        text@ == explanation(canonical_key(stat_key@)),
{
    let k = canonical(stat_key);
    if str_eq(k, "slpm") {
        "Significant strikes a fighter lands per minute — how busy and offensive they are on the feet (higher means more output)."
    } else if str_eq(k, "str_acc") {
        "Striking accuracy: the share of attempted strikes that actually land — higher means cleaner, more precise punching and kicking."
    } else if str_eq(k, "sapm") {
        "Significant strikes a fighter absorbs per minute — how much damage they take (lower is better, it means they get hit less)."
    } else if str_eq(k, "str_def") {
        "Striking defense: the share of opponents' strikes the fighter avoids or blocks — higher means they are harder to hit."
    } else if str_eq(k, "td_avg") {
        "Average takedowns landed per 15 minutes — how often a fighter drags the fight to the mat (higher means a stronger wrestler)."
    } else if str_eq(k, "td_acc") {
        "Takedown accuracy: the share of takedown attempts that succeed — higher means their wrestling shots actually finish."
    } else if str_eq(k, "td_def") {
        "Takedown defense: the share of opponents' takedown attempts the fighter stuffs — higher means they keep the fight standing."
    } else if str_eq(k, "sub_avg") {
        "Average submission attempts per 15 minutes — how actively a fighter hunts for chokes and joint locks (higher means a grappling threat)."
    } else if str_eq(k, "elo") {
        "An overall skill rating earned by beating opponents — like a chess rank for fighters; around 1500 is average and the best are 1750+."
    } else if str_eq(k, "age") {
        "The fighter's age in years on fight day — younger fighters are usually fresher, older ones more experienced but more worn down."
    } else if str_eq(k, "record") {
        "The fighter's career win-loss record (wins first) — a quick read on how often they have won versus lost."
    } else if str_eq(k, "reach_in") {
        "Arm span (fingertip to fingertip) in inches — a longer reach lets a fighter hit from farther away while staying out of range."
    } else if str_eq(k, "height_in") {
        "The fighter's height in inches — taller fighters often have leverage and reach advantages, though it is not always decisive."
    } else if str_eq(k, "stance") {
        "Which side the fighter leads with: orthodox (left foot forward), southpaw (right foot forward), or switch (changes between them)."
    } else if str_eq(k, "recent_winrate") {
        "The share of recent fights the fighter has won — a snapshot of how well they have been doing lately rather than over a whole career."
    } else if str_eq(k, "form_delta") {
        "Whether the fighter is trending up or down — a positive number means improving form, a negative number means a recent slide."
    } else if str_eq(k, "layoff_days") {
        "Days since the fighter's last bout — a long layoff can mean ring rust, while a short one means they are sharp and active."
    } else if str_eq(k, "win_probability") {
        "The model's estimated chance this fighter wins — 50% is a coin flip, and the farther above 50% the more confident the pick."
    } else {
        "A fighter statistic (no plain-English description available)."
    }
}

/// Canonicalizing twice is the same as once, so an alias explains exactly
/// what its canonical key explains.
pub proof fn canonical_is_idempotent(k: Seq<char>)
    ensures
        canonical_key(canonical_key(k)) == canonical_key(k),
        explanation(canonical_key(canonical_key(k))) == explanation(canonical_key(k)),
{
    reveal_strlit("win_prob");
    reveal_strlit("probability");
    reveal_strlit("prob_a");
    reveal_strlit("prob_b");
    reveal_strlit("prob");
    reveal_strlit("reach");
    reveal_strlit("height");
    reveal_strlit("winrate");
    reveal_strlit("win_probability");
    reveal_strlit("reach_in");
    reveal_strlit("height_in");
    reveal_strlit("recent_winrate");
    let aliases = seq!["win_prob"@, "probability"@, "prob_a"@, "prob_b"@, "prob"@, "reach"@, "height"@, "winrate"@];
    let targets = seq!["win_probability"@, "reach_in"@, "height_in"@, "recent_winrate"@];
    assert forall|i: int, j: int| 0 <= i < 8 && 0 <= j < 4 implies aliases[i] != targets[j] by {
        assert(aliases[i].len() != targets[j].len() || aliases[i][0] != targets[j][0]
            || aliases[i][aliases[i].len() - 1] != targets[j][targets[j].len() - 1]);
    }
    assert(aliases[0] == "win_prob"@);
    assert(targets[0] == "win_probability"@);
}

/// The stat keys the screens explain, in display order.
pub open spec fn supported_keys() -> Seq<Seq<char>> {
    seq!["slpm"@, "str_acc"@, "sapm"@, "str_def"@, "td_avg"@, "td_acc"@, "td_def"@, "sub_avg"@, "elo"@, "age"@, "record"@, "reach_in"@, "height_in"@, "stance"@, "recent_winrate"@, "form_delta"@, "layoff_days"@, "win_probability"@]
}

/// The explanation given to keys that have none of their own.
pub open spec fn fallback_explanation() -> Seq<char> {
    "A fighter statistic (no plain-English description available)."@
}

/// Every supported key has its own explanation: a real sentence (longer than
/// fifteen characters, not blank), different from every other key's and from
/// the fallback.
pub proof fn supported_explanations_are_distinct_sentences()
    ensures
        supported_keys().len() == 18,
        forall|i: int| 0 <= i < supported_keys().len() ==> {
            let t = explanation(canonical_key(#[trigger] supported_keys()[i]));
            &&& t.len() > 15
            &&& !all_ws(t)
            &&& t != fallback_explanation()
        },
        forall|i: int, j: int| 0 <= i < j < supported_keys().len() ==>
            explanation(canonical_key(#[trigger] supported_keys()[i])) != explanation(canonical_key(#[trigger] supported_keys()[j])),
{
    reveal_strlit("slpm");
    reveal_strlit("str_acc");
    reveal_strlit("sapm");
    reveal_strlit("str_def");
    reveal_strlit("td_avg");
    reveal_strlit("td_acc");
    reveal_strlit("td_def");
    reveal_strlit("sub_avg");
    reveal_strlit("elo");
    reveal_strlit("age");
    reveal_strlit("record");
    reveal_strlit("reach_in");
    reveal_strlit("height_in");
    reveal_strlit("stance");
    reveal_strlit("recent_winrate");
    reveal_strlit("form_delta");
    reveal_strlit("layoff_days");
    reveal_strlit("win_probability");
    reveal_strlit("Significant strikes a fighter lands per minute — how busy and offensive they are on the feet (higher means more output).");
    reveal_strlit("Striking accuracy: the share of attempted strikes that actually land — higher means cleaner, more precise punching and kicking.");
    reveal_strlit("Significant strikes a fighter absorbs per minute — how much damage they take (lower is better, it means they get hit less).");
    reveal_strlit("Striking defense: the share of opponents' strikes the fighter avoids or blocks — higher means they are harder to hit.");
    reveal_strlit("Average takedowns landed per 15 minutes — how often a fighter drags the fight to the mat (higher means a stronger wrestler).");
    reveal_strlit("Takedown accuracy: the share of takedown attempts that succeed — higher means their wrestling shots actually finish.");
    reveal_strlit("Takedown defense: the share of opponents' takedown attempts the fighter stuffs — higher means they keep the fight standing.");
    reveal_strlit("Average submission attempts per 15 minutes — how actively a fighter hunts for chokes and joint locks (higher means a grappling threat).");
    reveal_strlit("An overall skill rating earned by beating opponents — like a chess rank for fighters; around 1500 is average and the best are 1750+.");
    reveal_strlit("The fighter's age in years on fight day — younger fighters are usually fresher, older ones more experienced but more worn down.");
    reveal_strlit("The fighter's career win-loss record (wins first) — a quick read on how often they have won versus lost.");
    reveal_strlit("Arm span (fingertip to fingertip) in inches — a longer reach lets a fighter hit from farther away while staying out of range.");
    reveal_strlit("The fighter's height in inches — taller fighters often have leverage and reach advantages, though it is not always decisive.");
    reveal_strlit("Which side the fighter leads with: orthodox (left foot forward), southpaw (right foot forward), or switch (changes between them).");
    reveal_strlit("The share of recent fights the fighter has won — a snapshot of how well they have been doing lately rather than over a whole career.");
    reveal_strlit("Whether the fighter is trending up or down — a positive number means improving form, a negative number means a recent slide.");
    reveal_strlit("Days since the fighter's last bout — a long layoff can mean ring rust, while a short one means they are sharp and active.");
    reveal_strlit("The model's estimated chance this fighter wins — 50% is a coin flip, and the farther above 50% the more confident the pick.");
    reveal_strlit("A fighter statistic (no plain-English description available).");
    reveal_strlit("win_prob");
    reveal_strlit("probability");
    reveal_strlit("prob_a");
    reveal_strlit("prob_b");
    reveal_strlit("prob");
    reveal_strlit("reach");
    reveal_strlit("height");
    reveal_strlit("winrate");
    let ks = supported_keys();
    assert("slpm"@[1] != "sapm"@[1]);
    assert("slpm"@[0] != "prob"@[0]);
    assert("str_acc"@[4] != "str_def"@[4]);
    assert("str_acc"@[1] != "sub_avg"@[1]);
    assert("str_acc"@[0] != "winrate"@[0]);
    assert("sapm"@[0] != "prob"@[0]);
    assert("str_def"@[1] != "sub_avg"@[1]);
    assert("str_def"@[0] != "winrate"@[0]);
    assert("td_avg"@[4] != "td_acc"@[4]);
    assert("td_avg"@[3] != "td_def"@[3]);
    assert("td_avg"@[0] != "record"@[0]);
    assert("td_avg"@[0] != "stance"@[0]);
    assert("td_avg"@[0] != "prob_a"@[0]);
    assert("td_avg"@[0] != "prob_b"@[0]);
    assert("td_avg"@[0] != "height"@[0]);
    assert("td_acc"@[3] != "td_def"@[3]);
    assert("td_acc"@[0] != "record"@[0]);
    assert("td_acc"@[0] != "stance"@[0]);
    assert("td_acc"@[0] != "prob_a"@[0]);
    assert("td_acc"@[0] != "prob_b"@[0]);
    assert("td_acc"@[0] != "height"@[0]);
    assert("td_def"@[0] != "record"@[0]);
    assert("td_def"@[0] != "stance"@[0]);
    assert("td_def"@[0] != "prob_a"@[0]);
    assert("td_def"@[0] != "prob_b"@[0]);
    assert("td_def"@[0] != "height"@[0]);
    assert("sub_avg"@[0] != "winrate"@[0]);
    assert("elo"@[0] != "age"@[0]);
    assert("record"@[0] != "stance"@[0]);
    assert("record"@[0] != "prob_a"@[0]);
    assert("record"@[0] != "prob_b"@[0]);
    assert("record"@[0] != "height"@[0]);
    assert("reach_in"@[0] != "win_prob"@[0]);
    assert("stance"@[0] != "prob_a"@[0]);
    assert("stance"@[0] != "prob_b"@[0]);
    assert("stance"@[0] != "height"@[0]);
    assert("layoff_days"@[0] != "probability"@[0]);
    assert("prob_a"@[5] != "prob_b"@[5]);
    assert("prob_a"@[0] != "height"@[0]);
    assert("prob_b"@[0] != "height"@[0]);
    assert("Striking accuracy: the share of attempted strikes that actually land — higher means cleaner, more precise punching and kicking."@[0] != "The fighter's age in years on fight day — younger fighters are usually fresher, older ones more experienced but more worn down."@[0]);
    assert("Significant strikes a fighter absorbs per minute — how much damage they take (lower is better, it means they get hit less)."@[0] != "Takedown defense: the share of opponents' takedown attempts the fighter stuffs — higher means they keep the fight standing."@[0]);
    assert("Significant strikes a fighter absorbs per minute — how much damage they take (lower is better, it means they get hit less)."@[0] != "The model's estimated chance this fighter wins — 50% is a coin flip, and the farther above 50% the more confident the pick."@[0]);
    assert("Average takedowns landed per 15 minutes — how often a fighter drags the fight to the mat (higher means a stronger wrestler)."@[0] != "The fighter's height in inches — taller fighters often have leverage and reach advantages, though it is not always decisive."@[0]);
    assert("Average takedowns landed per 15 minutes — how often a fighter drags the fight to the mat (higher means a stronger wrestler)."@[0] != "Whether the fighter is trending up or down — a positive number means improving form, a negative number means a recent slide."@[0]);
    assert("Takedown defense: the share of opponents' takedown attempts the fighter stuffs — higher means they keep the fight standing."@[1] != "The model's estimated chance this fighter wins — 50% is a coin flip, and the farther above 50% the more confident the pick."@[1]);
    assert("An overall skill rating earned by beating opponents — like a chess rank for fighters; around 1500 is average and the best are 1750+."@[0] != "The share of recent fights the fighter has won — a snapshot of how well they have been doing lately rather than over a whole career."@[0]);
    assert("The fighter's height in inches — taller fighters often have leverage and reach advantages, though it is not always decisive."@[0] != "Whether the fighter is trending up or down — a positive number means improving form, a negative number means a recent slide."@[0]);
    assert(ks[0] == "slpm"@);
    assert(canonical_key("slpm"@) == "slpm"@);
    assert(explanation("slpm"@) == "Significant strikes a fighter lands per minute — how busy and offensive they are on the feet (higher means more output)."@);
    assert(!is_ws("Significant strikes a fighter lands per minute — how busy and offensive they are on the feet (higher means more output)."@[0]));
    assert(ks[1] == "str_acc"@);
    assert(canonical_key("str_acc"@) == "str_acc"@);
    assert(explanation("str_acc"@) == "Striking accuracy: the share of attempted strikes that actually land — higher means cleaner, more precise punching and kicking."@);
    assert(!is_ws("Striking accuracy: the share of attempted strikes that actually land — higher means cleaner, more precise punching and kicking."@[0]));
    assert(ks[2] == "sapm"@);
    assert(canonical_key("sapm"@) == "sapm"@);
    assert(explanation("sapm"@) == "Significant strikes a fighter absorbs per minute — how much damage they take (lower is better, it means they get hit less)."@);
    assert(!is_ws("Significant strikes a fighter absorbs per minute — how much damage they take (lower is better, it means they get hit less)."@[0]));
    assert(ks[3] == "str_def"@);
    assert(canonical_key("str_def"@) == "str_def"@);
    assert(explanation("str_def"@) == "Striking defense: the share of opponents' strikes the fighter avoids or blocks — higher means they are harder to hit."@);
    assert(!is_ws("Striking defense: the share of opponents' strikes the fighter avoids or blocks — higher means they are harder to hit."@[0]));
    assert(ks[4] == "td_avg"@);
    assert(canonical_key("td_avg"@) == "td_avg"@);
    assert(explanation("td_avg"@) == "Average takedowns landed per 15 minutes — how often a fighter drags the fight to the mat (higher means a stronger wrestler)."@);
    assert(!is_ws("Average takedowns landed per 15 minutes — how often a fighter drags the fight to the mat (higher means a stronger wrestler)."@[0]));
    assert(ks[5] == "td_acc"@);
    assert(canonical_key("td_acc"@) == "td_acc"@);
    assert(explanation("td_acc"@) == "Takedown accuracy: the share of takedown attempts that succeed — higher means their wrestling shots actually finish."@);
    assert(!is_ws("Takedown accuracy: the share of takedown attempts that succeed — higher means their wrestling shots actually finish."@[0]));
    assert(ks[6] == "td_def"@);
    assert(canonical_key("td_def"@) == "td_def"@);
    assert(explanation("td_def"@) == "Takedown defense: the share of opponents' takedown attempts the fighter stuffs — higher means they keep the fight standing."@);
    assert(!is_ws("Takedown defense: the share of opponents' takedown attempts the fighter stuffs — higher means they keep the fight standing."@[0]));
    assert(ks[7] == "sub_avg"@);
    assert(canonical_key("sub_avg"@) == "sub_avg"@);
    assert(explanation("sub_avg"@) == "Average submission attempts per 15 minutes — how actively a fighter hunts for chokes and joint locks (higher means a grappling threat)."@);
    assert(!is_ws("Average submission attempts per 15 minutes — how actively a fighter hunts for chokes and joint locks (higher means a grappling threat)."@[0]));
    assert(ks[8] == "elo"@);
    assert(canonical_key("elo"@) == "elo"@);
    assert(explanation("elo"@) == "An overall skill rating earned by beating opponents — like a chess rank for fighters; around 1500 is average and the best are 1750+."@);
    assert(!is_ws("An overall skill rating earned by beating opponents — like a chess rank for fighters; around 1500 is average and the best are 1750+."@[0]));
    assert(ks[9] == "age"@);
    assert(canonical_key("age"@) == "age"@);
    assert(explanation("age"@) == "The fighter's age in years on fight day — younger fighters are usually fresher, older ones more experienced but more worn down."@);
    assert(!is_ws("The fighter's age in years on fight day — younger fighters are usually fresher, older ones more experienced but more worn down."@[0]));
    assert(ks[10] == "record"@);
    assert(canonical_key("record"@) == "record"@);
    assert(explanation("record"@) == "The fighter's career win-loss record (wins first) — a quick read on how often they have won versus lost."@);
    assert(!is_ws("The fighter's career win-loss record (wins first) — a quick read on how often they have won versus lost."@[0]));
    assert(ks[11] == "reach_in"@);
    assert(canonical_key("reach_in"@) == "reach_in"@);
    assert(explanation("reach_in"@) == "Arm span (fingertip to fingertip) in inches — a longer reach lets a fighter hit from farther away while staying out of range."@);
    assert(!is_ws("Arm span (fingertip to fingertip) in inches — a longer reach lets a fighter hit from farther away while staying out of range."@[0]));
    assert(ks[12] == "height_in"@);
    assert(canonical_key("height_in"@) == "height_in"@);
    assert(explanation("height_in"@) == "The fighter's height in inches — taller fighters often have leverage and reach advantages, though it is not always decisive."@);
    assert(!is_ws("The fighter's height in inches — taller fighters often have leverage and reach advantages, though it is not always decisive."@[0]));
    assert(ks[13] == "stance"@);
    assert(canonical_key("stance"@) == "stance"@);
    assert(explanation("stance"@) == "Which side the fighter leads with: orthodox (left foot forward), southpaw (right foot forward), or switch (changes between them)."@);
    assert(!is_ws("Which side the fighter leads with: orthodox (left foot forward), southpaw (right foot forward), or switch (changes between them)."@[0]));
    assert(ks[14] == "recent_winrate"@);
    assert(canonical_key("recent_winrate"@) == "recent_winrate"@);
    assert(explanation("recent_winrate"@) == "The share of recent fights the fighter has won — a snapshot of how well they have been doing lately rather than over a whole career."@);
    assert(!is_ws("The share of recent fights the fighter has won — a snapshot of how well they have been doing lately rather than over a whole career."@[0]));
    assert(ks[15] == "form_delta"@);
    assert(canonical_key("form_delta"@) == "form_delta"@);
    assert(explanation("form_delta"@) == "Whether the fighter is trending up or down — a positive number means improving form, a negative number means a recent slide."@);
    assert(!is_ws("Whether the fighter is trending up or down — a positive number means improving form, a negative number means a recent slide."@[0]));
    assert(ks[16] == "layoff_days"@);
    assert(canonical_key("layoff_days"@) == "layoff_days"@);
    assert(explanation("layoff_days"@) == "Days since the fighter's last bout — a long layoff can mean ring rust, while a short one means they are sharp and active."@);
    assert(!is_ws("Days since the fighter's last bout — a long layoff can mean ring rust, while a short one means they are sharp and active."@[0]));
    assert(ks[17] == "win_probability"@);
    assert(canonical_key("win_probability"@) == "win_probability"@);
    assert(explanation("win_probability"@) == "The model's estimated chance this fighter wins — 50% is a coin flip, and the farther above 50% the more confident the pick."@);
    assert(!is_ws("The model's estimated chance this fighter wins — 50% is a coin flip, and the farther above 50% the more confident the pick."@[0]));
}

} // verus!
