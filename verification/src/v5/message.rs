//! The human-facing summary line of a skill check.

use vstd::prelude::*;
use crate::text::{append_str, u64_decimal, i64_decimal, decimal, signed_decimal, starts_with};
use crate::v5::types::{Outcome, RollResult, SkillCheckInput};

verus! {

/// "Charlotte's Strength + Brawl check", or "Strength + Brawl check" when
/// no (or an empty) character name is given.
pub open spec fn check_head(input: SkillCheckInput) -> Seq<char> {
    let tail = input.attribute.name@ + " + "@ + input.skill.name@ + " check"@;
    match input.character_name {
        Some(n) => if n@.len() > 0 {
            n@ + "'s "@ + tail
        } else {
            tail
        },
        None => tail,
    }
}

/// The most specific descriptor of an outcome, by priority.
pub open spec fn descriptor(o: Outcome) -> Seq<char> {
    if o.flags.messy {
        "Messy Critical"@
    } else if o.flags.critical && o.passed {
        "Critical"@
    } else if o.flags.bestial_failure && o.flags.total_failure {
        "Bestial Total Failure"@
    } else if o.flags.bestial_failure {
        "Bestial Failure"@
    } else if o.flags.total_failure {
        "Total Failure"@
    } else if o.passed {
        "Success"@
    } else {
        "Failure"@
    }
}

/// "+3" for a non-negative margin, "-2" for a negative one.
pub open spec fn margin_text(m: int) -> Seq<char> {
    if m >= 0 {
        "+"@ + decimal(m as nat)
    } else {
        signed_decimal(m)
    }
}

/// "<head> · <descriptor> · <margin> (<successes> vs DV <difficulty>)".
pub open spec fn skill_check_message(input: SkillCheckInput, o: Outcome) -> Seq<char> {
    check_head(input) + " · "@ + descriptor(o) + " · "@ + margin_text(o.margin as int) + " ("@
        + decimal(o.successes as nat) + " vs DV "@ + decimal(o.difficulty as nat) + ")"@
}

/// Law: an outcome with no messy, critical, bestial or total-failure flag
/// reads "Success" exactly when its successes meet the difficulty (a
/// margin of 0 included) and "Failure" otherwise, right after the head.
pub proof fn lemma_plain_outcome_reads_pass_or_fail(input: SkillCheckInput, o: Outcome)
    requires
        !o.flags.messy,
        !o.flags.critical,
        !o.flags.bestial_failure,
        !o.flags.total_failure,
        o.passed == (o.successes >= o.difficulty),
        o.margin == o.successes - o.difficulty,
    ensures
        o.successes >= o.difficulty ==> starts_with(
            skill_check_message(input, o),
            check_head(input) + " · Success · "@,
        ),
        o.successes < o.difficulty ==> starts_with(
            skill_check_message(input, o),
            check_head(input) + " · Failure · "@,
        ),
{
    reveal_strlit(" · ");
    reveal_strlit("Success");
    reveal_strlit("Failure");
    reveal_strlit(" · Success · ");
    reveal_strlit(" · Failure · ");
    let h = check_head(input);
    let m = skill_check_message(input, o);
    let rest = margin_text(o.margin as int) + " ("@ + decimal(o.successes as nat) + " vs DV "@
        + decimal(o.difficulty as nat) + ")"@;
    if o.successes >= o.difficulty {
        let p = h + " · Success · "@;
        assert(" · Success · "@ =~= " · "@ + "Success"@ + " · "@);
        assert(m =~= p + rest);
        assert(m.take(p.len() as int) =~= p);
    } else {
        let p = h + " · Failure · "@;
        assert(" · Failure · "@ =~= " · "@ + "Failure"@ + " · "@);
        assert(m =~= p + rest);
        assert(m.take(p.len() as int) =~= p);
    }
}

fn descriptor_text(o: &Outcome) -> (r: &'static str)
    ensures
        r@ == descriptor(*o),
{
    if o.flags.messy {
        "Messy Critical"
    } else if o.flags.critical && o.passed {
        "Critical"
    } else if o.flags.bestial_failure && o.flags.total_failure {
        "Bestial Total Failure"
    } else if o.flags.bestial_failure {
        "Bestial Failure"
    } else if o.flags.total_failure {
        "Total Failure"
    } else if o.passed {
        "Success"
    } else {
        "Failure"
    }
}

/// Formats the summary string of a skill check (see `skill_check_message`).
pub fn format_skill_check(input: &SkillCheckInput, _result: &RollResult, outcome: &Outcome) -> (s: String)
    ensures
        s@ == skill_check_message(*input, *outcome),
{
    let mut s = String::new();
    match &input.character_name {
        Some(name) => {
            if !name.as_str().is_empty() {
                append_str(&mut s, name.as_str());
                append_str(&mut s, "'s ");
            }
        },
        None => {},
    }
    append_str(&mut s, input.attribute.name.as_str());
    append_str(&mut s, " + ");
    append_str(&mut s, input.skill.name.as_str());
    append_str(&mut s, " check");
    assert(s@ =~= check_head(*input));
    append_str(&mut s, " · ");
    append_str(&mut s, descriptor_text(outcome));
    append_str(&mut s, " · ");
    if outcome.margin >= 0 {
        append_str(&mut s, "+");
        let m = u64_decimal(outcome.margin as u64);
        append_str(&mut s, m.as_str());
    } else {
        let m = i64_decimal(outcome.margin as i64);
        append_str(&mut s, m.as_str());
    }
    append_str(&mut s, " (");
    let su = u64_decimal(outcome.successes as u64);
    append_str(&mut s, su.as_str());
    append_str(&mut s, " vs DV ");
    let dv = u64_decimal(outcome.difficulty as u64);
    append_str(&mut s, dv.as_str());
    append_str(&mut s, ")");
    assert(s@ =~= skill_check_message(*input, *outcome));
    s
}

} // verus!
