//! Foundry WoD5e roll message → canonical roll. Foundry does not keep the
//! roll's classification on the chat message, so the criticals and the
//! messy / bestial / brutal flags are recomputed from the dice.

use vstd::prelude::*;
use vstd::utf8::encode_utf8;
use crate::json::Json;
use crate::text::str_eq;
use crate::bridge::types::{CanonicalRoll, CanonicalRollV, RollSplat, SourceKind, copy_opt_string, opt_view};

verus! {

/// A roll result as the Foundry module reports it.
#[derive(Debug)]
pub struct FoundryRollMessage {
    pub message_id: String,
    pub actor_id: Option<String>,
    pub actor_name: Option<String>,
    pub timestamp: Option<String>,
    pub flavor: String,
    pub formula: String,
    /// The splat the module reports ("mortal", "vampire", ...), possibly unknown.
    pub splat: String,
    pub basic_results: Vec<u8>,
    pub advanced_results: Vec<u8>,
    pub total: u32,
    pub difficulty: Option<u32>,
    pub raw: Json,
}

pub open spec fn is_ascii_digit_byte(b: u8) -> bool {
    48 <= b <= 57
}

/// The formula's bytes hold `<digit>d<denom>` somewhere: a die-count digit
/// immediately before `d`, then the denomination byte.
pub open spec fn has_die_spec(b: Seq<u8>, denom: u8) -> bool {
    exists|i: int|
        1 <= i && i + 1 < b.len() && #[trigger] b[i] == 100u8 && b[i + 1] == denom
            && is_ascii_digit_byte(b[i - 1])
}

/// The splat a formula's dice denominations reveal, most specific first.
pub open spec fn splat_from_formula(b: Seq<u8>) -> RollSplat {
    if has_die_spec(b, 118u8) || has_die_spec(b, 103u8) {
        RollSplat::Vampire
    } else if has_die_spec(b, 119u8) || has_die_spec(b, 114u8) {
        RollSplat::Werewolf
    } else if has_die_spec(b, 104u8) || has_die_spec(b, 115u8) {
        RollSplat::Hunter
    } else if has_die_spec(b, 109u8) {
        RollSplat::Mortal
    } else {
        RollSplat::Unknown
    }
}

/// The module's splat string when it names a known splat, else the splat
/// detected from the formula.
pub open spec fn splat_of(js: Seq<char>, formula: Seq<u8>) -> RollSplat {
    if js == "mortal"@ {
        RollSplat::Mortal
    } else if js == "vampire"@ {
        RollSplat::Vampire
    } else if js == "werewolf"@ {
        RollSplat::Werewolf
    } else if js == "hunter"@ {
        RollSplat::Hunter
    } else {
        splat_from_formula(formula)
    }
}

/// Number of tens among the dice.
pub open spec fn count_tens(s: Seq<u8>) -> nat
    decreases s.len(),
{
    if s.len() == 0 {
        0
    } else {
        count_tens(s.drop_last()) + if s.last() == 10 { 1nat } else { 0nat }
    }
}

/// Criticals: tens on the basic dice, plus tens on the advanced dice for
/// vampires (hunger), werewolves (rage) and hunters (desperation).
pub open spec fn criticals_spec(basic: Seq<u8>, advanced: Seq<u8>, splat: RollSplat) -> nat {
    count_tens(basic) + match splat {
        RollSplat::Vampire | RollSplat::Werewolf | RollSplat::Hunter => count_tens(advanced),
        _ => 0,
    }
}

/// The dice of `s` that show 10.
pub open spec fn tens_of(s: Seq<u8>) -> Seq<u8> {
    s.filter(|d: u8| d == 10u8)
}

proof fn lemma_count_tens_filter(s: Seq<u8>)
    ensures
        count_tens(s) == tens_of(s).len(),
    decreases s.len(),
{
    reveal(Seq::filter);
    if s.len() > 0 {
        lemma_count_tens_filter(s.drop_last());
    }
}

/// Law: the criticals of a vampire, werewolf or hunter roll are all the
/// tens among its basic and advanced dice together (a rage or desperation
/// ten counts like any other); for any other splat only the basic dice's
/// tens count.
pub proof fn lemma_criticals_are_tens(basic: Seq<u8>, advanced: Seq<u8>, splat: RollSplat)
    ensures
        (splat == RollSplat::Vampire || splat == RollSplat::Werewolf || splat == RollSplat::Hunter)
            ==> criticals_spec(basic, advanced, splat) == tens_of(basic + advanced).len(),
        !(splat == RollSplat::Vampire || splat == RollSplat::Werewolf || splat == RollSplat::Hunter)
            ==> criticals_spec(basic, advanced, splat) == tens_of(basic).len(),
{
    lemma_count_tens_filter(basic);
    lemma_count_tens_filter(advanced);
    Seq::filter_distributes_over_add(basic, advanced, |d: u8| d == 10u8);
}

/// Law: a translated Foundry roll's criticals are the tens among all its
/// dice when its splat is vampire, werewolf or hunter, and the tens among
/// its basic dice otherwise.
pub proof fn lemma_roll_criticals_are_tens(raw: FoundryRollMessage)
    requires
        raw.basic_results@.len() + raw.advanced_results@.len() <= u32::MAX,
    ensures
        ({
            let c = canonical_roll_of(raw);
            &&& (c.splat == RollSplat::Vampire || c.splat == RollSplat::Werewolf || c.splat == RollSplat::Hunter)
                ==> c.criticals == tens_of(raw.basic_results@ + raw.advanced_results@).len()
            &&& !(c.splat == RollSplat::Vampire || c.splat == RollSplat::Werewolf || c.splat == RollSplat::Hunter)
                ==> c.criticals == tens_of(raw.basic_results@).len()
        }),
{
    let b = raw.basic_results@;
    let a = raw.advanced_results@;
    let splat = canonical_roll_of(raw).splat;
    lemma_criticals_are_tens(b, a, splat);
    Seq::lemma_filter_len(b, |d: u8| d == 10u8);
    Seq::lemma_filter_len(a, |d: u8| d == 10u8);
    Seq::filter_distributes_over_add(b, a, |d: u8| d == 10u8);
}

/// Matches an `Ndx` pattern in a Foundry roll formula: the byte before `d`
/// must be a digit, and `x` the die-class letter.
pub fn has_die(formula: &str, denom: char) -> (r: bool)
    ensures
        r == has_die_spec(encode_utf8(formula@), denom as u8),
{
    let pat1: u8 = denom as u8;
    let bytes = formula.as_bytes();
    if bytes.len() < 2 {
        return false;
    }
    let mut i: usize = 0;
    while i <= bytes.len() - 2
        invariant
            bytes@ == encode_utf8(formula@),
            bytes@.len() >= 2,
            pat1 == denom as u8,
            i <= bytes@.len() - 1,
            forall|k: int|
                #![trigger bytes@[k]]
                1 <= k < i && k + 1 < bytes@.len() ==> !(bytes@[k] == 100u8 && bytes@[k + 1] == pat1
                    && is_ascii_digit_byte(bytes@[k - 1])),
        decreases bytes@.len() - i,
    {
        if bytes[i] == 100u8 && bytes[i + 1] == pat1 {
            if i > 0 && bytes[i - 1] >= 48u8 && bytes[i - 1] <= 57u8 {
                return true;
            }
        }
        i += 1;
    }
    false
}

/// Detects the splat from the formula's dice denominations.
pub fn detect_splat_from_formula(formula: &str) -> (r: RollSplat)
    ensures
        r == splat_from_formula(encode_utf8(formula@)),
{
    if has_die(formula, 'v') || has_die(formula, 'g') {
        RollSplat::Vampire
    } else if has_die(formula, 'w') || has_die(formula, 'r') {
        RollSplat::Werewolf
    } else if has_die(formula, 'h') || has_die(formula, 's') {
        RollSplat::Hunter
    } else if has_die(formula, 'm') {
        RollSplat::Mortal
    } else {
        RollSplat::Unknown
    }
}

/// Trusts the module's splat string when it is a known value, else
/// re-detects from the formula.
pub fn parse_splat(js_splat: &str, formula: &str) -> (r: RollSplat)
    ensures
        r == splat_of(js_splat@, encode_utf8(formula@)),
{
    if str_eq(js_splat, "mortal") {
        RollSplat::Mortal
    } else if str_eq(js_splat, "vampire") {
        RollSplat::Vampire
    } else if str_eq(js_splat, "werewolf") {
        RollSplat::Werewolf
    } else if str_eq(js_splat, "hunter") {
        RollSplat::Hunter
    } else {
        detect_splat_from_formula(formula)
    }
}

fn tens_in(v: &Vec<u8>) -> (n: u64)
    requires
        v@.len() <= u32::MAX,
    ensures
        n == count_tens(v@),
        n <= v@.len(),
{
    let mut n: u64 = 0;
    let mut i: usize = 0;
    while i < v.len()
        invariant
            i <= v@.len() <= u32::MAX,
            n == count_tens(v@.take(i as int)),
            n <= i,
        decreases v.len() - i,
    {
        assert(v@.take(i + 1).drop_last() =~= v@.take(i as int));
        if v[i] == 10 {
            n += 1;
        }
        i += 1;
    }
    assert(v@.take(v@.len() as int) =~= v@);
    n
}

/// True when some die shows `face`.
fn any_is(v: &Vec<u8>, face: u8) -> (r: bool)
    ensures
        r == v@.contains(face),
{
    let mut i: usize = 0;
    while i < v.len()
        invariant
            i <= v@.len(),
            forall|k: int| 0 <= k < i ==> v@[k] != face,
        decreases v.len() - i,
    {
        if v[i] == face {
            assert(v@[i as int] == face);
            return true;
        }
        i += 1;
    }
    false
}

/// Counts critical successes (see `criticals_spec`). The dice lists are
/// bounded so that the count fits the roll's `u32`.
pub fn count_criticals(basic: &Vec<u8>, advanced: &Vec<u8>, splat: RollSplat) -> (r: u32)
    requires
        basic@.len() + advanced@.len() <= u32::MAX,
    ensures
        r == criticals_spec(basic@, advanced@, splat),
{
    let basic_tens = tens_in(basic);
    let advanced_tens: u64 = match splat {
        RollSplat::Vampire | RollSplat::Werewolf | RollSplat::Hunter => tens_in(advanced),
        _ => 0,
    };
    (basic_tens + advanced_tens) as u32
}

/// Translates a Foundry roll message: splat from the module's string (or
/// the formula), criticals from the tens, messy when a vampire's hunger
/// die shows 10, bestial when it shows 1, brutal when a werewolf's rage
/// The canonical view of a Foundry roll message (see `to_canonical_roll`).
pub open spec fn canonical_roll_of(raw: FoundryRollMessage) -> CanonicalRollV {
    let splat = splat_of(raw.splat@, encode_utf8(raw.formula@));
    CanonicalRollV {
        source: SourceKind::Foundry,
        source_id: raw.message_id@,
        actor_id: opt_view(raw.actor_id),
        actor_name: opt_view(raw.actor_name),
        timestamp: opt_view(raw.timestamp),
        splat,
        flavor: raw.flavor@,
        formula: raw.formula@,
        basic_results: raw.basic_results@,
        advanced_results: raw.advanced_results@,
        total: raw.total,
        difficulty: raw.difficulty,
        criticals: criticals_spec(raw.basic_results@, raw.advanced_results@, splat) as u32,
        messy: splat == RollSplat::Vampire && raw.advanced_results@.contains(10u8),
        bestial: splat == RollSplat::Vampire && raw.advanced_results@.contains(1u8),
        brutal: splat == RollSplat::Werewolf && raw.advanced_results@.contains(1u8),
        raw: raw.raw@,
    }
}

/// die shows 1. Everything else is copied.
pub fn to_canonical_roll(raw: &FoundryRollMessage) -> (c: CanonicalRoll)
    requires
        raw.basic_results@.len() + raw.advanced_results@.len() <= u32::MAX,
    ensures
        c.source == SourceKind::Foundry,
        c.source_id == raw.message_id,
        c.actor_id == raw.actor_id,
        c.actor_name == raw.actor_name,
        c.timestamp == raw.timestamp,
        c.splat == splat_of(raw.splat@, encode_utf8(raw.formula@)),
        c.flavor == raw.flavor,
        c.formula == raw.formula,
        c.basic_results@ == raw.basic_results@,
        c.advanced_results@ == raw.advanced_results@,
        c.total == raw.total,
        c.difficulty == raw.difficulty,
        c.criticals == criticals_spec(raw.basic_results@, raw.advanced_results@, c.splat),
        c.messy == (c.splat == RollSplat::Vampire && raw.advanced_results@.contains(10u8)),
        c.bestial == (c.splat == RollSplat::Vampire && raw.advanced_results@.contains(1u8)),
        c.brutal == (c.splat == RollSplat::Werewolf && raw.advanced_results@.contains(1u8)),
        c.raw@ == raw.raw@,
        c@ == canonical_roll_of(*raw),
{
    let splat = parse_splat(raw.splat.as_str(), raw.formula.as_str());
    let criticals = count_criticals(&raw.basic_results, &raw.advanced_results, splat);
    let messy = splat == RollSplat::Vampire && any_is(&raw.advanced_results, 10);
    let bestial = splat == RollSplat::Vampire && any_is(&raw.advanced_results, 1);
    let brutal = splat == RollSplat::Werewolf && any_is(&raw.advanced_results, 1);
    let basic_results = raw.basic_results.clone();
    assert(basic_results@ =~= raw.basic_results@);
    let advanced_results = raw.advanced_results.clone();
    assert(advanced_results@ =~= raw.advanced_results@);
    CanonicalRoll {
        source: SourceKind::Foundry,
        source_id: raw.message_id.clone(),
        actor_id: copy_opt_string(&raw.actor_id),
        actor_name: copy_opt_string(&raw.actor_name),
        timestamp: copy_opt_string(&raw.timestamp),
        splat,
        flavor: raw.flavor.clone(),
        formula: raw.formula.clone(),
        basic_results,
        advanced_results,
        total: raw.total,
        difficulty: raw.difficulty,
        criticals,
        messy,
        bestial,
        brutal,
        raw: raw.raw.deep_copy(),
    }
}

} // verus!
