//! Markdown export of a roll result: a header, then one
//! "**Label:** value" paragraph per field.

use vstd::prelude::*;
use crate::text::{append_str, chars_vec, owned, push_char};

verus! {

/// A field value as the export shows it. Numbers, arrays and objects come
/// already rendered as their JSON text.
#[derive(Debug)]
pub enum MdValue {
    Text(String),
    Bool(bool),
    Null,
    Rendered(String),
}

/// The first character of std's `char::to_uppercase` of `c`.
pub uninterp spec fn upper_first(c: char) -> char;

/// std's `char::to_uppercase`, first character (or `c` itself when the
/// mapping is empty). ASCII letters a-z become A-Z; other ASCII characters
/// have no uppercase mapping and stay as they are. Beyond ASCII the result
/// is named by `upper_first`, not stated.
#[verifier::external_body]
fn to_upper_first(c: char) -> (r: char)
    ensures
        r == upper_first(c),
        'a' <= c <= 'z' ==> r as u32 == c as u32 - 32,
        (c as u32) < 128 && !('a' <= c <= 'z') ==> r == c,
{
    c.to_uppercase().next().unwrap_or(c)
}

/// `s` with every `_` turned into a space.
pub open spec fn spaced(s: Seq<char>) -> Seq<char> {
    Seq::new(s.len(), |i: int| if s[i] == '_' { ' ' } else { s[i] })
}

/// A field's label: the key with its first character uppercased and its
/// underscores turned into spaces.
pub open spec fn md_label(key: Seq<char>) -> Seq<char> {
    if key.len() == 0 {
        key
    } else {
        spaced(seq![upper_first(key[0])] + key.drop_first())
    }
}

pub open spec fn md_value(v: MdValue) -> Seq<char> {
    match v {
        MdValue::Text(s) => s@,
        MdValue::Bool(b) => if b {
            "true"@
        } else {
            "false"@
        },
        MdValue::Null => "\u{2014}"@,
        MdValue::Rendered(s) => s@,
    }
}

/// The paragraphs of the first `n` fields.
pub open spec fn md_fields(entries: Seq<(String, MdValue)>, n: nat) -> Seq<char>
    decreases n,
{
    if n == 0 {
        Seq::empty()
    } else {
        md_fields(entries, (n - 1) as nat) + "**"@ + md_label(entries[n - 1].0@) + ":** "@ + md_value(
            entries[n - 1].1,
        ) + "\n\n"@
    }
}

/// The whole document.
pub open spec fn md_document(entries: Seq<(String, MdValue)>) -> Seq<char> {
    "# VTM Roll Result\n\n"@ + md_fields(entries, entries.len())
}

fn label(key: &str) -> (r: String)
    ensures
        r@ == md_label(key@),
{
    let v = chars_vec(key);
    let mut out = String::new();
    let mut i: usize = 0;
    let ghost first = if key@.len() == 0 {
        key@
    } else {
        seq![upper_first(key@[0])] + key@.drop_first()
    };
    while i < v.len()
        invariant
            i <= v@.len(),
            v@ == key@,
            first.len() == key@.len(),
            key@.len() > 0 ==> first == seq![upper_first(key@[0])] + key@.drop_first(),
            out@ == spaced(first).take(i as int),
        decreases v.len() - i,
    {
        let c = if i == 0 {
            to_upper_first(v[0])
        } else {
            v[i]
        };
        assert(c == first[i as int]);
        let d = if c == '_' {
            ' '
        } else {
            c
        };
        push_char(&mut out, d);
        assert(spaced(first).take(i + 1) =~= spaced(first).take(i as int).push(d));
        i += 1;
    }
    assert(spaced(first).take(v@.len() as int) =~= spaced(first));
    out
}

/// Renders a roll result as Markdown (see `md_document`); a null value
/// shows as an em dash.
pub fn format_to_md(entries: &Vec<(String, MdValue)>) -> (r: String)
    ensures
        r@ == md_document(entries@),
{
    let mut md = owned("# VTM Roll Result\n\n");
    let mut i: usize = 0;
    while i < entries.len()
        invariant
            i <= entries@.len(),
            md@ == "# VTM Roll Result\n\n"@ + md_fields(entries@, i as nat),
        decreases entries.len() - i,
    {
        let (key, value) = &entries[i];
        append_str(&mut md, "**");
        let l = label(key.as_str());
        append_str(&mut md, l.as_str());
        append_str(&mut md, ":** ");
        match value {
            MdValue::Text(s) => append_str(&mut md, s.as_str()),
            MdValue::Bool(b) => if *b {
                append_str(&mut md, "true")
            } else {
                append_str(&mut md, "false")
            },
            MdValue::Null => append_str(&mut md, "\u{2014}"),
            MdValue::Rendered(s) => append_str(&mut md, s.as_str()),
        }
        append_str(&mut md, "\n\n");
        assert(md@ =~= "# VTM Roll Result\n\n"@ + md_fields(entries@, (i + 1) as nat));
        i += 1;
    }
    md
}

} // verus!
