//! Saved character snapshots: their shape, and the pieces of the store's
//! reconciliation with a Foundry world's live actors.

use vstd::prelude::*;
use crate::bridge::types::{CanonicalCharacter, SourceKind};
use crate::text::{append_str, owned};

verus! {

/// A locally saved snapshot of a bridged character; `(source, source_id)`
/// matches the live character, so drift can be detected.
#[derive(Debug)]
pub struct SavedCharacter {
    pub id: i64,
    pub source: SourceKind,
    pub source_id: String,
    pub foundry_world: Option<String>,
    pub name: String,
    pub canonical: CanonicalCharacter,
    pub saved_at: String,
    pub last_updated_at: String,
    /// When the live actor was seen deleted from its VTT; `None` while it
    /// is not known to be deleted.
    pub deleted_in_vtt_at: Option<String>,
}

/// Counters of one reconciliation.
#[derive(Debug, Clone, Copy, Default, PartialEq, Eq, Structural)]
pub struct ReconcileStats {
    /// Rows newly stamped as deleted in the VTT.
    pub stamped: u64,
    /// Rows whose deleted stamp was cleared.
    pub cleared: u64,
}

/// "?,?,...,?" with `n` placeholders.
pub open spec fn placeholders_spec(n: nat) -> Seq<char>
    decreases n,
{
    if n == 0 {
        Seq::empty()
    } else if n == 1 {
        seq!['?']
    } else {
        placeholders_spec((n - 1) as nat) + seq![',', '?']
    }
}

/// The SQL placeholder list for `n` bound ids. SQLite refuses an empty
/// `IN ()`, so a reconciliation with no present ids takes another branch
/// and never asks for zero placeholders.
pub fn placeholders(n: usize) -> (r: String)
    requires
        n > 0,
    ensures
        r@ == placeholders_spec(n as nat),
{
    let mut s = owned("?");
    proof {
        reveal_strlit("?");
        reveal_strlit(",?");
    }
    assert(s@ =~= placeholders_spec(1));
    let mut i: usize = 1;
    while i < n
        invariant
            1 <= i <= n,
            s@ == placeholders_spec(i as nat),
        decreases n - i,
    {
        append_str(&mut s, ",?");
        proof {
            reveal_strlit(",?");
            assert(",?"@ =~= seq![',', '?']);
        }
        assert(s@ =~= placeholders_spec((i + 1) as nat));
        i += 1;
    }
    s
}

} // verus!
