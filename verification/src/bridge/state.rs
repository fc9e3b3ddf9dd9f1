//! The bridge's shared state and how events move it: the character cache
//! merged across sources (one entry per source and id), the roll history,
//! and the Hello metadata of each connected source.

use vstd::prelude::*;
use crate::bridge::types::{CanonicalCharacter, CanonicalCharacterV, CanonicalRoll, CanonicalRollV, SourceInfo,
    SourceKind};
use crate::bridge::history::{RollHistory, pushed, history_wf};
use crate::bridge::source::{InboundEvent, InboundEventV, chars_view, events_view};
use crate::text::str_eq;

verus! {

/// Two characters are the same cache entry: same source, same id.
pub open spec fn same_identity(a: CanonicalCharacterV, b: CanonicalCharacterV) -> bool {
    a.source == b.source && a.source_id == b.source_id
}

pub open spec fn identities_unique(s: Seq<CanonicalCharacterV>) -> bool {
    forall|i: int, j: int| 0 <= i < j < s.len() ==> !same_identity(s[i], s[j])
}

/// The cache after `c` arrives: it replaces the entry with its identity,
/// or is added at the end.
pub open spec fn upserted(s: Seq<CanonicalCharacterV>, c: CanonicalCharacterV) -> Seq<CanonicalCharacterV> {
    if exists|i: int| 0 <= i < s.len() && same_identity(s[i], c) {
        s.update(choose|i: int| 0 <= i < s.len() && same_identity(s[i], c), c)
    } else {
        s.push(c)
    }
}

/// The cache after each of `cs` arrives, in order.
pub open spec fn upsert_all(s: Seq<CanonicalCharacterV>, cs: Seq<CanonicalCharacterV>) -> Seq<CanonicalCharacterV>
    decreases cs.len(),
{
    if cs.len() == 0 {
        s
    } else {
        upserted(upsert_all(s, cs.drop_last()), cs.last())
    }
}

/// The cache and history after one event.
pub open spec fn step(
    st: (Seq<CanonicalCharacterV>, Seq<CanonicalRollV>),
    e: InboundEventV,
) -> (Seq<CanonicalCharacterV>, Seq<CanonicalRollV>) {
    match e {
        InboundEventV::CharactersUpdated(cs) => (upsert_all(st.0, cs), st.1),
        InboundEventV::RollReceived(r) => (st.0, pushed(st.1, r)),
        InboundEventV::ItemDeleted(..) => st,
    }
}

/// The cache and history after each event, in order.
pub open spec fn steps(
    st: (Seq<CanonicalCharacterV>, Seq<CanonicalRollV>),
    es: Seq<InboundEventV>,
) -> (Seq<CanonicalCharacterV>, Seq<CanonicalRollV>)
    decreases es.len(),
{
    if es.len() == 0 {
        st
    } else {
        step(steps(st, es.drop_last()), es.last())
    }
}

/// What the bridge tells the frontend (and the store) after an event.
#[derive(Debug)]
pub enum Notice {
    /// The whole character cache after a non-empty character update.
    CharactersChanged(Vec<CanonicalCharacter>),
    /// A roll that was recorded.
    RollReceived(CanonicalRoll),
    /// Modifier rows bound to this deleted item are to be removed.
    ReapItem { source: SourceKind, source_id: String, item_id: String },
}

pub enum NoticeV {
    CharactersChanged(Seq<CanonicalCharacterV>),
    RollReceived(CanonicalRollV),
    ReapItem(SourceKind, Seq<char>, Seq<char>),
}

impl View for Notice {
    type V = NoticeV;

    open spec fn view(&self) -> NoticeV {
        match self {
            Notice::CharactersChanged(v) => NoticeV::CharactersChanged(chars_view(v@)),
            Notice::RollReceived(r) => NoticeV::RollReceived(r@),
            Notice::ReapItem { source, source_id, item_id } => NoticeV::ReapItem(*source, source_id@, item_id@),
        }
    }
}

pub open spec fn notices_view(v: Seq<Notice>) -> Seq<NoticeV> {
    Seq::new(v.len(), |i: int| v[i]@)
}

/// The notices of one event, given the state before it: an empty
/// character update says nothing.
pub open spec fn notice_of(st: (Seq<CanonicalCharacterV>, Seq<CanonicalRollV>), e: InboundEventV) -> Seq<NoticeV> {
    match e {
        InboundEventV::CharactersUpdated(cs) => if cs.len() == 0 {
            Seq::empty()
        } else {
            seq![NoticeV::CharactersChanged(upsert_all(st.0, cs))]
        },
        InboundEventV::RollReceived(r) => seq![NoticeV::RollReceived(r)],
        InboundEventV::ItemDeleted(s, a, b) => seq![NoticeV::ReapItem(s, a, b)],
    }
}

/// The notices of a run of events, in order.
pub open spec fn notices(st: (Seq<CanonicalCharacterV>, Seq<CanonicalRollV>), es: Seq<InboundEventV>) -> Seq<NoticeV>
    decreases es.len(),
{
    if es.len() == 0 {
        Seq::empty()
    } else {
        notices(st, es.drop_last()) + notice_of(steps(st, es.drop_last()), es.last())
    }
}

proof fn lemma_upserted_unique(s: Seq<CanonicalCharacterV>, c: CanonicalCharacterV)
    requires
        identities_unique(s),
    ensures
        identities_unique(upserted(s, c)),
        exists|i: int| 0 <= i < upserted(s, c).len() && upserted(s, c)[i] == c,
{
    if exists|i: int| 0 <= i < s.len() && same_identity(s[i], c) {
        let k = choose|i: int| 0 <= i < s.len() && same_identity(s[i], c);
        let u = s.update(k, c);
        assert forall|i: int, j: int| 0 <= i < j < u.len() implies !same_identity(u[i], u[j]) by {
            if i == k {
                assert(!same_identity(s[k], s[j]));
            } else if j == k {
                assert(!same_identity(s[i], s[k]));
            }
        }
        assert(u[k] == c);
        assert(upserted(s, c)[k] == c);
    } else {
        let u = s.push(c);
        assert forall|i: int, j: int| 0 <= i < j < u.len() implies !same_identity(u[i], u[j]) by {
            if j == s.len() {
                assert(!same_identity(s[i], c));
            } else {
                assert(u[i] == s[i] && u[j] == s[j]);
            }
        }
        assert(u[s.len() as int] == c);
        assert(upserted(s, c)[s.len() as int] == c);
    }
}

proof fn lemma_upsert_all_unique(s: Seq<CanonicalCharacterV>, cs: Seq<CanonicalCharacterV>)
    requires
        identities_unique(s),
    ensures
        identities_unique(upsert_all(s, cs)),
    decreases cs.len(),
{
    if cs.len() > 0 {
        lemma_upsert_all_unique(s, cs.drop_last());
        lemma_upserted_unique(upsert_all(s, cs.drop_last()), cs.last());
    }
}

/// Law: the cache never holds two entries for one character, and after a
/// character arrives the cache holds it exactly as it arrived.
pub proof fn lemma_upsert_law(s: Seq<CanonicalCharacterV>, c: CanonicalCharacterV)
    requires
        identities_unique(s),
    ensures
        identities_unique(upserted(s, c)),
        exists|i: int| 0 <= i < upserted(s, c).len() && upserted(s, c)[i] == c,
        upserted(s, c).len() == s.len() || upserted(s, c).len() == s.len() + 1,
{
    lemma_upserted_unique(s, c);
}

/// Law: characters of other identities are untouched by an arrival.
pub proof fn lemma_upsert_keeps_others(s: Seq<CanonicalCharacterV>, c: CanonicalCharacterV, k: int)
    requires
        identities_unique(s),
        0 <= k < s.len(),
        !same_identity(s[k], c),
    ensures
        upserted(s, c)[k] == s[k],
{
}

/// Law: the same character arriving twice leaves the cache as one arrival.
pub proof fn lemma_upsert_twice(s: Seq<CanonicalCharacterV>, c: CanonicalCharacterV)
    requires
        identities_unique(s),
    ensures
        upserted(upserted(s, c), c) == upserted(s, c),
{
    lemma_upserted_unique(s, c);
    let u = upserted(s, c);
    let k = choose|i: int| 0 <= i < u.len() && same_identity(u[i], c);
    let w = choose|i: int| 0 <= i < u.len() && u[i] == c;
    assert(same_identity(u[w], c));
    if k != w {
        if k < w {
            assert(!same_identity(u[k], u[w]));
        } else {
            assert(!same_identity(u[w], u[k]));
        }
    }
    assert(u.update(k, c) =~= u);
}

/// The bridge's shared state.
pub struct BridgeCore {
    chars: Vec<CanonicalCharacter>,
    rolls: RollHistory,
    roll20_info: Option<SourceInfo>,
    foundry_info: Option<SourceInfo>,
}

impl BridgeCore {
    #[verifier::type_invariant]
    spec fn inv(self) -> bool {
        identities_unique(chars_view(self.chars@))
    }

    /// The cached characters, in cache order.
    pub closed spec fn characters_view(&self) -> Seq<CanonicalCharacterV> {
        chars_view(self.chars@)
    }

    /// The roll history, newest first.
    pub closed spec fn rolls_view(&self) -> Seq<CanonicalRollV> {
        self.rolls@
    }

    /// The recorded Hello metadata of a source.
    pub closed spec fn info_view(&self, kind: SourceKind) -> Option<SourceInfo> {
        match kind {
            SourceKind::Roll20 => self.roll20_info,
            SourceKind::Foundry => self.foundry_info,
        }
    }

    /// An empty state: no characters, no rolls, no source metadata.
    pub fn new() -> (r: BridgeCore)
        ensures
            r.characters_view() == Seq::<CanonicalCharacterV>::empty(),
            r.rolls_view() == Seq::<CanonicalRollV>::empty(),
            r.info_view(SourceKind::Roll20) is None,
            r.info_view(SourceKind::Foundry) is None,
    {
        let r = BridgeCore { chars: Vec::new(), rolls: RollHistory::new(), roll20_info: None, foundry_info: None };
        assert(chars_view(r.chars@) =~= Seq::<CanonicalCharacterV>::empty());
        r
    }

    /// Records a source's Hello metadata.
    pub fn set_info(&mut self, kind: SourceKind, info: SourceInfo)
        ensures
            final(self).info_view(kind) == Some(info),
            forall|k: SourceKind| k != kind ==> final(self).info_view(k) == old(self).info_view(k),
            final(self).characters_view() == old(self).characters_view(),
            final(self).rolls_view() == old(self).rolls_view(),
    {
        proof {
            use_type_invariant(&*self);
        }
        match kind {
            SourceKind::Roll20 => {
                self.roll20_info = Some(info);
            },
            SourceKind::Foundry => {
                self.foundry_info = Some(info);
            },
        }
    }

    /// Forgets a source's Hello metadata when it disconnects. Characters
    /// and rolls stay cached.
    pub fn disconnect(&mut self, kind: SourceKind)
        ensures
            final(self).info_view(kind) is None,
            forall|k: SourceKind| k != kind ==> final(self).info_view(k) == old(self).info_view(k),
            final(self).characters_view() == old(self).characters_view(),
            final(self).rolls_view() == old(self).rolls_view(),
    {
        proof {
            use_type_invariant(&*self);
        }
        match kind {
            SourceKind::Roll20 => {
                self.roll20_info = None;
            },
            SourceKind::Foundry => {
                self.foundry_info = None;
            },
        }
    }

    /// The recorded Hello metadata of a connected source.
    pub fn info(&self, kind: SourceKind) -> (r: Option<&SourceInfo>)
        ensures
            match r {
                Some(i) => self.info_view(kind) == Some(*i),
                None => self.info_view(kind) is None,
            },
    {
        match kind {
            SourceKind::Roll20 => match &self.roll20_info {
                Some(i) => Some(i),
                None => None,
            },
            SourceKind::Foundry => match &self.foundry_info {
                Some(i) => Some(i),
                None => None,
            },
        }
    }

    /// The cached character of a source with the given id.
    pub fn character(&self, source: SourceKind, source_id: &str) -> (r: Option<&CanonicalCharacter>)
        ensures
            match r {
                Some(c) => c.source == source && c.source_id@ == source_id@ && self.characters_view().contains(c@),
                None => forall|i: int|
                    0 <= i < self.characters_view().len() ==> !(#[trigger] self.characters_view()[i].source == source
                        && self.characters_view()[i].source_id == source_id@),
            },
    {
        let ghost s = chars_view(self.chars@);
        let mut i: usize = 0;
        while i < self.chars.len()
            invariant
                i <= self.chars@.len(),
                s == chars_view(self.chars@),
                forall|k: int| 0 <= k < i ==> !(#[trigger] s[k].source == source && s[k].source_id == source_id@),
            decreases self.chars.len() - i,
        {
            assert(s[i as int] == self.chars@[i as int]@);
            if self.chars[i].source == source && str_eq(self.chars[i].source_id.as_str(), source_id) {
                return Some(&self.chars[i]);
            }
            i += 1;
        }
        None
    }

    /// A copy of every cached character.
    pub fn characters(&self) -> (r: Vec<CanonicalCharacter>)
        ensures
            chars_view(r@) == self.characters_view(),
            identities_unique(self.characters_view()),
    {
        proof {
            use_type_invariant(self);
        }
        copy_chars(&self.chars)
    }

    /// A newest-first copy of the roll history.
    pub fn rolls(&self) -> (r: Vec<CanonicalRoll>)
        ensures
            r@.len() == self.rolls_view().len(),
            forall|i: int| 0 <= i < r@.len() ==> r@[i]@ == self.rolls_view()[i],
            history_wf(self.rolls_view()),
    {
        self.rolls.get_rolls()
    }

    /// Applies the events of one frame in order and says what changed (see
    /// `steps` and `notices`).
    pub fn apply_events(&mut self, events: &Vec<InboundEvent>) -> (r: Vec<Notice>)
        ensures
            (final(self).characters_view(), final(self).rolls_view()) == steps(
                (old(self).characters_view(), old(self).rolls_view()),
                events_view(events@),
            ),
            notices_view(r@) == notices((old(self).characters_view(), old(self).rolls_view()), events_view(events@)),
            forall|k: SourceKind| final(self).info_view(k) == old(self).info_view(k),
            identities_unique(final(self).characters_view()),
    {
        proof {
            use_type_invariant(&*self);
        }
        let ghost st0 = (chars_view(self.chars@), self.rolls@);
        let ghost ev = events_view(events@);
        let mut chars: Vec<CanonicalCharacter> = Vec::new();
        std::mem::swap(&mut chars, &mut self.chars);
        assert(chars_view(chars@) == st0.0);
        let mut rolls = RollHistory::new();
        std::mem::swap(&mut rolls, &mut self.rolls);
        let mut out: Vec<Notice> = Vec::new();
        let mut i: usize = 0;
        assert(ev.take(0) =~= Seq::<InboundEventV>::empty());
        while i < events.len()
            invariant
                i <= events@.len(),
                ev == events_view(events@),
                identities_unique(chars_view(chars@)),
                (chars_view(chars@), rolls@) == steps(st0, ev.take(i as int)),
                notices_view(out@) == notices(st0, ev.take(i as int)),
                self.roll20_info == old(self).roll20_info,
                self.foundry_info == old(self).foundry_info,
                self.chars@.len() == 0,
            decreases events.len() - i,
        {
            assert(ev.take(i + 1).drop_last() =~= ev.take(i as int));
            assert(ev.take(i + 1).last() == events@[i as int]@);
            let ghost before = (chars_view(chars@), rolls@);
            let ghost before_out = notices_view(out@);
            match &events[i] {
                InboundEvent::CharactersUpdated(v) => {
                    let ghost cv = chars_view(v@);
                    let mut j: usize = 0;
                    assert(cv.take(0) =~= Seq::<CanonicalCharacterV>::empty());
                    while j < v.len()
                        invariant
                            j <= v@.len(),
                            cv == chars_view(v@),
                            identities_unique(chars_view(chars@)),
                            chars_view(chars@) == upsert_all(before.0, cv.take(j as int)),
                        decreases v.len() - j,
                    {
                        assert(cv.take(j + 1).drop_last() =~= cv.take(j as int));
                        assert(cv.take(j + 1).last() == v@[j as int]@);
                        let c = v[j].copy();
                        proof {
                            lemma_upserted_unique(chars_view(chars@), c@);
                        }
                        upsert(&mut chars, c);
                        j += 1;
                    }
                    assert(cv.take(v@.len() as int) =~= cv);
                    if v.len() > 0 {
                        let snap = copy_chars(&chars);
                        out.push(Notice::CharactersChanged(snap));
                        assert(notices_view(out@) =~= before_out + notice_of(before, events@[i as int]@));
                    } else {
                        assert(notices_view(out@) =~= before_out + notice_of(before, events@[i as int]@));
                    }
                },
                InboundEvent::RollReceived(roll) => {
                    rolls.push_roll(roll.copy());
                    out.push(Notice::RollReceived(roll.copy()));
                    assert(notices_view(out@) =~= before_out + notice_of(before, events@[i as int]@));
                },
                InboundEvent::ItemDeleted { source, source_id, item_id } => {
                    out.push(Notice::ReapItem { source: *source, source_id: source_id.clone(), item_id: item_id.clone() });
                    assert(notices_view(out@) =~= before_out + notice_of(before, events@[i as int]@));
                },
            }
            i += 1;
        }
        assert(ev.take(events@.len() as int) =~= ev);
        self.chars = chars;
        self.rolls = rolls;
        out
    }
}

fn copy_chars(v: &Vec<CanonicalCharacter>) -> (r: Vec<CanonicalCharacter>)
    ensures
        chars_view(r@) == chars_view(v@),
{
    let mut out: Vec<CanonicalCharacter> = Vec::new();
    let mut i: usize = 0;
    while i < v.len()
        invariant
            i <= v@.len(),
            chars_view(out@) == chars_view(v@).take(i as int),
        decreases v.len() - i,
    {
        let c = v[i].copy();
        let ghost before = chars_view(out@);
        out.push(c);
        assert(chars_view(out@) =~= before.push(v@[i as int]@));
        assert(chars_view(v@).take(i + 1) =~= chars_view(v@).take(i as int).push(v@[i as int]@));
        i += 1;
    }
    assert(chars_view(v@).take(v@.len() as int) =~= chars_view(v@));
    out
}

fn upsert(chars: &mut Vec<CanonicalCharacter>, c: CanonicalCharacter)
    requires
        identities_unique(chars_view(old(chars)@)),
    ensures
        chars_view(final(chars)@) == upserted(chars_view(old(chars)@), c@),
{
    let ghost s = chars_view(chars@);
    let ghost cv = c@;
    let mut i: usize = 0;
    while i < chars.len()
        invariant
            i <= chars@.len(),
            s == chars_view(chars@),
            s == chars_view(old(chars)@),
            identities_unique(s),
            cv == c@,
            forall|k: int| 0 <= k < i ==> !same_identity(#[trigger] s[k], cv),
        decreases chars.len() - i,
    {
        assert(s[i as int] == chars@[i as int]@);
        if chars[i].source == c.source && str_eq(chars[i].source_id.as_str(), c.source_id.as_str()) {
            proof {
                assert(same_identity(s[i as int], cv));
                let k = choose|k: int| 0 <= k < s.len() && same_identity(s[k], cv);
                if k != i {
                    if k < i {
                        assert(!same_identity(s[k], cv));
                    } else {
                        assert(!same_identity(s[i as int], s[k]));
                    }
                }
                assert(k == i);
                assert(upserted(s, cv) == s.update(i as int, cv));
            }
            chars.set(i, c);
            assert(chars_view(chars@) =~= s.update(i as int, cv));
            return;
        }
        i += 1;
    }
    chars.push(c);
    assert(!(exists|k: int| 0 <= k < s.len() && same_identity(s[k], cv)));
    assert(chars_view(chars@) =~= s.push(cv));
}

} // verus!
