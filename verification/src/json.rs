//! A JSON document model for the wire envelopes and character blobs the
//! bridge exchanges with the VTT modules, with a mathematical view.
//!
//! Numbers keep serde_json's three shapes: non-negative integers,
//! negative integers, and other numbers kept as their decimal text.

use vstd::prelude::*;
use crate::text::{owned, str_eq};

verus! {

#[derive(Debug, Clone, PartialEq)]
pub enum JsonNumber {
    PosInt(u64),
    NegInt(i64),
    Float(String),
}

#[derive(Debug, PartialEq)]
pub enum Json {
    Null,
    Bool(bool),
    Number(JsonNumber),
    Str(String),
    Array(Vec<Json>),
    Object(Vec<(String, Json)>),
}

#[verifier::ext_equal]
pub enum JsonV {
    Null,
    Bool(bool),
    PosInt(nat),
    NegInt(int),
    Float(Seq<char>),
    Str(Seq<char>),
    Array(Seq<JsonV>),
    Object(Seq<(Seq<char>, JsonV)>),
}

pub open spec fn json_view(j: Json) -> JsonV
    decreases j,
{
    match j {
        Json::Null => JsonV::Null,
        Json::Bool(b) => JsonV::Bool(b),
        Json::Number(JsonNumber::PosInt(n)) => JsonV::PosInt(n as nat),
        Json::Number(JsonNumber::NegInt(n)) => JsonV::NegInt(n as int),
        Json::Number(JsonNumber::Float(t)) => JsonV::Float(t@),
        Json::Str(s) => JsonV::Str(s@),
        Json::Array(v) => JsonV::Array(
            Seq::new(
                v@.len(),
                |i: int|
                    if 0 <= i < v@.len() {
                        proof {
                            assert(decreases_to!(v => v@));
                        }
                        json_view(v@[i])
                    } else {
                        JsonV::Null
                    },
            ),
        ),
        Json::Object(v) => JsonV::Object(
            Seq::new(
                v@.len(),
                |i: int|
                    if 0 <= i < v@.len() {
                        proof {
                            assert(decreases_to!(v => v@));
                            assert(decreases_to!(v@ => v@[i]));
                            assert(decreases_to!(v@[i] => v@[i].1));
                        }
                        (v@[i].0@, json_view(v@[i].1))
                    } else {
                        (Seq::empty(), JsonV::Null)
                    },
            ),
        ),
    }
}

impl View for Json {
    type V = JsonV;

    open spec fn view(&self) -> JsonV {
        json_view(*self)
    }
}

/// The views of a sequence of documents.
pub open spec fn elems_view(v: Seq<Json>) -> Seq<JsonV> {
    Seq::new(v.len(), |i: int| v[i]@)
}

/// The views of the entries of an object.
pub open spec fn entries_view(v: Seq<(String, Json)>) -> Seq<(Seq<char>, JsonV)> {
    Seq::new(v.len(), |i: int| (v[i].0@, v[i].1@))
}

pub proof fn lemma_array_view(v: Vec<Json>)
    ensures
        Json::Array(v)@ == JsonV::Array(elems_view(v@)),
{
    assert(elems_view(v@) =~= Json::Array(v)@->Array_0);
}

pub proof fn lemma_object_view(v: Vec<(String, Json)>)
    ensures
        Json::Object(v)@ == JsonV::Object(entries_view(v@)),
{
    assert(entries_view(v@) =~= Json::Object(v)@->Object_0);
}

/// The value stored under `key`: the first entry with that key.
pub open spec fn field(entries: Seq<(Seq<char>, JsonV)>, key: Seq<char>) -> Option<JsonV>
    decreases entries.len(),
{
    if entries.len() == 0 {
        None
    } else if entries[0].0 == key {
        Some(entries[0].1)
    } else {
        field(entries.drop_first(), key)
    }
}

/// Index of the first entry with `key`, if any.
pub open spec fn key_index(entries: Seq<(Seq<char>, JsonV)>, key: Seq<char>) -> Option<int>
    decreases entries.len(),
{
    if entries.len() == 0 {
        None
    } else if entries[0].0 == key {
        Some(0)
    } else {
        match key_index(entries.drop_first(), key) {
            Some(i) => Some(i + 1),
            None => None,
        }
    }
}

/// serde_json's `Value::get` with a string key: the field of an object,
/// `None` for every other kind of value.
pub open spec fn get_spec(j: JsonV, key: Seq<char>) -> Option<JsonV> {
    match j {
        JsonV::Object(e) => field(e, key),
        _ => None,
    }
}

/// serde_json's `Value::as_u64`.
pub open spec fn as_u64_spec(j: JsonV) -> Option<u64> {
    match j {
        JsonV::PosInt(n) => if n <= u64::MAX {
            Some(n as u64)
        } else {
            None
        },
        _ => None,
    }
}

/// serde_json's `Value::as_str`.
pub open spec fn as_str_spec(j: JsonV) -> Option<Seq<char>> {
    match j {
        JsonV::Str(s) => Some(s),
        _ => None,
    }
}

/// The entries after writing `key = v`: the first entry with that key is
/// replaced in place, otherwise the pair is appended (serde_json's
/// `Map::insert`).
pub open spec fn set_field(
    entries: Seq<(Seq<char>, JsonV)>,
    key: Seq<char>,
    v: JsonV,
) -> Seq<(Seq<char>, JsonV)> {
    match key_index(entries, key) {
        Some(i) => entries.update(i, (key, v)),
        None => entries.push((key, v)),
    }
}

/// The view of an integer in serde_json's `From<i64>` shape.
pub open spec fn int_view(n: int) -> JsonV {
    if n >= 0 {
        JsonV::PosInt(n as nat)
    } else {
        JsonV::NegInt(n)
    }
}

pub proof fn lemma_field_index(entries: Seq<(Seq<char>, JsonV)>, key: Seq<char>)
    ensures
        key_index(entries, key) is None <==> field(entries, key) is None,
        key_index(entries, key) matches Some(i) ==> 0 <= i < entries.len() && entries[i].0 == key
            && field(entries, key) == Some(entries[i].1)
            && (forall|k: int| 0 <= k < i ==> entries[k].0 != key),
        key_index(entries, key) is None ==> (forall|k: int| 0 <= k < entries.len() ==> entries[k].0 != key),
    decreases entries.len(),
{
    if entries.len() > 0 {
        lemma_field_index(entries.drop_first(), key);
        if entries[0].0 != key {
            assert forall|k: int| 1 <= k < entries.len() implies entries[k] == entries.drop_first()[k - 1] by {}
        }
    }
}

impl Json {
    /// A string value.
    pub fn text(s: &str) -> (r: Json)
        ensures
            r@ == JsonV::Str(s@),
    {
        Json::Str(owned(s))
    }

    /// An unsigned integer value.
    pub fn from_u64(n: u64) -> (r: Json)
        ensures
            r@ == JsonV::PosInt(n as nat),
    {
        Json::Number(JsonNumber::PosInt(n))
    }

    /// A signed integer value (serde_json's `From<i64>`).
    pub fn from_i64(n: i64) -> (r: Json)
        ensures
            r@ == int_view(n as int),
    {
        if n >= 0 {
            Json::Number(JsonNumber::PosInt(n as u64))
        } else {
            Json::Number(JsonNumber::NegInt(n))
        }
    }

    /// An array value.
    pub fn array(v: Vec<Json>) -> (r: Json)
        ensures
            r@ == JsonV::Array(elems_view(v@)),
    {
        proof {
            lemma_array_view(v);
        }
        Json::Array(v)
    }

    /// An object value.
    pub fn object(v: Vec<(String, Json)>) -> (r: Json)
        ensures
            r@ == JsonV::Object(entries_view(v@)),
    {
        proof {
            lemma_object_view(v);
        }
        Json::Object(v)
    }

    /// An array of strings.
    pub fn string_array(v: &Vec<String>) -> (r: Json)
        ensures
            r@ == JsonV::Array(Seq::new(v@.len(), |i: int| JsonV::Str(v@[i]@))),
    {
        let mut out: Vec<Json> = Vec::new();
        let mut i: usize = 0;
        while i < v.len()
            invariant
                i <= v@.len(),
                elems_view(out@) =~= Seq::new(i as nat, |k: int| JsonV::Str(v@[k]@)),
            decreases v.len() - i,
        {
            let e = Json::Str(v[i].clone());
            assert(e@ == JsonV::Str(v@[i as int]@));
            out.push(e);
            assert(elems_view(out@) =~= Seq::new(i as nat, |k: int| JsonV::Str(v@[k]@)).push(JsonV::Str(v@[i as int]@)));
            i += 1;
        }
        Json::array(out)
    }

    /// serde_json's `Value::get` with a string key.
    pub fn get<'a>(&'a self, key: &str) -> (r: Option<&'a Json>)
        ensures
            r is Some <==> get_spec(self@, key@) is Some,
            r matches Some(v) ==> Some(v@) == get_spec(self@, key@),
    {
        match self {
            Json::Object(entries) => {
                proof {
                    lemma_object_view(*entries);
                }
                let ghost ev = entries_view(entries@);
                let mut i: usize = 0;
                assert(ev.skip(0) =~= ev);
                while i < entries.len()
                    invariant
                        i <= entries@.len(),
                        ev == entries_view(entries@),
                        self@ == JsonV::Object(ev),
                        field(ev, key@) == field(ev.skip(i as int), key@),
                    decreases entries.len() - i,
                {
                    assert(ev.skip(i as int)[0] == ev[i as int]);
                    if str_eq(entries[i].0.as_str(), key) {
                        assert(ev.skip(i as int).len() > 0);
                        return Some(&entries[i].1);
                    }
                    assert(ev.skip(i as int).drop_first() =~= ev.skip(i + 1));
                    i += 1;
                }
                None
            },
            _ => None,
        }
    }

    /// serde_json's `Value::as_u64`.
    pub fn as_u64(&self) -> (r: Option<u64>)
        ensures
            r == as_u64_spec(self@),
    {
        match self {
            Json::Number(JsonNumber::PosInt(n)) => Some(*n),
            _ => None,
        }
    }

    /// serde_json's `Value::as_str`.
    pub fn as_str(&self) -> (r: Option<&str>)
        ensures
            r is Some <==> as_str_spec(self@) is Some,
            r matches Some(s) ==> Some(s@) == as_str_spec(self@),
    {
        match self {
            Json::Str(s) => Some(s.as_str()),
            _ => None,
        }
    }

    /// True for an object value.
    pub fn is_object(&self) -> (r: bool)
        ensures
            r == (self@ is Object),
    {
        match self {
            Json::Object(_) => true,
            _ => false,
        }
    }

    /// A copy of the document.
    pub fn deep_copy(&self) -> (r: Json)
        ensures
            r@ == self@,
        decreases self,
    {
        match self {
            Json::Null => Json::Null,
            Json::Bool(b) => Json::Bool(*b),
            Json::Number(JsonNumber::PosInt(n)) => Json::Number(JsonNumber::PosInt(*n)),
            Json::Number(JsonNumber::NegInt(n)) => Json::Number(JsonNumber::NegInt(*n)),
            Json::Number(JsonNumber::Float(t)) => Json::Number(JsonNumber::Float(t.clone())),
            Json::Str(s) => Json::Str(s.clone()),
            Json::Array(v) => {
                let mut out: Vec<Json> = Vec::new();
                let mut i: usize = 0;
                while i < v.len()
                    invariant
                        i <= v@.len(),
                        *self == Json::Array(*v),
                        elems_view(out@) =~= elems_view(v@).take(i as int),
                    decreases v.len() - i,
                {
                    assert(decreases_to!(*self => (*self)->Array_0));
                    assert(decreases_to!(*v => v@));
                    assert(decreases_to!(v@ => v@[i as int]));
                    let c = v[i].deep_copy();
                    out.push(c);
                    assert(elems_view(out@) =~= elems_view(v@).take(i as int).push(v@[i as int]@));
                    assert(elems_view(v@).take(i + 1) =~= elems_view(v@).take(i as int).push(v@[i as int]@));
                    i += 1;
                }
                proof {
                    lemma_array_view(*v);
                    assert(elems_view(v@).take(v@.len() as int) =~= elems_view(v@));
                }
                Json::array(out)
            },
            Json::Object(v) => {
                let mut out: Vec<(String, Json)> = Vec::new();
                let mut i: usize = 0;
                while i < v.len()
                    invariant
                        i <= v@.len(),
                        *self == Json::Object(*v),
                        entries_view(out@) =~= entries_view(v@).take(i as int),
                    decreases v.len() - i,
                {
                    assert(decreases_to!(*self => (*self)->Object_0));
                    assert(decreases_to!(*v => v@));
                    assert(decreases_to!(v@ => v@[i as int]));
                    assert(decreases_to!(v@[i as int] => v@[i as int].1));
                    let e = &v[i];
                    let k = e.0.clone();
                    let c = e.1.deep_copy();
                    out.push((k, c));
                    assert(entries_view(out@) =~= entries_view(v@).take(i as int).push((v@[i as int].0@, v@[i as int].1@)));
                    assert(entries_view(v@).take(i + 1) =~= entries_view(v@).take(i as int).push((v@[i as int].0@, v@[i as int].1@)));
                    i += 1;
                }
                proof {
                    lemma_object_view(*v);
                    assert(entries_view(v@).take(v@.len() as int) =~= entries_view(v@));
                }
                Json::object(out)
            },
        }
    }
}

/// Appends `key = v` at the end of an object's entries.
pub fn obj_push(o: &mut Vec<(String, Json)>, key: &str, v: Json)
    ensures
        entries_view(final(o)@) == entries_view(old(o)@).push((key@, v@)),
{
    o.push((owned(key), v));
    assert(entries_view(final(o)@) =~= entries_view(old(o)@).push((key@, v@)));
}

/// Writes `key = v` into an object's entries: the first entry with that key
/// is replaced, otherwise the pair is appended (serde_json's `Map::insert`).
pub fn obj_set(o: &mut Vec<(String, Json)>, key: &str, v: Json)
    ensures
        entries_view(final(o)@) == set_field(entries_view(old(o)@), key@, v@),
{
    let ghost ev = entries_view(o@);
    proof {
        lemma_field_index(ev, key@);
    }
    let mut i: usize = 0;
    while i < o.len()
        invariant
            i <= o@.len(),
            o@ == old(o)@,
            ev == entries_view(o@),
            forall|k: int| 0 <= k < i ==> ev[k].0 != key@,
        decreases o.len() - i,
    {
        if str_eq(o[i].0.as_str(), key) {
            proof {
                lemma_key_index_first(ev, key@, i as int);
            }
            o.set(i, (owned(key), v));
            assert(entries_view(o@) =~= ev.update(i as int, (key@, v@)));
            return;
        }
        i += 1;
    }
    o.push((owned(key), v));
    assert(entries_view(o@) =~= ev.push((key@, v@)));
}

proof fn lemma_key_index_first(entries: Seq<(Seq<char>, JsonV)>, key: Seq<char>, i: int)
    requires
        0 <= i < entries.len(),
        entries[i].0 == key,
        forall|k: int| 0 <= k < i ==> entries[k].0 != key,
    ensures
        key_index(entries, key) == Some(i),
    decreases entries.len(),
{
    if i > 0 {
        assert forall|k: int| 0 <= k < i - 1 implies entries.drop_first()[k].0 != key by {
            assert(entries.drop_first()[k] == entries[k + 1]);
        }
        lemma_key_index_first(entries.drop_first(), key, i - 1);
    }
}

pub proof fn lemma_field_of_set(
    entries: Seq<(Seq<char>, JsonV)>,
    key: Seq<char>,
    v: JsonV,
    other: Seq<char>,
)
    ensures
        field(set_field(entries, key, v), key) == Some(v),
        other != key ==> field(set_field(entries, key, v), other) == field(entries, other),
{
    lemma_field_index(entries, key);
    lemma_field_index(entries, other);
    let s = set_field(entries, key, v);
    lemma_field_index(s, key);
    lemma_field_index(s, other);
    match key_index(entries, key) {
        Some(i) => {
            lemma_key_index_first(s, key, i);
            if other != key {
                match key_index(entries, other) {
                    Some(j) => {
                        lemma_key_index_first(s, other, j);
                    },
                    None => {
                        assert(forall|k: int| 0 <= k < s.len() ==> s[k].0 != other);
                        lemma_none_if_absent(s, other);
                    },
                }
            }
        },
        None => {
            lemma_key_index_first(s, key, entries.len() as int);
            if other != key {
                match key_index(entries, other) {
                    Some(j) => {
                        lemma_key_index_first(s, other, j);
                    },
                    None => {
                        lemma_none_if_absent(s, other);
                    },
                }
            }
        },
    }
}

proof fn lemma_none_if_absent(entries: Seq<(Seq<char>, JsonV)>, key: Seq<char>)
    requires
        forall|k: int| 0 <= k < entries.len() ==> entries[k].0 != key,
    ensures
        key_index(entries, key) is None,
        field(entries, key) is None,
    decreases entries.len(),
{
    if entries.len() > 0 {
        assert forall|k: int| 0 <= k < entries.drop_first().len() implies entries.drop_first()[k].0
            != key by {
            assert(entries.drop_first()[k] == entries[k + 1]);
        }
        lemma_none_if_absent(entries.drop_first(), key);
    }
}


/// Position of the first entry with `key`.
pub fn key_position(entries: &Vec<(String, Json)>, key: &str) -> (r: Option<usize>)
    ensures
        r matches Some(i) ==> key_index(entries_view(entries@), key@) == Some(i as int),
        r is None ==> key_index(entries_view(entries@), key@) is None,
{
    let ghost ev = entries_view(entries@);
    let mut i: usize = 0;
    while i < entries.len()
        invariant
            i <= entries@.len(),
            ev == entries_view(entries@),
            forall|k: int| 0 <= k < i ==> ev[k].0 != key@,
        decreases entries.len() - i,
    {
        if str_eq(entries[i].0.as_str(), key) {
            proof {
                lemma_key_index_first(ev, key@, i as int);
            }
            return Some(i);
        }
        i += 1;
    }
    proof {
        lemma_none_if_absent(ev, key@);
    }
    None
}

/// Outcome of writing a leaf along a path of object keys.
pub enum PathWrite {
    /// The document with the leaf written.
    Written(JsonV),
    /// A value before the leaf's parent is not an object.
    NonObject,
    /// The leaf's parent is not an object.
    LeafParentNonObject,
}

/// Writes `leaf` at the path `segs` below the object `j`, creating empty
/// objects for missing keys along the way. A value on the way that exists
/// but is not an object stops the walk: at the leaf's parent it is
/// `LeafParentNonObject`, before that `NonObject`.
pub open spec fn set_path(j: JsonV, segs: Seq<Seq<char>>, leaf: JsonV) -> PathWrite
    decreases segs.len(),
{
    match j {
        JsonV::Object(e) => if segs.len() <= 1 {
            if segs.len() == 1 {
                PathWrite::Written(JsonV::Object(set_field(e, segs[0], leaf)))
            } else {
                PathWrite::Written(j)
            }
        } else {
            let child = match field(e, segs[0]) {
                Some(c) => c,
                None => JsonV::Object(Seq::empty()),
            };
            match child {
                JsonV::Object(_) => match set_path(child, segs.drop_first(), leaf) {
                    PathWrite::Written(c2) => PathWrite::Written(JsonV::Object(set_field(e, segs[0], c2))),
                    other => other,
                },
                _ => if segs.len() == 2 {
                    PathWrite::LeafParentNonObject
                } else {
                    PathWrite::NonObject
                },
            }
        },
        _ => PathWrite::NonObject,
    }
}

/// Setting a field to the value it was just set to changes nothing.
pub proof fn lemma_set_field_twice(entries: Seq<(Seq<char>, JsonV)>, key: Seq<char>, v: JsonV)
    ensures
        set_field(set_field(entries, key, v), key, v) == set_field(entries, key, v),
{
    lemma_field_index(entries, key);
    let s1 = set_field(entries, key, v);
    match key_index(entries, key) {
        Some(i) => {
            lemma_key_index_first(s1, key, i);
            assert(s1.update(i, (key, v)) =~= s1);
        },
        None => {
            lemma_key_index_first(s1, key, entries.len() as int);
            assert(s1.update(entries.len() as int, (key, v)) =~= s1);
        },
    }
}

/// A path write into an object yields an object.
pub proof fn lemma_set_path_object(j: JsonV, segs: Seq<Seq<char>>, leaf: JsonV)
    requires
        set_path(j, segs, leaf) is Written,
    ensures
        j is Object,
        set_path(j, segs, leaf)->Written_0 is Object,
{
}

/// Law: writing the same leaf at the same path twice equals writing it
/// once.
pub proof fn lemma_set_path_twice(j: JsonV, segs: Seq<Seq<char>>, leaf: JsonV)
    requires
        set_path(j, segs, leaf) is Written,
    ensures
        set_path(set_path(j, segs, leaf)->Written_0, segs, leaf) == set_path(j, segs, leaf),
    decreases segs.len(),
{
    match j {
        JsonV::Object(e) => {
            if segs.len() == 1 {
                lemma_set_field_twice(e, segs[0], leaf);
            } else if segs.len() > 1 {
                let child = match field(e, segs[0]) {
                    Some(c) => c,
                    None => JsonV::Object(Seq::empty()),
                };
                let c2 = set_path(child, segs.drop_first(), leaf)->Written_0;
                lemma_set_path_object(child, segs.drop_first(), leaf);
                lemma_set_path_twice(child, segs.drop_first(), leaf);
                lemma_field_of_set(e, segs[0], c2, segs[0]);
                lemma_set_field_twice(e, segs[0], c2);
            }
        },
        _ => {},
    }
}

/// Writing into a fresh empty object always succeeds.
pub proof fn lemma_fresh_path_written(segs: Seq<Seq<char>>, leaf: JsonV)
    ensures
        set_path(JsonV::Object(Seq::empty()), segs, leaf) is Written,
    decreases segs.len(),
{
    if segs.len() > 1 {
        lemma_fresh_path_written(segs.drop_first(), leaf);
    }
}

pub open spec fn strings_view(v: Seq<String>) -> Seq<Seq<char>> {
    Seq::new(v.len(), |i: int| v[i]@)
}

/// Writes `leaf` at the path `segs[at..]` below the object `j` (see
/// `set_path`). Returns the new document and 0, or the unchanged document
/// and 1 (`NonObject`) or 2 (`LeafParentNonObject`).
pub fn set_path_exec(j: Json, segs: &Vec<String>, at: usize, leaf: Json) -> (r: (Json, u8))
    requires
        j@ is Object,
        at < segs@.len(),
    ensures
        match set_path(j@, strings_view(segs@).skip(at as int), leaf@) {
            PathWrite::Written(v) => r.1 == 0 && r.0@ == v,
            PathWrite::NonObject => r.1 == 1 && r.0@ == j@,
            PathWrite::LeafParentNonObject => r.1 == 2 && r.0@ == j@,
        },
    decreases segs@.len() - at,
{
    let ghost sv = strings_view(segs@).skip(at as int);
    assert(sv[0] == segs@[at as int]@);
    match j {
        Json::Object(entries) => {
            let mut entries = entries;
            proof {
                lemma_object_view(entries);
            }
            let ghost ev = entries_view(entries@);
            let key = segs[at].as_str();
            if at == segs.len() - 1 {
                obj_set(&mut entries, key, leaf);
                return (Json::object(entries), 0);
            }
            assert(sv.drop_first() =~= strings_view(segs@).skip(at + 1));
            match key_position(&entries, key) {
                Some(i) => {
                    proof {
                        lemma_field_index(ev, key@);
                    }
                    let (k, child) = entries.remove(i);
                    assert(ev[i as int] == (k@, child@));
                    assert(field(ev, key@) == Some(child@));
                    if child.is_object() {
                        let (c2, code) = set_path_exec(child, segs, at + 1, leaf);
                        entries.insert(i, (k, c2));
                        assert(entries_view(entries@) =~= ev.update(i as int, (key@, c2@)));
                        if code != 0 {
                            assert(entries_view(entries@) =~= ev);
                        }
                        (Json::object(entries), code)
                    } else {
                        let code: u8 = if segs.len() - at == 2 { 2 } else { 1 };
                        entries.insert(i, (k, child));
                        assert(entries_view(entries@) =~= ev);
                        (Json::object(entries), code)
                    }
                },
                None => {
                    proof {
                        lemma_field_index(ev, key@);
                        lemma_fresh_path_written(sv.drop_first(), leaf@);
                    }
                    let empty: Vec<(String, Json)> = Vec::new();
                    assert(entries_view(empty@) =~= Seq::<(Seq<char>, JsonV)>::empty());
                    let fresh = Json::object(empty);
                    let (c2, code) = set_path_exec(fresh, segs, at + 1, leaf);
                    obj_push(&mut entries, key, c2);
                    (Json::object(entries), code)
                },
            }
        },
        _ => (j, 1),
    }
}

} // verus!
