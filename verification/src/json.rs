//! JSON values as the envelope codec sees them.

use crate::backend::clone_number;
use vstd::prelude::*;

verus! {

/// A JSON number that is no integer in the range from `i64::MIN` to
/// `u64::MAX`: one with a fraction or an exponent, or one beyond that range.
/// It is the `serde_json::Number` that was read, carried through as it is.
///
/// Only reading JSON text makes one, so that no integer of that range can
/// stand in it.
#[derive(Debug, PartialEq, Eq)]
pub struct Fraction {
    pub(crate) number: serde_json::Number,
}

impl Fraction {
    /// The number that is carried.
    pub closed spec fn held(self) -> serde_json::Number {
        self.number
    }

    /// The number, as `serde_json` holds it.
    pub fn number(&self) -> (r: &serde_json::Number)
        ensures
            *r == self.held(),
    {
        &self.number
    }
}

impl Clone for Fraction {
    fn clone(&self) -> (r: Self)
        ensures
            r == *self,
    {
        Fraction { number: clone_number(&self.number) }
    }
}

/// A JSON number. An integer is held as an integer, any other number as a
/// [`Fraction`].
#[derive(Debug, PartialEq, Eq)]
pub enum JsonNumber {
    /// An integer from zero to `u64::MAX`.
    PosInt(u64),
    /// An integer below zero.
    NegInt(i64),
    /// A number that is no such integer.
    Float(Fraction),
}

impl JsonNumber {
    /// An integer is well formed when it is held in the one way there is
    /// for it: below zero as `NegInt`, from zero on as `PosInt`.
    pub open spec fn wf(self) -> bool {
        match self {
            JsonNumber::PosInt(_) => true,
            JsonNumber::NegInt(i) => i < 0,
            JsonNumber::Float(_) => true,
        }
    }

    /// Whether the number is well formed.
    pub fn is_well_formed(&self) -> (b: bool)
        ensures
            b == self.wf(),
    {
        match self {
            JsonNumber::PosInt(_) => true,
            JsonNumber::NegInt(i) => *i < 0,
            JsonNumber::Float(_) => true,
        }
    }
}

impl Clone for JsonNumber {
    fn clone(&self) -> (r: Self)
        ensures
            r == *self,
    {
        match self {
            JsonNumber::PosInt(u) => JsonNumber::PosInt(*u),
            JsonNumber::NegInt(i) => JsonNumber::NegInt(*i),
            JsonNumber::Float(fraction) => JsonNumber::Float(fraction.clone()),
        }
    }
}

/// One `key: value` entry of a JSON object.
#[derive(Debug, PartialEq, Eq)]
pub struct Member {
    pub key: String,
    pub value: Json,
}

/// A JSON value.
#[derive(Debug, PartialEq, Eq)]
pub enum Json {
    Null,
    Bool(bool),
    Number(JsonNumber),
    String(String),
    Array(Vec<Json>),
    Object(Vec<Member>),
}

/// The mathematical value of a [`Json`].
pub enum JsonView {
    Null,
    Bool(bool),
    Number(JsonNumber),
    String(Seq<char>),
    Array(Seq<JsonView>),
    Object(Seq<(Seq<char>, JsonView)>),
}

impl View for Member {
    type V = (Seq<char>, JsonView);

    open spec fn view(&self) -> (Seq<char>, JsonView) {
        (self.key@, self.value@)
    }
}

impl Json {
    /// The mathematical value of a JSON value.
    pub open spec fn model(self) -> JsonView
        decreases self,
    {
        match self {
            Json::Null => JsonView::Null,
            Json::Bool(b) => JsonView::Bool(b),
            Json::Number(n) => JsonView::Number(n),
            Json::String(s) => JsonView::String(s@),
            Json::Array(items) => JsonView::Array(
                Seq::new(
                    items.len() as nat,
                    |i: int| if 0 <= i < items.len() { items[i].model() } else { JsonView::Null },
                ),
            ),
            Json::Object(members) => JsonView::Object(
                Seq::new(
                    members.len() as nat,
                    |i: int|
                        if 0 <= i < members.len() {
                            (members[i].key@, members[i].value.model())
                        } else {
                            (Seq::empty(), JsonView::Null)
                        },
                ),
            ),
        }
    }
}

impl View for Json {
    type V = JsonView;

    open spec fn view(&self) -> JsonView {
        self.model()
    }
}

/// The views of the items of an array, in order.
pub open spec fn item_views(items: Seq<Json>) -> Seq<JsonView> {
    Seq::new(items.len(), |i: int| items[i]@)
}

/// The views of the entries of an object, in order.
pub open spec fn entry_views(members: Seq<Member>) -> Seq<(Seq<char>, JsonView)> {
    Seq::new(members.len(), |i: int| members[i]@)
}

/// An array's view holds the views of its items.
pub proof fn lemma_array_view(items: Vec<Json>)
    ensures
        Json::Array(items)@ == JsonView::Array(item_views(items@)),
{
    assert(Json::Array(items)@->Array_0 =~= item_views(items@));
}

/// An object's view holds the views of its entries.
pub proof fn lemma_object_view(members: Vec<Member>)
    ensures
        Json::Object(members)@ == JsonView::Object(entry_views(members@)),
{
    assert(Json::Object(members)@->Object_0 =~= entry_views(members@));
}

impl Clone for Member {
    fn clone(&self) -> (r: Self)
        ensures
            r@ == self@,
        decreases self,
    {
        Member { key: self.key.clone(), value: self.value.clone() }
    }
}

impl Clone for Json {
    fn clone(&self) -> (r: Self)
        ensures
            r@ == self@,
        decreases self,
    {
        match self {
            Json::Null => Json::Null,
            Json::Bool(b) => Json::Bool(*b),
            Json::Number(n) => Json::Number(n.clone()),
            Json::String(s) => Json::String(s.clone()),
            Json::Array(items) => {
                let mut out: Vec<Json> = Vec::new();
                let mut i: usize = 0;
                while i < items.len()
                    invariant
                        i <= items.len(),
                        out.len() == i,
                        forall|k: int| 0 <= k < i ==> out[k]@ == items[k]@,
                        self == Json::Array(*items),
                    decreases items.len() - i,
                {
                    assert(self->Array_0 == *items);
                    out.push(items[i].clone());
                    i += 1;
                }
                let r = Json::Array(out);
                proof {
                    assert(r@->Array_0 =~= self@->Array_0);
                }
                r
            },
            Json::Object(members) => {
                let mut out: Vec<Member> = Vec::new();
                let mut i: usize = 0;
                while i < members.len()
                    invariant
                        i <= members.len(),
                        out.len() == i,
                        forall|k: int| 0 <= k < i ==> out[k]@ == members[k]@,
                        self == Json::Object(*members),
                    decreases members.len() - i,
                {
                    assert(self->Object_0 == *members);
                    out.push(members[i].clone());
                    i += 1;
                }
                let r = Json::Object(out);
                proof {
                    assert(r@->Object_0 =~= self@->Object_0);
                }
                r
            },
        }
    }
}

/// What looking a key up in an object's entries finds.
#[derive(Debug, PartialEq, Eq)]
pub enum Lookup<T> {
    /// No entry has the key.
    Absent,
    /// Exactly one entry has the key; this is its value.
    Once(T),
    /// Two or more entries have the key.
    Repeated,
}

/// Entry `i` of `entries` exists and has the key `key`.
pub open spec fn occurs_at(entries: Seq<(Seq<char>, JsonView)>, key: Seq<char>, i: int) -> bool {
    0 <= i < entries.len() && entries[i].0 == key
}

/// The value that `entries` gives to `key`, if exactly one entry has it.
pub open spec fn lookup(entries: Seq<(Seq<char>, JsonView)>, key: Seq<char>) -> Lookup<JsonView> {
    if forall|i: int| !occurs_at(entries, key, i) {
        Lookup::Absent
    } else {
        let i = choose|i: int| occurs_at(entries, key, i);
        if forall|k: int| occurs_at(entries, key, k) ==> k == i {
            Lookup::Once(entries[i].1)
        } else {
            Lookup::Repeated
        }
    }
}

/// No two entries share a key.
pub open spec fn distinct_keys(entries: Seq<(Seq<char>, JsonView)>) -> bool {
    forall|i: int, j: int| 0 <= i < j < entries.len() ==> entries[i].0 != entries[j].0
}

/// Among entries with distinct keys, each entry's key finds that entry's value.
pub proof fn lemma_lookup_distinct(entries: Seq<(Seq<char>, JsonView)>, i: int)
    requires
        distinct_keys(entries),
        0 <= i < entries.len(),
    ensures
        lookup(entries, entries[i].0) == Lookup::Once(entries[i].1),
{
    let key = entries[i].0;
    assert(occurs_at(entries, key, i));
    let c = choose|c: int| occurs_at(entries, key, c);
    assert forall|k: int| occurs_at(entries, key, k) implies k == i by {
        if k < i {
            assert(entries[k].0 != entries[i].0);
        } else if i < k {
            assert(entries[i].0 != entries[k].0);
        }
    }
    assert(occurs_at(entries, key, c));
}

/// A key that no entry has is absent.
pub proof fn lemma_lookup_absent(entries: Seq<(Seq<char>, JsonView)>, key: Seq<char>)
    requires
        forall|i: int| 0 <= i < entries.len() ==> entries[i].0 != key,
    ensures
        lookup(entries, key) is Absent,
{
}

/// Looks `key` up among the entries of an object.
pub fn find<'a>(members: &'a Vec<Member>, key: &str) -> (r: Lookup<&'a Json>)
    ensures
        match r {
            Lookup::Absent => lookup(entry_views(members@), key@) is Absent,
            Lookup::Once(value) => lookup(entry_views(members@), key@) == Lookup::Once(value@),
            Lookup::Repeated => lookup(entry_views(members@), key@) is Repeated,
        },
{
    let wanted = String::from_str(key);
    let mut found: Option<usize> = None;
    let mut i: usize = 0;
    while i < members.len()
        invariant
            i <= members.len(),
            wanted@ == key@,
            match found {
                None => forall|k: int| 0 <= k < i ==> !occurs_at(entry_views(members@), key@, k),
                Some(f) => f < i && occurs_at(entry_views(members@), key@, f as int) && forall|k: int|
                    0 <= k < i && k != f ==> !occurs_at(entry_views(members@), key@, k),
            },
        decreases members.len() - i,
    {
        if members[i].key == wanted {
            assert(occurs_at(entry_views(members@), key@, i as int));
            match found {
                Some(f) => {
                    assert(occurs_at(entry_views(members@), key@, f as int));
                    return Lookup::Repeated;
                },
                None => {
                    found = Some(i);
                },
            }
        } else {
            assert(!occurs_at(entry_views(members@), key@, i as int));
        }
        i += 1;
    }
    match found {
        None => Lookup::Absent,
        Some(f) => {
            assert(occurs_at(entry_views(members@), key@, f as int));
            Lookup::Once(&members[f].value)
        },
    }
}

impl JsonView {
    /// A value is well formed when every number in it is, and no object in
    /// it holds a key twice.
    pub open spec fn wf(self) -> bool
        decreases self,
    {
        match self {
            JsonView::Null => true,
            JsonView::Bool(_) => true,
            JsonView::Number(n) => n.wf(),
            JsonView::String(_) => true,
            JsonView::Array(items) => forall|i: int|
                0 <= i < items.len() ==> (#[trigger] items[i]).wf(),
            JsonView::Object(entries) => distinct_keys(entries) && forall|i: int|
                0 <= i < entries.len() ==> (#[trigger] entries[i]).1.wf(),
        }
    }
}

/// Whether no two members share a key.
pub fn has_distinct_keys(members: &Vec<Member>) -> (b: bool)
    ensures
        b == distinct_keys(entry_views(members@)),
{
    let mut j: usize = 0;
    while j < members.len()
        invariant
            j <= members.len(),
            forall|a: int, b: int| 0 <= a < b < j ==> members[a].key@ != members[b].key@,
        decreases members.len() - j,
    {
        let mut i: usize = 0;
        while i < j
            invariant
                i <= j < members.len(),
                forall|a: int| 0 <= a < i ==> members[a].key@ != members[j as int].key@,
            decreases j - i,
        {
            if members[i].key == members[j].key {
                assert(entry_views(members@)[i as int].0 == entry_views(members@)[j as int].0);
                return false;
            }
            i += 1;
        }
        j += 1;
    }
    true
}

impl Json {
    /// Whether the value is well formed.
    pub fn is_well_formed(&self) -> (b: bool)
        ensures
            b == self@.wf(),
        decreases self,
    {
        match self {
            Json::Null => true,
            Json::Bool(_) => true,
            Json::Number(n) => n.is_well_formed(),
            Json::String(_) => true,
            Json::Array(items) => {
                proof {
                    lemma_array_view(*items);
                }
                let mut i: usize = 0;
                while i < items.len()
                    invariant
                        i <= items.len(),
                        self == Json::Array(*items),
                        self@ == JsonView::Array(item_views(items@)),
                        forall|k: int| 0 <= k < i ==> items[k]@.wf(),
                    decreases items.len() - i,
                {
                    assert(self->Array_0 == *items);
                    if !items[i].is_well_formed() {
                        assert(self@->Array_0[i as int] == items[i as int]@);
                        return false;
                    }
                    i += 1;
                }
                true
            },
            Json::Object(members) => {
                proof {
                    lemma_object_view(*members);
                }
                if !has_distinct_keys(members) {
                    return false;
                }
                let mut i: usize = 0;
                while i < members.len()
                    invariant
                        i <= members.len(),
                        self == Json::Object(*members),
                        self@ == JsonView::Object(entry_views(members@)),
                        forall|k: int| 0 <= k < i ==> members[k].value@.wf(),
                    decreases members.len() - i,
                {
                    assert(self->Object_0 == *members);
                    if !members[i].value.is_well_formed() {
                        assert(self@->Object_0[i as int] == members[i as int]@);
                        return false;
                    }
                    i += 1;
                }
                true
            },
        }
    }
}

} // verus!
