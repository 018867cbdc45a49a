//! A table from template keys to package versions, as the scaffolder's template data holds them.

use vstd::prelude::*;

verus! {

/// `serde_json::Map`, a JSON object: the table's storage, as in the template data.
#[verifier::external_type_specification]
#[verifier::external_body]
#[verifier::reject_recursive_types(K)]
#[verifier::reject_recursive_types(V)]
pub struct ExJsonMap<K, V>(serde_json::Map<K, V>);

/// `serde_json::Value`, a member's value.
#[verifier::external_type_specification]
#[verifier::external_body]
pub struct ExJsonValue(serde_json::Value);

/// The members of a JSON object: each key to `Some` of its value's text where that value is a
/// JSON string, to `None` for any other value.
pub uninterp spec fn json_members(m: serde_json::Map<String, serde_json::Value>) -> Map<
    Seq<char>,
    Option<Seq<char>>,
>;

/// The members of a JSON object, in that form, in the order the object iterates them.
pub uninterp spec fn json_member_order(m: serde_json::Map<String, serde_json::Value>) -> Seq<
    (Seq<char>, Option<Seq<char>>),
>;

/// `serde_json::Map::new`: an object without members.
#[verifier::external_body]
fn json_new() -> (r: serde_json::Map<String, serde_json::Value>)
    ensures
        json_members(r).dom() == Set::<Seq<char>>::empty(),
{
    serde_json::Map::new()
}

/// `serde_json::Map::get`, telling a JSON string apart from any other value: `None` where
/// `key` is no member, else the member's text where it is a string.
#[verifier::external_body]
fn json_get<'a>(m: &'a serde_json::Map<String, serde_json::Value>, key: &str) -> (r: Option<Option<&'a String>>)
    ensures
        match r {
            Some(v) => json_members(*m).contains_key(key@) && json_members(*m)[key@] == match v {
                Some(s) => Some(s@),
                None => None::<Seq<char>>,
            },
            None => !json_members(*m).contains_key(key@),
        },
{
    match m.get(key) {
        Some(serde_json::Value::String(s)) => Some(Some(s)),
        Some(_) => Some(None),
        None => None,
    }
}

/// `serde_json::Map::insert` of `value` as a `Value::String`: the member `key` now holds it,
/// replacing any earlier value; the other members stay.
#[verifier::external_body]
fn json_insert(m: &mut serde_json::Map<String, serde_json::Value>, key: String, value: String)
    ensures
        json_members(*final(m)) == json_members(*old(m)).insert(key@, Some(value@)),
{
    m.insert(key, serde_json::Value::String(value));
}

pub open spec fn member_view(e: (String, Option<String>)) -> (Seq<char>, Option<Seq<char>>) {
    (
        e.0@,
        match e.1 {
            Some(s) => Some(s@),
            None => None,
        },
    )
}

/// `serde_json::Map::iter`, collected: every member once, in the object's order, each string
/// value's text (`None` for any other value).
#[verifier::external_body]
fn json_members_in_order(m: &serde_json::Map<String, serde_json::Value>) -> (r: Vec<(String, Option<String>)>)
    ensures
        r@.map_values(|e: (String, Option<String>)| member_view(e)) == json_member_order(*m),
        forall|i: int, j: int|
            0 <= i < j < r@.len() ==> #[trigger] r@[i].0@ != #[trigger] r@[j].0@,
        forall|i: int|
            0 <= i < r@.len() ==> json_members(*m).contains_key(#[trigger] r@[i].0@) && json_members(
                *m,
            )[r@[i].0@] == member_view(r@[i]).1,
        forall|k: Seq<char>| #[trigger]
            json_members(*m).contains_key(k) ==> exists|i: int| 0 <= i < r@.len() && r@[i].0@ == k,
{
    let mut r = Vec::new();
    for (k, v) in m.iter() {
        let text = match v {
            serde_json::Value::String(s) => Some(s.clone()),
            _ => None,
        };
        r.push((k.clone(), text));
    }
    r
}

pub open spec fn text_of(o: Option<Seq<char>>) -> Seq<char> {
    match o {
        Some(v) => v,
        None => Seq::empty(),
    }
}

/// The text of each member, for an object whose members are all strings.
pub open spec fn member_texts(m: Map<Seq<char>, Option<Seq<char>>>) -> Map<Seq<char>, Seq<char>> {
    Map::new(|k: Seq<char>| m.contains_key(k), |k: Seq<char>| text_of(m[k]))
}

/// Keys mapped to versions, held as the JSON object the templates read: each member a string.
pub struct VersionMap {
    members: serde_json::Map<String, serde_json::Value>,
}

impl View for VersionMap {
    type V = Map<Seq<char>, Seq<char>>;

    closed spec fn view(&self) -> Map<Seq<char>, Seq<char>> {
        member_texts(json_members(self.members))
    }
}

impl VersionMap {
    #[verifier::type_invariant]
    closed spec fn wf(self) -> bool {
        forall|k: Seq<char>| #[trigger]
            json_members(self.members).contains_key(k) ==> json_members(self.members)[k] is Some
    }

    /// Every key with its version, in the order the table iterates them.
    pub closed spec fn entries_view(&self) -> Seq<(Seq<char>, Seq<char>)> {
        json_member_order(self.members).map_values(
            |e: (Seq<char>, Option<Seq<char>>)| (e.0, text_of(e.1)),
        )
    }

    /// An empty table.
    pub fn new() -> (r: VersionMap)
        ensures
            r@ == Map::<Seq<char>, Seq<char>>::empty(),
    {
        let r = VersionMap { members: json_new() };
        assert(r@ =~= Map::<Seq<char>, Seq<char>>::empty());
        r
    }

    /// The version recorded for `key`.
    pub fn get(&self, key: &str) -> (r: Option<&String>)
        ensures
            r matches Some(v) ==> self@.contains_key(key@) && self@[key@] == v@,
            r is None ==> !self@.contains_key(key@),
    {
        proof {
            use_type_invariant(self);
        }
        match json_get(&self.members, key) {
            Some(Some(v)) => Some(v),
            Some(None) => {
                assert(json_members(self.members)[key@] is Some);
                None
            },
            None => None,
        }
    }

    /// Whether `key` has a version.
    pub fn contains_key(&self, key: &str) -> (r: bool)
        ensures
            r == self@.contains_key(key@),
    {
        self.get(key).is_some()
    }

    /// Sets the version of `key`, replacing any earlier one.
    pub fn insert(&mut self, key: String, value: String)
        ensures
            final(self)@ == old(self)@.insert(key@, value@),
    {
        proof {
            use_type_invariant(&*self);
        }
        let ghost before = json_members(self.members);
        let ghost (k, v) = (key@, value@);
        let mut members = json_new();
        std::mem::swap(&mut members, &mut self.members);
        json_insert(&mut members, key, value);
        proof {
            let after = json_members(members);
            assert(after == before.insert(k, Some(v)));
            assert forall|q: Seq<char>| #[trigger] after.contains_key(q) implies after[q] is Some by {
                if q != k {
                    assert(before.contains_key(q));
                }
            }
            assert(member_texts(after) =~= member_texts(before).insert(k, v));
        }
        self.members = members;
    }

    /// Sets the version of `key` only if it has none yet (`entry(key).or_insert(value)`).
    pub fn insert_if_absent(&mut self, key: String, value: String)
        ensures
            final(self)@ == (if old(self)@.contains_key(key@) {
                old(self)@
            } else {
                old(self)@.insert(key@, value@)
            }),
    {
        if !self.contains_key(key.as_str()) {
            self.insert(key, value);
        }
    }

    /// Records every version of `other`, replacing the versions of keys already present.
    pub fn extend(&mut self, other: &VersionMap)
        ensures
            final(self)@ == old(self)@.union_prefer_right(other@),
    {
        let ghost start = self@;
        let pairs = other.pairs();
        let ghost ps = pairs@;
        let mut i: usize = 0;
        while i < pairs.len()
            invariant
                i <= pairs.len(),
                ps == pairs@,
                forall|j: int| 0 <= j < ps.len() ==> other@.contains_key(#[trigger] ps[j].0@) && other@[ps[j].0@] == ps[j].1@,
                forall|k: Seq<char>| #[trigger] other@.contains_key(k) ==> exists|j: int| 0 <= j < ps.len() && ps[j].0@ == k,
                forall|k: Seq<char>| #[trigger] self@.contains_key(k) <==> (start.contains_key(k) || exists|j: int| 0 <= j < i && ps[j].0@ == k),
                forall|k: Seq<char>| self@.contains_key(k) ==> #[trigger] self@[k] == (if exists|j: int| 0 <= j < i && ps[j].0@ == k { other@[k] } else { start[k] }),
            decreases pairs.len() - i,
        {
            let ghost before = self@;
            let k = pairs[i].0.clone();
            let v = pairs[i].1.clone();
            self.insert(k, v);
            proof {
                assert forall|key: Seq<char>| #[trigger] self@.contains_key(key) <==> (start.contains_key(key) || exists|j: int| 0 <= j < i + 1 && ps[j].0@ == key) by {
                    if key == ps[i as int].0@ {
                        assert(0 <= i < i + 1 && ps[i as int].0@ == key);
                    } else {
                        if exists|j: int| 0 <= j < i + 1 && ps[j].0@ == key {
                            let j = choose|j: int| 0 <= j < i + 1 && ps[j].0@ == key;
                            assert(j < i);
                        }
                    }
                }
                assert forall|key: Seq<char>| self@.contains_key(key) implies #[trigger] self@[key] == (if exists|j: int| 0 <= j < i + 1 && ps[j].0@ == key { other@[key] } else { start[key] }) by {
                    if key == ps[i as int].0@ {
                        assert(0 <= i < i + 1 && ps[i as int].0@ == key);
                    } else {
                        if exists|j: int| 0 <= j < i + 1 && ps[j].0@ == key {
                            let j = choose|j: int| 0 <= j < i + 1 && ps[j].0@ == key;
                            assert(j < i);
                            assert(exists|j2: int| 0 <= j2 < i && ps[j2].0@ == key);
                        }
                    }
                }
            }
            i = i + 1;
        }
        proof {
            assert(self@ =~= start.union_prefer_right(other@)) by {
                assert forall|k: Seq<char>| #[trigger] self@.contains_key(k) <==> start.union_prefer_right(other@).contains_key(k) by {
                    if other@.contains_key(k) {
                        let j = choose|j: int| 0 <= j < ps.len() && ps[j].0@ == k;
                    }
                }
                assert forall|k: Seq<char>| #[trigger] self@.contains_key(k) implies self@[k] == start.union_prefer_right(other@)[k] by {
                    if exists|j: int| 0 <= j < ps.len() && ps[j].0@ == k {
                        let j = choose|j: int| 0 <= j < ps.len() && ps[j].0@ == k;
                        assert(other@.contains_key(ps[j].0@));
                    } else if other@.contains_key(k) {
                        let j = choose|j: int| 0 <= j < ps.len() && ps[j].0@ == k;
                    }
                }
            }
        }
    }

    /// Every key with its version, each key once, in the order the table iterates them.
    pub fn pairs(&self) -> (r: Vec<(String, String)>)
        ensures
            forall|i: int| 0 <= i < r@.len() ==> self@.contains_key(#[trigger] r@[i].0@) && self@[r@[i].0@] == r@[i].1@,
            forall|k: Seq<char>| #[trigger] self@.contains_key(k) ==> exists|i: int| 0 <= i < r@.len() && r@[i].0@ == k,
            r@.map_values(|e: (String, String)| (e.0@, e.1@)) == self.entries_view(),
    {
        proof {
            use_type_invariant(self);
        }
        let members = json_members_in_order(&self.members);
        let ghost ms = json_members(self.members);
        let ghost order = members@.map_values(|e: (String, Option<String>)| member_view(e));
        let mut r: Vec<(String, String)> = Vec::new();
        let mut i: usize = 0;
        while i < members.len()
            invariant
                i <= members.len(),
                ms == json_members(self.members),
                order == members@.map_values(|e: (String, Option<String>)| member_view(e)),
                order == json_member_order(self.members),
                forall|j: int|
                    0 <= j < members@.len() ==> ms.contains_key(#[trigger] members@[j].0@) && ms[members@[j].0@]
                        == member_view(members@[j]).1,
                forall|q: Seq<char>| #[trigger] ms.contains_key(q) ==> ms[q] is Some,
                r@.len() == i,
                forall|j: int| 0 <= j < i ==> #[trigger] r@[j].0@ == members@[j].0@ && Some(r@[j].1@) == member_view(members@[j]).1,
            decreases members.len() - i,
        {
            let key = members[i].0.clone();
            match &members[i].1 {
                Some(v) => {
                    r.push((key, v.clone()));
                },
                None => {
                    assert(ms.contains_key(members@[i as int].0@));
                    assert(false);
                },
            }
            i = i + 1;
        }
        proof {
            assert(r@.map_values(|e: (String, String)| (e.0@, e.1@)) =~= self.entries_view()) by {
                assert forall|j: int| 0 <= j < r@.len() implies r@.map_values(|e: (String, String)| (e.0@, e.1@))[j]
                    == self.entries_view()[j] by {
                    assert(order[j] == member_view(members@[j]));
                }
            }
            assert forall|j: int| 0 <= j < r@.len() implies self@.contains_key(#[trigger] r@[j].0@) && self@[r@[j].0@] == r@[j].1@ by {
                assert(ms.contains_key(members@[j].0@));
            }
            assert forall|k: Seq<char>| #[trigger] self@.contains_key(k) implies exists|j: int| 0 <= j < r@.len() && r@[j].0@ == k by {
                assert(ms.contains_key(k));
                let j = choose|j: int| 0 <= j < members@.len() && members@[j].0@ == k;
                assert(r@[j].0@ == k);
            }
        }
        r
    }
}

} // verus!
