//! The structured values that function calls take as arguments and give as results.

use vstd::prelude::*;
use vstd::std_specs::vec::axiom_vec_index_decreases;

verus! {

/// `serde_json::Number`, carried through as it is: nothing here looks inside a number.
#[verifier::external_type_specification]
#[verifier::external_body]
pub struct ExNumber(serde_json::Number);

/// The derived `Clone` of `serde_json::Number` gives an equal number.
pub assume_specification[ <serde_json::Number as Clone>::clone ](
    number: &serde_json::Number,
) -> (copy: serde_json::Number)
    ensures
        copy == *number,
;

/// A structured value.
///
/// An object is kept as the list of its members in the order they were put in. A member
/// put in later replaces an earlier one of the same key, so a key stands for one value.
#[derive(Debug, PartialEq)]
pub enum Json {
    Null,
    Bool(bool),
    Number(serde_json::Number),
    String(String),
    Array(Vec<Json>),
    Object(Vec<(String, Json)>),
}

/// The mathematical reading of a [`Json`]: strings are sequences of characters, arrays are
/// sequences, and an object is a map from keys to values.
pub enum JsonView {
    Null,
    Bool(bool),
    Number(serde_json::Number),
    String(Seq<char>),
    Array(Seq<JsonView>),
    Object(Map<Seq<char>, JsonView>),
}

/// The map that the first `n` members make, each put into the map of those before it.
pub open spec fn members_view(members: Vec<(String, Json)>, n: nat) -> Map<Seq<char>, JsonView>
    decreases members, n,
{
    if n == 0 || n > members@.len() {
        Map::empty()
    } else {
        members_view(members, (n - 1) as nat).insert(
            members@[n - 1].0@,
            json_view(members@[n - 1].1),
        )
    }
}

/// The reading of a value.
pub open spec fn json_view(value: Json) -> JsonView
    decreases value,
{
    match value {
        Json::Null => JsonView::Null,
        Json::Bool(b) => JsonView::Bool(b),
        Json::Number(n) => JsonView::Number(n),
        Json::String(s) => JsonView::String(s@),
        Json::Array(items) => JsonView::Array(
            Seq::new(
                items@.len(),
                |i: int|
                    if 0 <= i < items@.len() {
                        json_view(items@[i])
                    } else {
                        JsonView::Null
                    },
            ),
        ),
        Json::Object(members) => JsonView::Object(members_view(members, members@.len())),
    }
}

impl View for Json {
    type V = JsonView;

    open spec fn view(&self) -> JsonView {
        json_view(*self)
    }
}

impl Clone for Json {
    /// A copy that reads the same.
    fn clone(&self) -> (copy: Json)
        ensures
            copy@ == self@,
        decreases self,
    {
        match self {
            Json::Null => Json::Null,
            Json::Bool(b) => Json::Bool(*b),
            Json::Number(n) => Json::Number(n.clone()),
            Json::String(s) => Json::String(s.clone()),
            Json::Array(items) => {
                let mut copies: Vec<Json> = Vec::new();
                let mut i: usize = 0;
                while i < items.len()
                    invariant
                        i <= items.len(),
                        copies@.len() == i,
                        decreases_to!(*self => *items),
                        forall|k: int| 0 <= k < i ==> copies@[k]@ == items@[k]@,
                    decreases items.len() - i,
                {
                    proof {
                        axiom_vec_index_decreases(*items, i as int);
                    }
                    copies.push(items[i].clone());
                    i += 1;
                }
                let copy = Json::Array(copies);
                assert(copy@->Array_0 =~= self@->Array_0);
                copy
            },
            Json::Object(members) => {
                let mut copies: Vec<(String, Json)> = Vec::new();
                let mut i: usize = 0;
                while i < members.len()
                    invariant
                        i <= members.len(),
                        copies@.len() == i,
                        decreases_to!(*self => *members),
                        forall|k: int|
                            0 <= k < i ==> copies@[k].0@ == members@[k].0@ && copies@[k].1@
                                == members@[k].1@,
                    decreases members.len() - i,
                {
                    proof {
                        axiom_vec_index_decreases(*members, i as int);
                    }
                    let member = members[i].1.clone();
                    copies.push((members[i].0.clone(), member));
                    i += 1;
                }
                proof {
                    lemma_members_same(copies, *members, members@.len());
                }
                Json::Object(copies)
            },
        }
    }
}

/// Members that read the same one by one make the same map.
pub proof fn lemma_members_same(a: Vec<(String, Json)>, b: Vec<(String, Json)>, n: nat)
    requires
        n <= a@.len(),
        n <= b@.len(),
        forall|i: int| 0 <= i < n ==> a@[i].0@ == b@[i].0@ && a@[i].1@ == b@[i].1@,
    ensures
        members_view(a, n) == members_view(b, n),
    decreases n,
{
    if n > 0 {
        lemma_members_same(a, b, (n - 1) as nat);
    }
}

/// The value of the last member named `key`, if there is one.
pub open spec fn lookup(members: Seq<(String, Json)>, key: Seq<char>) -> Option<Json>
    decreases members.len(),
{
    if members.len() == 0 {
        None
    } else if members.last().0@ == key {
        Some(members.last().1)
    } else {
        lookup(members.drop_last(), key)
    }
}

/// What a list of members holds under a key is what the object made of them maps it to.
pub proof fn lemma_lookup_is_member(members: Vec<(String, Json)>, n: nat, key: Seq<char>)
    requires
        n <= members@.len(),
    ensures
        members_view(members, n).dom().contains(key) <==> lookup(members@.take(n as int), key)
            is Some,
        lookup(members@.take(n as int), key) matches Some(value) ==> members_view(
            members,
            n,
        )[key] == value@,
    decreases n,
{
    if n > 0 {
        let before = members@.take(n as int);
        assert(before.last() == members@[n - 1]);
        assert(before.drop_last() =~= members@.take(n - 1));
        lemma_lookup_is_member(members, (n - 1) as nat, key);
    }
}

/// Finds the value of the last member named `key`.
pub fn get<'a>(members: &'a Vec<(String, Json)>, key: &str) -> (found: Option<&'a Json>)
    ensures
        match found {
            Some(value) => lookup(members@, key@) == Some(*value),
            None => lookup(members@, key@) is None,
        },
{
    let wanted = String::from_str(key);
    let mut i: usize = members.len();
    assert(members@.take(i as int) =~= members@);
    while i > 0
        invariant
            i <= members.len(),
            wanted@ == key@,
            lookup(members@, key@) == lookup(members@.take(i as int), key@),
        decreases i,
    {
        let ghost before = members@.take(i as int);
        assert(before.last() == members@[i - 1]);
        assert(before.drop_last() =~= members@.take(i - 1));
        if members[i - 1].0 == wanted {
            return Some(&members[i - 1].1);
        }
        i -= 1;
    }
    None
}

} // verus!
