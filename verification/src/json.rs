//! JSON values as plain data.

use vstd::prelude::*;

use crate::text::str_eq;

verus! {

/// A JSON number.
#[derive(Clone, Debug)]
pub enum JsonNumber {
    /// An integer that is not negative.
    Unsigned(u64),
    /// A negative integer.
    Negative(i64),
    /// Any other number, by its text.
    Decimal(String),
}

/// A JSON value. The members of an object are kept in order, with distinct
/// keys.
#[derive(Debug)]
pub enum Json {
    Null,
    Bool(bool),
    Number(JsonNumber),
    Text(String),
    List(Vec<Json>),
    Object(Vec<(String, Json)>),
}

/// Whether `members[i]` is the first member called `key`.
pub open spec fn first_member(members: Seq<(String, Json)>, key: Seq<char>, i: int) -> bool {
    &&& 0 <= i < members.len()
    &&& members[i].0@ == key
    &&& forall|j: int| 0 <= j < i ==> (#[trigger] members[j]).0@ != key
}

/// The value of the first member called `key`.
pub open spec fn member(members: Seq<(String, Json)>, key: Seq<char>) -> Option<Json> {
    if exists|i: int| first_member(members, key, i) {
        Some(members[choose|i: int| first_member(members, key, i)].1)
    } else {
        None
    }
}

/// The first member of a given name is unique.
pub proof fn first_member_is_unique(members: Seq<(String, Json)>, key: Seq<char>, i: int, j: int)
    requires
        first_member(members, key, i),
        first_member(members, key, j),
    ensures
        i == j,
{
    if i < j {
        assert(members[i].0@ != key);
    } else if j < i {
        assert(members[j].0@ != key);
    }
}

/// The value found at position `i` is the member's value.
pub proof fn member_at(members: Seq<(String, Json)>, key: Seq<char>, i: int)
    requires
        first_member(members, key, i),
    ensures
        member(members, key) == Some(members[i].1),
{
    let k = choose|k: int| first_member(members, key, k);
    first_member_is_unique(members, key, i, k);
}

/// Looks up a member by name.
pub fn lookup<'a>(members: &'a Vec<(String, Json)>, key: &str) -> (r: Option<&'a Json>)
    ensures
        match r {
            Some(value) => member(members@, key@) == Some(*value),
            None => member(members@, key@) is None,
        },
{
    let mut i: usize = 0;
    while i < members.len()
        invariant
            i <= members@.len(),
            forall|j: int| 0 <= j < i ==> (#[trigger] members@[j]).0@ != key@,
        decreases members@.len() - i,
    {
        if str_eq(members[i].0.as_str(), key) {
            proof {
                assert(first_member(members@, key@, i as int));
                member_at(members@, key@, i as int);
            }
            return Some(&members[i].1);
        }
        i = i + 1;
    }
    proof {
        assert forall|k: int| !first_member(members@, key@, k) by {}
    }
    None
}

impl Json {
    /// The value as a boolean.
    pub open spec fn bool_view(self) -> Option<bool> {
        match self {
            Json::Bool(b) => Some(b),
            _ => None,
        }
    }

    /// The value as an integer that is not negative.
    pub open spec fn u64_view(self) -> Option<u64> {
        match self {
            Json::Number(JsonNumber::Unsigned(n)) => Some(n),
            _ => None,
        }
    }

    /// The members of an object.
    pub open spec fn members(self) -> Option<Seq<(String, Json)>> {
        match self {
            Json::Object(members) => Some(members@),
            _ => None,
        }
    }

    /// The value of a member, where the value is an object that has it.
    pub open spec fn member_view(self, key: Seq<char>) -> Option<Json> {
        match self {
            Json::Object(members) => member(members@, key),
            _ => None,
        }
    }

    /// The value as a boolean.
    pub fn as_bool(&self) -> (r: Option<bool>)
        ensures
            r == self.bool_view(),
    {
        match self {
            Json::Bool(b) => Some(*b),
            _ => None,
        }
    }

    /// The value as an integer that is not negative.
    pub fn as_u64(&self) -> (r: Option<u64>)
        ensures
            r == self.u64_view(),
    {
        match self {
            Json::Number(JsonNumber::Unsigned(n)) => Some(*n),
            _ => None,
        }
    }

    /// The value of a member, where the value is an object that has it.
    pub fn get(&self, key: &str) -> (r: Option<&Json>)
        ensures
            match r {
                Some(value) => self.member_view(key@) == Some(*value),
                None => self.member_view(key@) is None,
            },
    {
        match self {
            Json::Object(members) => lookup(members, key),
            _ => None,
        }
    }
}

} // verus!
