//! Structured values as they arrive in a tool call: the arguments of a
//! call are one such value.

use crate::trusted::str_equal;
use vstd::prelude::*;

verus! {

/// A number of a structured value. A number with a fraction or an
/// exponent is held by the bit pattern of its double-precision form.
#[derive(Clone, Copy, Debug, PartialEq, Eq, Structural)]
pub enum Number {
    /// A whole number that is not negative.
    Unsigned(u64),
    /// A whole number below zero.
    Negative(i64),
    /// Any other number, by the bits of its IEEE 754 binary64 form.
    Real(u64),
}

/// A structured value.
#[derive(Debug)]
pub enum Value {
    Null,
    Bool(bool),
    Number(Number),
    Text(String),
    List(Vec<Value>),
    Object(Vec<Member>),
}

/// A named member of an object.
#[derive(Debug)]
pub struct Member {
    pub name: String,
    pub value: Value,
}

/// The value of the first member named `name`, if there is one.
pub open spec fn lookup(members: Seq<Member>, name: Seq<char>) -> Option<Value>
    decreases members.len(),
{
    if members.len() == 0 {
        None
    } else if members[0].name@ == name {
        Some(members[0].value)
    } else {
        lookup(members.drop_first(), name)
    }
}

/// The first member named `name` is the one that is looked up.
pub proof fn lemma_lookup_first(members: Seq<Member>, name: Seq<char>, k: int)
    requires
        0 <= k < members.len(),
        members[k].name@ == name,
        forall|j: int| 0 <= j < k ==> (#[trigger] members[j]).name@ != name,
    ensures
        lookup(members, name) == Some(members[k].value),
    decreases k,
{
    if k > 0 {
        let rest = members.drop_first();
        assert(members[0].name@ != name);
        assert(rest[k - 1] == members[k]);
        assert forall|j: int| 0 <= j < k - 1 implies (#[trigger] rest[j]).name@ != name by {
            assert(rest[j] == members[j + 1]);
        }
        lemma_lookup_first(rest, name, k - 1);
    }
}

/// Where no member is named `name`, nothing is looked up.
pub proof fn lemma_lookup_none(members: Seq<Member>, name: Seq<char>)
    requires
        forall|j: int| 0 <= j < members.len() ==> (#[trigger] members[j]).name@ != name,
    ensures
        lookup(members, name) is None,
    decreases members.len(),
{
    if members.len() > 0 {
        let rest = members.drop_first();
        assert(members[0].name@ != name);
        assert forall|j: int| 0 <= j < rest.len() implies (#[trigger] rest[j]).name@ != name by {
            assert(rest[j] == members[j + 1]);
        }
        lemma_lookup_none(rest, name);
    }
}

/// Finds the value of the first member named `name`.
pub fn find<'a>(members: &'a Vec<Member>, name: &str) -> (found: Option<&'a Value>)
    ensures
        match found {
            Some(value) => lookup(members@, name@) == Some(*value),
            None => lookup(members@, name@) is None,
        },
{
    let mut i: usize = 0;
    assert(members@.subrange(0, members@.len() as int) =~= members@);
    while i < members.len()
        invariant
            i <= members@.len(),
            lookup(members@, name@) == lookup(
                members@.subrange(i as int, members@.len() as int),
                name@,
            ),
        decreases members@.len() - i,
    {
        let ghost rest = members@.subrange(i as int, members@.len() as int);
        assert(rest[0] == members@[i as int]);
        assert(rest.drop_first() =~= members@.subrange(i as int + 1, members@.len() as int));
        if str_equal(members[i].name.as_str(), name) {
            return Some(&members[i].value);
        }
        i += 1;
    }
    None
}

} // verus!
