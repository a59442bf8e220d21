use vstd::prelude::*;

verus! {

/// A JSON document as the library reads it: numbers are integers that fit in
/// an `i64`, and an object keeps its members in the order they were written.
#[derive(Debug)]
pub enum Json {
    Null,
    Bool(bool),
    Int(i64),
    Str(String),
    Array(Vec<Json>),
    Object(Vec<(String, Json)>),
}

/// The value of the first member named `key`, if any.
pub open spec fn lookup(members: Seq<(String, Json)>, key: Seq<char>) -> Option<Json>
    decreases members.len(),
{
    if members.len() == 0 {
        None
    } else if members[0].0@ == key {
        Some(members[0].1)
    } else {
        lookup(members.drop_first(), key)
    }
}

/// The boolean held by a document, if it is one.
pub open spec fn as_bool_spec(j: Option<Json>) -> Option<bool> {
    match j {
        Some(Json::Bool(b)) => Some(b),
        _ => None,
    }
}

/// The integer held by a document, if it is one.
pub open spec fn as_int_spec(j: Option<Json>) -> Option<i64> {
    match j {
        Some(Json::Int(n)) => Some(n),
        _ => None,
    }
}

/// The text held by a document, if it is a string.
pub open spec fn as_str_spec(j: Option<Json>) -> Option<Seq<char>> {
    match j {
        Some(Json::Str(s)) => Some(s@),
        _ => None,
    }
}

/// The lookup of a key found at `i`, with no earlier member of that name, is `members[i]`.
proof fn lemma_lookup_first(members: Seq<(String, Json)>, i: int, key: Seq<char>)
    requires
        0 <= i < members.len(),
        members[i].0@ == key,
        forall|j: int| 0 <= j < i ==> #[trigger] members[j].0@ != key,
    ensures
        lookup(members, key) == Some(members[i].1),
    decreases i,
{
    if i > 0 {
        assert(members[0].0@ != key);
        assert forall|j: int| 0 <= j < i - 1 implies #[trigger] members.drop_first()[j].0@ != key by {
            assert(members[j + 1].0@ != key);
        }
        lemma_lookup_first(members.drop_first(), i - 1, key);
    }
}

/// Position of the first member named `key` in `members`.
pub fn find_member(members: &Vec<(String, Json)>, key: &str) -> (r: Option<usize>)
    ensures
        match r {
            Some(i) => i < members@.len() && members@[i as int].0@ == key@
                && lookup(members@, key@) == Some(members@[i as int].1)
                && forall|j: int| 0 <= j < i ==> #[trigger] members@[j].0@ != key@,
            None => lookup(members@, key@) is None,
        },
{
    let ghost all = members@;
    let k = key.to_owned();
    let mut i: usize = 0;
    assert(members@.subrange(0, members@.len() as int) =~= members@);
    while i < members.len()
        invariant
            i <= members@.len(),
            k@ == key@,
            lookup(members@, key@) == lookup(members@.subrange(i as int, members@.len() as int), key@),
            forall|j: int| 0 <= j < i ==> #[trigger] members@[j].0@ != key@,
        decreases members@.len() - i,
    {
        let ghost rest = members@.subrange(i as int, members@.len() as int);
        if members[i].0 == k {
            return Some(i);
        }
        assert(rest.drop_first() =~= members@.subrange(i + 1, members@.len() as int));
        i = i + 1;
    }
    None
}

/// Removing a member named otherwise than `key` leaves the lookup of `key` as it was.
proof fn lemma_lookup_remove(members: Seq<(String, Json)>, i: int, key: Seq<char>)
    requires
        0 <= i < members.len(),
        members[i].0@ != key,
    ensures
        lookup(members.remove(i), key) == lookup(members, key),
    decreases members.len(),
{
    if i > 0 {
        lemma_lookup_remove(members.drop_first(), i - 1, key);
        assert(members.remove(i).drop_first() =~= members.drop_first().remove(i - 1));
    } else {
        assert(members.remove(0) =~= members.drop_first());
    }
}

/// Moves the first member named `key` out of `members`.
pub fn take_member(members: &mut Vec<(String, Json)>, key: &str) -> (r: Option<Json>)
    ensures
        r == lookup(old(members)@, key@),
        forall|other: Seq<char>| other != key@
            ==> #[trigger] lookup(final(members)@, other) == lookup(old(members)@, other),
{
    match find_member(members, key) {
        Some(i) => {
            proof {
                assert forall|other: Seq<char>| other != key@ implies
                    #[trigger] lookup(members@.remove(i as int), other) == lookup(members@, other) by {
                    lemma_lookup_first(members@, i as int, key@);
                    lemma_lookup_remove(members@, i as int, other);
                }
            }
            let (_, v) = members.remove(i);
            Some(v)
        },
        None => None,
    }
}

/// The member `key`, if it is a boolean.
pub fn lookup_bool(members: &Vec<(String, Json)>, key: &str) -> (r: Option<bool>)
    ensures
        r == as_bool_spec(lookup(members@, key@)),
{
    match find_member(members, key) {
        Some(i) => match &members[i].1 {
            Json::Bool(b) => Some(*b),
            _ => None,
        },
        None => None,
    }
}

/// The member `key`, if it is an integer.
pub fn lookup_int(members: &Vec<(String, Json)>, key: &str) -> (r: Option<i64>)
    ensures
        r == as_int_spec(lookup(members@, key@)),
{
    match find_member(members, key) {
        Some(i) => match &members[i].1 {
            Json::Int(n) => Some(*n),
            _ => None,
        },
        None => None,
    }
}

/// The member `key`, if it is a string.
pub fn lookup_str(members: &Vec<(String, Json)>, key: &str) -> (r: Option<String>)
    ensures
        match r {
            Some(t) => as_str_spec(lookup(members@, key@)) == Some(t@),
            None => as_str_spec(lookup(members@, key@)) is None,
        },
{
    match find_member(members, key) {
        Some(i) => match &members[i].1 {
            Json::Str(t) => Some(t.clone()),
            _ => None,
        },
        None => None,
    }
}

} // verus!
