//! Reading the members of a JSON object by name.
use vstd::prelude::*;
use crate::json::Json;

verus! {

/// The value of the member named `key`: when a name repeats, the last one
/// counts, as in serde_json's maps.
pub open spec fn member(ms: Seq<(String, Json)>, key: Seq<char>) -> Option<Json>
    decreases ms.len(),
{
    if ms.len() == 0 {
        None
    } else if ms.last().0@ == key {
        Some(ms.last().1)
    } else {
        member(ms.drop_last(), key)
    }
}

/// The member `key` of `j`, where `j` is an object.
pub open spec fn field(j: Json, key: Seq<char>) -> Option<Json> {
    match j {
        Json::Object(ms) => member(ms@, key),
        _ => None,
    }
}

pub open spec fn distinct_names(names: Seq<String>) -> bool {
    forall|a: int, b: int|
        0 <= a < names.len() && 0 <= b < names.len() && a != b ==> names[a]@ != names[b]@
}

/// Moves out of `ms` the value of each member named in `names`, in the order
/// of `names`.
pub fn take_fields(ms: Vec<(String, Json)>, names: &Vec<String>) -> (r: Vec<Option<Json>>)
    requires
        distinct_names(names@),
    ensures
        r.len() == names.len(),
        forall|i: int| 0 <= i < names.len() ==> r@[i] == member(ms@, names@[i]@),
{
    let ghost orig = ms@;
    let mut ms = ms;
    let mut r: Vec<Option<Json>> = Vec::new();
    let mut k: usize = 0;
    while k < names.len()
        invariant
            k <= names.len(),
            r.len() == k,
            forall|i: int| 0 <= i < k ==> r@[i] is None,
        decreases names.len() - k,
    {
        r.push(None);
        k = k + 1;
    }
    while ms.len() > 0
        invariant
            distinct_names(names@),
            r.len() == names.len(),
            ms.len() <= orig.len(),
            ms@ == orig.subrange(0, ms.len() as int),
            forall|i: int|
                0 <= i < names.len() ==> member(orig, names@[i]@) == match r@[i] {
                    Some(x) => Some(x),
                    None => member(ms@, names@[i]@),
                },
        decreases ms.len(),
    {
        let ghost before = ms@;
        let popped = ms.pop();
        match popped {
            Some((key, value)) => {
                proof {
                    assert(ms@ == before.drop_last());
                    assert(ms@ =~= orig.subrange(0, ms.len() as int));
                }
                let mut i: usize = 0;
                let mut found: bool = false;
                while i < names.len() && !found
                    invariant
                        i <= names.len(),
                        !found ==> forall|t: int| 0 <= t < i ==> names@[t]@ != key@,
                        found ==> 0 < i && names@[i - 1]@ == key@,
                    decreases names.len() - i,
                {
                    if names[i] == key {
                        found = true;
                    }
                    i = i + 1;
                }
                if found && r[i - 1].is_none() {
                    r.set(i - 1, Some(value));
                }
                proof {
                    assert forall|t: int| 0 <= t < names.len() implies member(orig, names@[t]@)
                        == match r@[t] {
                        Some(x) => Some(x),
                        None => member(ms@, names@[t]@),
                    } by {
                        assert(member(before, names@[t]@) == if key@ == names@[t]@ {
                            Some(value)
                        } else {
                            member(ms@, names@[t]@)
                        });
                    }
                }
            },
            None => {},
        }
    }
    r
}

/// Takes the last entry of `fields`.
pub fn next_field(fields: &mut Vec<Option<Json>>) -> (r: Option<Json>)
    requires
        old(fields).len() > 0,
    ensures
        r == old(fields)@.last(),
        final(fields)@ == old(fields)@.drop_last(),
{
    match fields.pop() {
        Some(f) => f,
        None => None,
    }
}

} // verus!
