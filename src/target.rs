//! Choosing where a message is delivered.
use vstd::prelude::*;
use crate::model::RelayError;

verus! {

/// The delivery target: the message's own URI when it is present and not
/// empty, else the configured default, else none.
pub open spec fn target_of(uri: Option<String>, default_uri: Option<String>) -> Option<Seq<char>> {
    match uri {
        Some(u) if u@.len() > 0 => Some(u@),
        _ => match default_uri {
            Some(d) => Some(d@),
            None => None,
        },
    }
}

/// Picks the delivery target, failing with `NoTarget` when there is none.
pub fn resolve(uri: Option<String>, default_uri: &Option<String>) -> (r: Result<String, RelayError>)
    ensures
        r is Ok <==> target_of(uri, *default_uri) is Some,
        r is Ok ==> r->Ok_0@ == target_of(uri, *default_uri)->0,
        r is Err ==> r->Err_0 == RelayError::NoTarget,
{
    match uri {
        Some(u) if !u.as_str().is_empty() => Ok(u),
        _ => match default_uri {
            Some(d) => Ok(d.clone()),
            None => Err(RelayError::NoTarget),
        },
    }
}

} // verus!
