//! Fetching the pre-key bundles of others.

use vstd::prelude::*;

verus! {

/// A request for the pre-key bundles of some addresses, with the reason given for it, if any.
pub struct PreKeyFetch<J> {
    pub jids: Vec<J>,
    pub reason: Option<String>,
}

/// The request for the pre-key bundles of these addresses.
pub fn fetch_pre_keys<J>(jids: Vec<J>, reason: Option<&str>) -> (request: PreKeyFetch<J>)
    ensures
        request.jids == jids,
        match reason {
            Some(reason) => request.reason matches Some(given) && given@ == reason@,
            None => request.reason is None,
        },
{
    match reason {
        Some(reason) => PreKeyFetch { jids, reason: Some(reason.to_string()) },
        None => PreKeyFetch { jids, reason: None },
    }
}

} // verus!
