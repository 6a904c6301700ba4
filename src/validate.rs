//! Which calls buy a raffle ticket.

use vstd::prelude::*;

use crate::types::{call_id, fingerprint, same_call_id, CallId};

verus! {

/// Decides whether an encoded call may be played for a ticket, given the
/// identifiers of the calls that the manager allowed.
pub trait ValidateCall {
    /// Whether the policy accepts `encoded` under the allowed identifiers.
    spec fn accepts(&self, encoded: Seq<u8>, allowed: Seq<CallId>) -> bool;

    /// Whether the policy accepts `encoded_call`. An accepted call has an
    /// identifier: it is at least two bytes long.
    fn validate_call(&self, encoded_call: &Vec<u8>, allowed: &Vec<CallId>) -> (r: bool)
        ensures
            r == self.accepts(encoded_call@, allowed@),
            r ==> encoded_call@.len() >= 2,
    ;
}

/// The policy that accepts no call.
#[derive(Clone, Copy, Debug, PartialEq, Eq, Default)]
pub struct RejectAll;

impl ValidateCall for RejectAll {
    open spec fn accepts(&self, encoded: Seq<u8>, allowed: Seq<CallId>) -> bool {
        false
    }

    fn validate_call(&self, encoded_call: &Vec<u8>, allowed: &Vec<CallId>) -> (r: bool) {
        false
    }
}

/// The policy that accepts a call whose identifier the manager allowed.
#[derive(Clone, Copy, Debug, PartialEq, Eq, Default)]
pub struct AllowList;

impl ValidateCall for AllowList {
    open spec fn accepts(&self, encoded: Seq<u8>, allowed: Seq<CallId>) -> bool {
        encoded.len() >= 2 && allowed.contains(fingerprint(encoded))
    }

    fn validate_call(&self, encoded_call: &Vec<u8>, allowed: &Vec<CallId>) -> (r: bool) {
        let id = match call_id(encoded_call) {
            Ok(id) => id,
            Err(_) => return false,
        };
        let mut i: usize = 0;
        while i < allowed.len()
            invariant
                i <= allowed@.len(),
                encoded_call@.len() >= 2,
                id == fingerprint(encoded_call@),
                forall|j: int| 0 <= j < i ==> allowed@[j] != id,
            decreases allowed@.len() - i,
        {
            if same_call_id(allowed[i], id) {
                assert(allowed@.contains(id));
                return true;
            }
            i = i + 1;
        }
        false
    }
}

} // verus!
