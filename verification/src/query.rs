//! The query service: the answer to a status query.

use vstd::prelude::*;
use vstd::string::*;
use crate::presence::{PresenceState, Status};

verus! {

/// The body of an answer: one field, the status as text.
#[derive(Debug)]
pub struct StatusResponse {
    pub status: String,
}

/// The text that stands for a status on the wire.
pub open spec fn spec_status_text(status: Status) -> Seq<char> {
    match status {
        Status::On => "on"@,
        Status::Off => "off"@,
    }
}

impl Status {
    /// `"on"` or `"off"`.
    pub fn as_str(&self) -> (text: &'static str)
        ensures
            text@ == spec_status_text(*self),
    {
        match self {
            Status::On => "on",
            Status::Off => "off",
        }
    }
}

impl PresenceState {
    /// Answers a query with one read of the store. The store is not changed.
    pub fn query(&self) -> (response: StatusResponse)
        ensures
            response.status@ == spec_status_text(self@.status),
    {
        let status = self.read();
        StatusResponse { status: status.as_str().to_string() }
    }
}

/// The two texts differ, so an answer tells the status.
pub proof fn lemma_status_text_tells_status(a: Status, b: Status)
    ensures
        spec_status_text(a) == spec_status_text(b) <==> a == b,
{
    reveal_strlit("on");
    reveal_strlit("off");
    assert("on"@.len() == 2);
    assert("off"@.len() == 3);
}

} // verus!
