//! The two request-scoped value shapes exchanged with the caller, and the
//! fixed liveness text.

use vstd::prelude::*;
use vstd::string::StringExecFns;

verus! {

/// What the caller sends: one chat message.
pub struct InboundMessage {
    pub message: String,
}

impl View for InboundMessage {
    type V = Seq<char>;

    open spec fn view(&self) -> Seq<char> {
        self.message@
    }
}

/// What the caller receives on success: one reply text.
pub struct OutboundReply {
    pub response: String,
}

impl View for OutboundReply {
    type V = Seq<char>;

    open spec fn view(&self) -> Seq<char> {
        self.response@
    }
}

/// The fixed plain-text liveness string served at the root route.
pub open spec fn spec_liveness() -> Seq<char> {
    "Pink Code Rust Server is running and ready for chat!"@
}

pub fn liveness_text() -> (s: String)
    ensures
        s@ == spec_liveness(),
{
    String::from_str("Pink Code Rust Server is running and ready for chat!")
}

} // verus!
