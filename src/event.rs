use vstd::prelude::*;

verus! {

/// One tag record of an event: its values in order.
pub struct Tag {
    pub values: Vec<String>,
}

/// The event being judged.
pub struct Event {
    /// Category code.
    pub kind: u64,
    /// The self-declared author's public key.
    pub pubkey: Vec<u8>,
    /// Free text.
    pub content: String,
    /// Counted for the log; never part of the decision.
    pub tags: Vec<Tag>,
}

/// One admission request: the event, where it came from, and the author key
/// established by a stronger channel, if any.
pub struct AdmissionRequest {
    pub event: Option<Event>,
    pub origin: Option<String>,
    pub auth_pubkey: Option<Vec<u8>>,
}

/// The outcome of an admission.
#[derive(Clone, Copy, Debug, PartialEq, Eq, Structural)]
pub enum Decision {
    Permit,
    Deny,
}

/// What goes back to the caller: the decision and a short message.
pub struct AdmissionReply {
    pub decision: Decision,
    pub message: Option<String>,
}

/// Why no decision could be rendered.
#[derive(Clone, Copy, Debug, PartialEq, Eq, Structural)]
pub enum AdmitError {
    /// The request carries no event.
    InvalidRequest,
    /// A blacklist lookup failed.
    StoreUnavailable,
}

/// The message sent with a decision.
pub open spec fn message_of(d: Decision) -> Seq<char> {
    match d {
        Decision::Permit => "Ok"@,
        Decision::Deny => "Event denied"@,
    }
}

/// The key whose author is checked: the authenticated one when the request
/// has it, else the event's own.
pub open spec fn effective_author(auth_pubkey: Option<Seq<u8>>, pubkey: Seq<u8>) -> Seq<u8> {
    match auth_pubkey {
        Some(a) => a,
        None => pubkey,
    }
}

impl AdmissionReply {
    /// The reply for a decision. Which check denied is not told.
    pub fn for_decision(decision: Decision) -> (r: AdmissionReply)
        ensures
            r.decision == decision,
            r.message matches Some(m) && m@ == message_of(decision),
    {
        let m = match decision {
            Decision::Permit => "Ok".to_string(),
            Decision::Deny => "Event denied".to_string(),
        };
        AdmissionReply { decision, message: Some(m) }
    }
}

} // verus!
