use vstd::prelude::*;

verus! {

/// An event payload as the installed message handler sees it: either one
/// text frame or one binary frame.  Immutable once constructed.
#[derive(Debug, Clone, PartialEq, Eq)]
pub enum Message {
    Text(String),
    Binary(Vec<u8>),
}

/// An inbound payload as the transport shell hands it over, before
/// classification: the shell reports whether the platform event carried
/// bytes, a string, or something it does not recognize.
#[derive(Debug, Clone, PartialEq, Eq)]
pub enum RawPayload {
    Text(String),
    Binary(Vec<u8>),
    Unrecognized,
}

/// How a raw payload is translated: bytes become [`Message::Binary`], a
/// string becomes [`Message::Text`], and an unrecognized shape becomes
/// nothing at all (it is silently discarded, not treated as an error).
pub open spec fn spec_classify(p: RawPayload) -> Option<Message> {
    match p {
        RawPayload::Text(s) => Some(Message::Text(s)),
        RawPayload::Binary(b) => Some(Message::Binary(b)),
        RawPayload::Unrecognized => None,
    }
}

/// Translate a raw inbound payload into a [`Message`], or `None` for a
/// payload shape that is to be discarded.
pub fn classify(p: RawPayload) -> (m: Option<Message>)
    ensures
        m == spec_classify(p),
{
    match p {
        RawPayload::Text(s) => Some(Message::Text(s)),
        RawPayload::Binary(b) => Some(Message::Binary(b)),
        RawPayload::Unrecognized => None,
    }
}

} // verus!
