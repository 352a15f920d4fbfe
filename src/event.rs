use vstd::prelude::*;

verus! {

/// A notification published on a channel: the channel's name, the payload
/// text, and the process identifier of the session that sent it.
#[derive(Debug, Clone, PartialEq, Eq)]
pub struct Notification {
    pub channel: String,
    pub payload: String,
    pub sender_id: i32,
}

/// An undecoded unit received from the session.
#[derive(Debug, Clone, PartialEq, Eq)]
pub enum RawMessage {
    /// A notification message, as the protocol delivered it.
    Notification(Notification),
    /// Any other asynchronous protocol message, kept as descriptive text.
    Other(String),
}

/// What the decoder makes of a raw message.
#[derive(Debug, Clone, PartialEq, Eq)]
pub enum DecodedEvent {
    /// A notification, fields kept exactly as received.
    Notification(Notification),
    /// A message that is not a notification; its text serves diagnostics only.
    Ignored(String),
}

/// A failure of the underlying session, carrying its description.
#[derive(Debug, Clone, PartialEq, Eq)]
pub struct TransportError {
    pub message: String,
}

impl TransportError {
    /// An equal error, for handing out while this one stays recorded.
    pub fn duplicate(&self) -> (r: TransportError)
        ensures
            r == *self,
    {
        TransportError { message: self.message.clone() }
    }
}

/// One outcome of polling the protocol source for its next message.
#[derive(Debug, Clone, PartialEq, Eq)]
pub enum SourceEvent {
    Message(RawMessage),
    Closed,
    Error(TransportError),
}

impl SourceEvent {
    /// The outcome of one completed poll: a message, a failure of the
    /// session, or (no message at all) a clean end of stream.
    pub fn from_poll(polled: Option<Result<RawMessage, TransportError>>) -> (r: SourceEvent)
        ensures
            r == (match polled {
                Some(Ok(raw)) => SourceEvent::Message(raw),
                Some(Err(e)) => SourceEvent::Error(e),
                None => SourceEvent::Closed,
            }),
    {
        match polled {
            Some(Ok(raw)) => SourceEvent::Message(raw),
            Some(Err(e)) => SourceEvent::Error(e),
            None => SourceEvent::Closed,
        }
    }
}

/// Classification of a raw message: notifications and only notifications
/// decode to a notification, unchanged.
pub open spec fn decode_spec(raw: RawMessage) -> DecodedEvent {
    match raw {
        RawMessage::Notification(n) => DecodedEvent::Notification(n),
        RawMessage::Other(text) => DecodedEvent::Ignored(text),
    }
}

/// Decodes a raw message. Total: every raw message decodes.
pub fn decode(raw: RawMessage) -> (r: DecodedEvent)
    ensures
        r == decode_spec(raw),
        r is Notification <==> raw is Notification,
{
    match raw {
        RawMessage::Notification(n) => DecodedEvent::Notification(n),
        RawMessage::Other(text) => DecodedEvent::Ignored(text),
    }
}

} // verus!
