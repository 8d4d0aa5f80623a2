use vstd::prelude::*;

verus! {

/// A frame read from the broker, as the wire codec decoded it.
#[derive(Debug, Clone, PartialEq, Eq)]
pub enum Frame {
    Ping,
    Pong,
    TurnPush,
    TurnPull,
    /// A message published on a topic; the topic is still raw bytes.
    Msg { topic: Vec<u8>, payload: Vec<u8> },
    /// Any frame kind the session does not act on.
    Other,
}

/// Why the session turned down a request of the broker.
#[derive(Debug, Clone, Copy, PartialEq, Eq, Structural)]
pub enum Refusal {
    NoPush,
    NoPull,
}

impl Refusal {
    /// The reason sent to the broker in the error frame.
    pub fn text(&self) -> (r: &'static str)
        ensures
            *self == Refusal::NoPush ==> r@ == "Client not support push"@,
            *self == Refusal::NoPull ==> r@ == "Client not support pull"@,
    {
        proof {
            reveal_strlit("Client not support push");
            reveal_strlit("Client not support pull");
        }
        match self {
            Refusal::NoPush => "Client not support push",
            Refusal::NoPull => "Client not support pull",
        }
    }
}

/// A frame the session asks to have written to the broker.
#[derive(Debug, Clone, PartialEq, Eq)]
pub enum Outbound {
    Ping,
    /// Acknowledges a turn request.
    Accept,
    /// Declines a turn request, with the reason.
    Refuse(Refusal),
    Sub(String),
    Pub { topic: String, payload: Vec<u8> },
    /// Unsubscribes from every listed topic at once.
    UnSub(Vec<String>),
}

} // verus!
