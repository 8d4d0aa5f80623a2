use vstd::prelude::*;
use crate::mode::Mode;

verus! {

/// Capability bit: the peer can take pushed messages.
pub const SUPPORT_PUSH: u16 = 1;

/// Capability bit: the peer can pull messages.
pub const SUPPORT_PULL: u16 = 2;

/// Capability bit: the peer can speak TLS.
pub const SUPPORT_TLS: u16 = 4;

/// Size of the buffer the greeting is read into.
pub const GREETING_BUFFER_LEN: usize = 1024;

/// Smallest read buffer a session uses, whatever the broker declares.
pub const MIN_READ_BUFFER: usize = 1024;

/// Largest read buffer a session allocates, whatever the broker declares.
pub const MAX_READ_BUFFER: usize = 16777216;

/// Capacity of a subscription's delivery queue unless the caller sets one.
pub const DEFAULT_MAX_TASK_TOTAL: usize = 10;

/// Capacity of the queue that carries actions to the session.
pub const ACTION_QUEUE_CAPACITY: usize = 10;

/// Base keepalive interval of a session, in seconds.
pub const KEEPALIVE_SECS: u64 = 30;

/// A negotiation step that failed.
#[derive(Debug, Clone, Copy, PartialEq, Eq, Structural)]
pub enum HandShakeError {
    /// The connection closed before the broker's greeting arrived.
    ConnectClose,
    /// The broker's first frame was not its greeting.
    Parse,
    /// The client asked for neither push nor pull.
    ClientPushOrPull,
    /// The broker offers none of what the client asked for.
    ServerPushOrPull,
}

impl HandShakeError {
    /// A short description of the failure.
    pub fn message(&self) -> (r: &'static str)
        ensures
            *self == HandShakeError::ConnectClose ==> r@ == "tcp close"@,
            *self == HandShakeError::Parse ==> r@ == "handshake message parse error"@,
            *self == HandShakeError::ClientPushOrPull ==> r@ == "client not select push or pull"@,
            *self == HandShakeError::ServerPushOrPull ==> r@ == "server not select push or pull"@,
    {
        proof {
            reveal_strlit("tcp close");
            reveal_strlit("handshake message parse error");
            reveal_strlit("client not select push or pull");
            reveal_strlit("server not select push or pull");
        }
        match self {
            HandShakeError::ConnectClose => "tcp close",
            HandShakeError::Parse => "handshake message parse error",
            HandShakeError::ClientPushOrPull => "client not select push or pull",
            HandShakeError::ServerPushOrPull => "server not select push or pull",
        }
    }
}

/// Whether capability mask `m` holds `bit`.
pub open spec fn offers(m: u16, bit: u16) -> bool {
    m & bit != 0
}

proof fn lemma_and_bits(a: u16, b: u16)
    ensures
        ((a & b) & 1u16 != 0) == (a & 1u16 != 0 && b & 1u16 != 0),
        ((a & b) & 2u16 != 0) == (a & 2u16 != 0 && b & 2u16 != 0),
{
    assert(((a & b) & 1u16 != 0) == (a & 1u16 != 0 && b & 1u16 != 0)) by (bit_vector);
    assert(((a & b) & 2u16 != 0) == (a & 2u16 != 0 && b & 2u16 != 0)) by (bit_vector);
}

/// The mode of a session, from the broker's mask and the client's: what
/// both of them offer, push and pull apart.
pub open spec fn mode_of(mask: u16, support: u16) -> Result<Mode, HandShakeError> {
    let push = offers(mask, SUPPORT_PUSH) && offers(support, SUPPORT_PUSH);
    let pull = offers(mask, SUPPORT_PULL) && offers(support, SUPPORT_PULL);
    if !offers(support, SUPPORT_PUSH) && !offers(support, SUPPORT_PULL) {
        Err(HandShakeError::ClientPushOrPull)
    } else if push && pull {
        Ok(Mode::PushAndPull)
    } else if push {
        Ok(Mode::Push)
    } else if pull {
        Ok(Mode::Pull)
    } else {
        Err(HandShakeError::ServerPushOrPull)
    }
}

/// The read buffer size for the message length a broker declared, kept
/// within local bounds.
pub open spec fn buffer_len_for(max_message_length: u32) -> usize {
    if max_message_length < MIN_READ_BUFFER {
        MIN_READ_BUFFER
    } else if max_message_length > MAX_READ_BUFFER {
        MAX_READ_BUFFER
    } else {
        max_message_length as usize
    }
}

/// Negotiation over every pair of masks: both push and pull shared gives
/// `PushAndPull`, exactly one of them shared gives `Push` or `Pull`, nothing
/// shared by a client that asked for something is the broker's failure, and
/// a client that asked for neither fails on its own account.
pub proof fn lemma_mode_negotiation(mask: u16, support: u16)
    ensures
        ({
            let push = offers(mask, SUPPORT_PUSH) && offers(support, SUPPORT_PUSH);
            let pull = offers(mask, SUPPORT_PULL) && offers(support, SUPPORT_PULL);
            let asked = offers(support, SUPPORT_PUSH) || offers(support, SUPPORT_PULL);
            &&& mode_of(mask, support) == Ok::<Mode, HandShakeError>(Mode::PushAndPull) <==> push && pull
            &&& mode_of(mask, support) == Ok::<Mode, HandShakeError>(Mode::Push) <==> push && !pull
            &&& mode_of(mask, support) == Ok::<Mode, HandShakeError>(Mode::Pull) <==> pull && !push
            &&& mode_of(mask, support) == Err::<Mode, HandShakeError>(HandShakeError::ServerPushOrPull)
                <==> asked && !push && !pull
            &&& mode_of(mask, support) == Err::<Mode, HandShakeError>(HandShakeError::ClientPushOrPull)
                <==> !asked
            &&& mode_of(mask, support) matches Ok(m) ==> (m.spec_can_push() == push && m.spec_can_pull() == pull)
        }),
{
}

pub fn select_mode(mask: u16, support: u16) -> (r: Result<Mode, HandShakeError>)
    ensures
        r == mode_of(mask, support),
{
    if support & SUPPORT_PUSH == 0 && support & SUPPORT_PULL == 0 {
        return Err(HandShakeError::ClientPushOrPull);
    }
    let both = mask & support;
    proof {
        lemma_and_bits(mask, support);
    }
    if both & SUPPORT_PUSH != 0 && both & SUPPORT_PULL != 0 {
        Ok(Mode::PushAndPull)
    } else if both & SUPPORT_PUSH != 0 {
        Ok(Mode::Push)
    } else if both & SUPPORT_PULL != 0 {
        Ok(Mode::Pull)
    } else {
        Err(HandShakeError::ServerPushOrPull)
    }
}

/// The size of the session's read buffer for the message length the broker
/// declared.
pub fn read_buffer_len(max_message_length: u32) -> (r: usize)
    ensures
        r == buffer_len_for(max_message_length),
{
    if (max_message_length as u64) < (MIN_READ_BUFFER as u64) {
        MIN_READ_BUFFER
    } else if (max_message_length as u64) > (MAX_READ_BUFFER as u64) {
        MAX_READ_BUFFER
    } else {
        max_message_length as usize
    }
}

} // verus!
