use vstd::prelude::*;
use crate::handshake::{
    buffer_len_for, mode_of, offers, read_buffer_len, select_mode, HandShakeError, DEFAULT_MAX_TASK_TOTAL,
    SUPPORT_PULL, SUPPORT_PUSH, SUPPORT_TLS,
};
use crate::mode::Mode;

verus! {

/// Connection settings of a client, gathered before it connects.
#[derive(Debug, Clone, Copy)]
pub struct Builder<'a> {
    host: &'a str,
    port: u16,
    tls_option: Option<&'a str>,
    support: u16,
    max_message_total: Option<usize>,
}

/// The broker's greeting: protocol version, capability mask and the
/// largest message it will send.
#[derive(Debug, Clone, Copy, PartialEq, Eq, Structural)]
pub struct Info {
    pub version: u8,
    pub support: u16,
    pub max_message_length: u32,
}

/// The capabilities the client announces once the mode is settled.
#[derive(Debug, Clone, Copy, PartialEq, Eq, Structural)]
pub struct ClientConfig {
    pub push: bool,
    pub pull: bool,
}

/// The first frame the codec decoded from the broker.
#[derive(Debug, Clone, Copy, PartialEq, Eq)]
pub enum Greeting {
    Info(Info),
    /// Some other frame kind.
    Other,
}

/// What a successful negotiation settled.
#[derive(Debug, Clone, Copy)]
pub struct Negotiated<'a> {
    pub mode: Mode,
    /// Frame to send back to the broker.
    pub config: ClientConfig,
    /// The domain to upgrade the connection to TLS with, if it is upgraded.
    pub tls_domain: Option<&'a str>,
    pub max_message_length: u32,
    /// Size of the session's read buffer.
    pub read_buffer_len: usize,
    /// Capacity of each subscription's delivery queue.
    pub max_task_total: usize,
}

/// The outcome of one read during the handshake.
#[derive(Debug, Clone, Copy)]
pub enum HandshakeStep<'a> {
    /// No complete frame yet: read again.
    ReadMore,
    Failed(HandShakeError),
    Ready(Negotiated<'a>),
}

/// The domain to speak TLS with: the client asked for it and the broker
/// offers TLS.
pub fn select_tls<'a>(mask: u16, tls_option: Option<&'a str>) -> (r: Option<&'a str>)
    ensures
        r == (if offers(mask, SUPPORT_TLS) { tls_option } else { None::<&'a str> }),
{
    match tls_option {
        Some(domain) => {
            if mask & SUPPORT_TLS != 0 {
                Some(domain)
            } else {
                None
            }
        },
        None => None,
    }
}

impl<'a> Builder<'a> {
    pub closed spec fn spec_host(self) -> &'a str {
        self.host
    }

    pub closed spec fn spec_port(self) -> u16 {
        self.port
    }

    pub closed spec fn spec_tls_domain(self) -> Option<&'a str> {
        self.tls_option
    }

    pub closed spec fn spec_support(self) -> u16 {
        self.support
    }

    pub closed spec fn spec_max_message_total(self) -> Option<usize> {
        self.max_message_total
    }

    /// The capacity of each subscription's delivery queue.
    pub open spec fn spec_max_task_total(self) -> usize {
        match self.spec_max_message_total() {
            Some(n) => n,
            None => DEFAULT_MAX_TASK_TOTAL,
        }
    }

    pub fn new(host: &'a str, port: u16) -> (r: Builder<'a>)
        ensures
            r.spec_host() == host,
            r.spec_port() == port,
            r.spec_tls_domain() == None::<&'a str>,
            r.spec_support() == 0,
            r.spec_max_message_total() == None::<usize>,
    {
        Builder { host, port, tls_option: None, support: 0, max_message_total: None }
    }

    pub fn set_tls_domain(self, domain: &'a str) -> (r: Builder<'a>)
        ensures
            r.spec_host() == self.spec_host(),
            r.spec_port() == self.spec_port(),
            r.spec_tls_domain() == Some(domain),
            r.spec_support() == self.spec_support(),
            r.spec_max_message_total() == self.spec_max_message_total(),
    {
        Builder { tls_option: Some(domain), ..self }
    }

    pub fn support_push(self) -> (r: Builder<'a>)
        ensures
            r.spec_host() == self.spec_host(),
            r.spec_port() == self.spec_port(),
            r.spec_tls_domain() == self.spec_tls_domain(),
            r.spec_support() == self.spec_support() | SUPPORT_PUSH,
            r.spec_max_message_total() == self.spec_max_message_total(),
    {
        Builder { support: self.support | SUPPORT_PUSH, ..self }
    }

    pub fn support_pull(self) -> (r: Builder<'a>)
        ensures
            r.spec_host() == self.spec_host(),
            r.spec_port() == self.spec_port(),
            r.spec_tls_domain() == self.spec_tls_domain(),
            r.spec_support() == self.spec_support() | SUPPORT_PULL,
            r.spec_max_message_total() == self.spec_max_message_total(),
    {
        Builder { support: self.support | SUPPORT_PULL, ..self }
    }

    pub fn set_max_message_total(self, total: usize) -> (r: Builder<'a>)
        ensures
            r.spec_host() == self.spec_host(),
            r.spec_port() == self.spec_port(),
            r.spec_tls_domain() == self.spec_tls_domain(),
            r.spec_support() == self.spec_support(),
            r.spec_max_message_total() == Some(total),
    {
        Builder { max_message_total: Some(total), ..self }
    }

    pub fn host(&self) -> (r: &'a str)
        ensures
            r == self.spec_host(),
    {
        self.host
    }

    pub fn port(&self) -> (r: u16)
        ensures
            r == self.spec_port(),
    {
        self.port
    }

    pub fn tls_domain(&self) -> (r: Option<&'a str>)
        ensures
            r == self.spec_tls_domain(),
    {
        self.tls_option
    }

    pub fn support(&self) -> (r: u16)
        ensures
            r == self.spec_support(),
    {
        self.support
    }

    pub fn max_task_total(&self) -> (r: usize)
        ensures
            r == self.spec_max_task_total(),
    {
        match self.max_message_total {
            Some(n) => n,
            None => DEFAULT_MAX_TASK_TOTAL,
        }
    }

    /// What the broker's greeting settles: the mode, the configuration
    /// frame to answer with, whether to speak TLS and how large the read
    /// buffer is.
    pub open spec fn negotiated(self, info: Info) -> Result<Negotiated<'a>, HandShakeError> {
        match mode_of(info.support, self.spec_support()) {
            Err(e) => Err(e),
            Ok(m) => Ok(Negotiated {
                mode: m,
                config: ClientConfig { push: m.spec_can_push(), pull: m.spec_can_pull() },
                tls_domain: if offers(info.support, SUPPORT_TLS) {
                    self.spec_tls_domain()
                } else {
                    None
                },
                max_message_length: info.max_message_length,
                read_buffer_len: buffer_len_for(info.max_message_length),
                max_task_total: self.spec_max_task_total(),
            }),
        }
    }

    /// Settles the session from the broker's greeting.
    pub fn negotiate(&self, info: &Info) -> (r: Result<Negotiated<'a>, HandShakeError>)
        ensures
            r == self.negotiated(*info),
    {
        let mode = match select_mode(info.support, self.support) {
            Ok(m) => m,
            Err(e) => {
                return Err(e);
            },
        };
        let config = ClientConfig { push: mode.can_push(), pull: mode.can_pull() };
        Ok(Negotiated {
            mode,
            config,
            tls_domain: select_tls(info.support, self.tls_option),
            max_message_length: info.max_message_length,
            read_buffer_len: read_buffer_len(info.max_message_length),
            max_task_total: self.max_task_total(),
        })
    }

    /// One read of the handshake: `size` bytes came in and the codec decoded
    /// `first` from them, if anything. An empty read means the broker closed
    /// the connection; a first frame other than the greeting is a failure.
    pub fn on_greeting(&self, size: usize, first: Option<Greeting>) -> (r: HandshakeStep<'a>)
        ensures
            size == 0 ==> r == HandshakeStep::<'a>::Failed(HandShakeError::ConnectClose),
            size != 0 && first is None ==> r is ReadMore,
            size != 0 && first == Some(Greeting::Other) ==> r == HandshakeStep::<'a>::Failed(HandShakeError::Parse),
            size != 0 ==> forall|info: Info| first == Some(Greeting::Info(info)) ==> (
                match r {
                    HandshakeStep::Ready(n) => self.negotiated(info) == Ok::<Negotiated<'a>, HandShakeError>(n),
                    HandshakeStep::Failed(e) => self.negotiated(info) == Err::<Negotiated<'a>, HandShakeError>(e),
                    HandshakeStep::ReadMore => false,
                }),
    {
        if size == 0 {
            return HandshakeStep::Failed(HandShakeError::ConnectClose);
        }
        match first {
            None => HandshakeStep::ReadMore,
            Some(Greeting::Other) => HandshakeStep::Failed(HandShakeError::Parse),
            Some(Greeting::Info(info)) => match self.negotiate(&info) {
                Ok(n) => HandshakeStep::Ready(n),
                Err(e) => HandshakeStep::Failed(e),
            },
        }
    }
}

} // verus!
