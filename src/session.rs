use vstd::prelude::*;
use crate::frame::{Frame, Outbound, Refusal};
use crate::handshake::KEEPALIVE_SECS;
use crate::keepalive::{Keepalive, MAX_BASE_INTERVAL, MAX_MISSED};
use crate::mode::Mode;
use crate::routes::RouteTable;

verus! {

/// The text a byte string decodes to as UTF-8, or `None` where it is not
/// valid UTF-8.
pub uninterp spec fn utf8_text(b: Seq<u8>) -> Option<Seq<char>>;

/// Relies on `String::from_utf8`: it succeeds exactly on valid UTF-8 and
/// then holds the decoded text.
#[verifier::external_body]
fn decode_topic(b: Vec<u8>) -> (r: Option<String>)
    ensures
        match r {
            Some(s) => utf8_text(b@) == Some(s@),
            None => utf8_text(b@) is None,
        },
{
    String::from_utf8(b).ok()
}

/// A request of the application, carried to the session in order.
#[derive(Debug)]
pub enum Action {
    /// Route `topic` to the delivery sink `sink`.
    Subscribe { topic: String, sink: u64 },
    Publish { topic: String, payload: Vec<u8> },
}

/// What the session asks its driver to do after an event.
#[derive(Debug, PartialEq, Eq)]
pub enum Effect {
    Nothing,
    /// The broker answered: start the keepalive countdown afresh, from
    /// `wait_secs`.
    RestartTimer,
    /// Write this frame to the broker.
    Send(Outbound),
    /// Hand `payload` to the delivery sink `sink` of `topic`, without
    /// waiting; report a failure with `on_delivery_failed`.
    Deliver { topic: String, sink: u64, payload: Vec<u8> },
}

/// Whether `o` is the frame that carries `a` to the broker.
pub open spec fn frame_of(a: Action, o: Outbound) -> bool {
    match a {
        Action::Subscribe { topic, sink } => o matches Outbound::Sub(t) && t@ == topic@,
        Action::Publish { topic, payload } => o matches Outbound::Pub { topic: t, payload: p }
            && t@ == topic@ && p@ == payload@,
    }
}

/// The routing table once action `a` has been carried out.
pub open spec fn routes_after(m: Map<Seq<char>, u64>, a: Action) -> Map<Seq<char>, u64> {
    match a {
        Action::Subscribe { topic, sink } => m.insert(topic@, sink),
        Action::Publish { .. } => m,
    }
}

/// Whether `r` is the effect of a message on `topic` (its decoded text, if
/// it decoded) carrying `payload`, under the routing table `m`: delivery to
/// the routed sink, or nothing where no route exists.
pub open spec fn message_effect(m: Map<Seq<char>, u64>, topic: Option<Seq<char>>, payload: Seq<u8>, r: Effect) -> bool {
    match topic {
        Some(t) => if m.contains_key(t) {
            r matches Effect::Deliver { topic: rt, sink, payload: p } && rt@ == t && sink == m[t] && p@ == payload
        } else {
            r is Nothing
        },
        None => r is Nothing,
    }
}

impl Action {
    /// The frame that carries this action to the broker.
    pub fn frame(&self) -> (r: Outbound)
        ensures
            frame_of(*self, r),
    {
        match self {
            Action::Subscribe { topic, .. } => Outbound::Sub(topic.clone()),
            Action::Publish { topic, payload } => Outbound::Pub { topic: topic.clone(), payload: payload.clone() },
        }
    }
}

/// The state of one broker session: its mode, keepalive timer and routing
/// table.
pub struct Session {
    mode: Mode,
    keepalive: Keepalive,
    routes: RouteTable,
}

impl Session {
    pub closed spec fn spec_mode(&self) -> Mode {
        self.mode
    }

    pub closed spec fn spec_keepalive(&self) -> Keepalive {
        self.keepalive
    }

    pub closed spec fn spec_routes(&self) -> Map<Seq<char>, u64> {
        self.routes@
    }

    pub closed spec fn wf(&self) -> bool {
        self.keepalive.wf() && self.routes.wf()
    }

    /// A session in `mode` with the standard keepalive interval and no
    /// subscriptions.
    pub fn new(mode: Mode) -> (r: Session)
        ensures
            r.wf(),
            r.spec_mode() == mode,
            r.spec_keepalive().base() == KEEPALIVE_SECS,
            r.spec_keepalive().missed_count() == 0,
            r.spec_routes() == Map::<Seq<char>, u64>::empty(),
    {
        Session::with_interval(mode, KEEPALIVE_SECS)
    }

    /// A session in `mode` pinging every `base_interval` seconds while the
    /// broker answers.
    pub fn with_interval(mode: Mode, base_interval: u64) -> (r: Session)
        requires
            base_interval <= MAX_BASE_INTERVAL,
        ensures
            r.wf(),
            r.spec_mode() == mode,
            r.spec_keepalive().base() == base_interval,
            r.spec_keepalive().missed_count() == 0,
            r.spec_routes() == Map::<Seq<char>, u64>::empty(),
    {
        Session { mode, keepalive: Keepalive::new(base_interval), routes: RouteTable::new() }
    }

    pub fn mode(&self) -> (r: Mode)
        ensures
            r == self.spec_mode(),
    {
        self.mode
    }

    /// Seconds until the next ping is due.
    pub fn wait_secs(&self) -> (r: u64)
        requires
            self.wf(),
        ensures
            r == self.spec_keepalive().wait(),
    {
        self.keepalive.wait_secs()
    }

    /// The sink routed for `topic`, if it is subscribed.
    pub fn route(&self, topic: &String) -> (r: Option<u64>)
        requires
            self.wf(),
        ensures
            r == (if self.spec_routes().contains_key(topic@) {
                Some(self.spec_routes()[topic@])
            } else {
                None::<u64>
            }),
    {
        self.routes.get(topic)
    }

    /// Number of subscribed topics.
    pub fn subscribed(&self) -> (r: usize)
        requires
            self.wf(),
        ensures
            r == self.spec_routes().dom().len(),
    {
        self.routes.len()
    }

    /// The effect of a message whose topic decoded to `topic` (or failed to
    /// decode) carrying `payload`.
    pub fn route_message(&self, topic: Option<String>, payload: Vec<u8>) -> (r: Effect)
        requires
            self.wf(),
        ensures
            message_effect(
                self.spec_routes(),
                match topic {
                    Some(t) => Some(t@),
                    None => None::<Seq<char>>,
                },
                payload@,
                r,
            ),
    {
        match topic {
            Some(t) => match self.routes.get(&t) {
                Some(sink) => Effect::Deliver { topic: t, sink, payload },
                None => Effect::Nothing,
            },
            None => Effect::Nothing,
        }
    }

    /// Handles one frame from the broker.
    pub fn on_frame(&mut self, frame: Frame) -> (r: Effect)
        requires
            old(self).wf(),
        ensures
            final(self).wf(),
            final(self).spec_mode() == old(self).spec_mode(),
            final(self).spec_routes() == old(self).spec_routes(),
            final(self).spec_keepalive() == (if frame is Pong {
                old(self).spec_keepalive().refreshed()
            } else {
                old(self).spec_keepalive()
            }),
            final(self).spec_keepalive().base() == old(self).spec_keepalive().base(),
            frame is Pong ==> final(self).spec_keepalive().missed_count() == 0,
            frame is Ping || frame is Other ==> r is Nothing,
            frame is Pong ==> r is RestartTimer,
            frame is TurnPush ==> r == Effect::Send(
                if old(self).spec_mode().spec_can_push() { Outbound::Accept } else { Outbound::Refuse(Refusal::NoPush) },
            ),
            frame is TurnPull ==> r == Effect::Send(
                if old(self).spec_mode().spec_can_pull() { Outbound::Accept } else { Outbound::Refuse(Refusal::NoPull) },
            ),
            frame matches Frame::Msg { topic, payload } ==> message_effect(
                old(self).spec_routes(),
                utf8_text(topic@),
                payload@,
                r,
            ),
    {
        match frame {
            Frame::Ping => Effect::Nothing,
            Frame::Pong => {
                self.keepalive.reset();
                Effect::RestartTimer
            },
            Frame::TurnPush => {
                if self.mode.can_push() {
                    Effect::Send(Outbound::Accept)
                } else {
                    Effect::Send(Outbound::Refuse(Refusal::NoPush))
                }
            },
            Frame::TurnPull => {
                if self.mode.can_pull() {
                    Effect::Send(Outbound::Accept)
                } else {
                    Effect::Send(Outbound::Refuse(Refusal::NoPull))
                }
            },
            Frame::Msg { topic, payload } => {
                let text = decode_topic(topic);
                self.route_message(text, payload)
            },
            Frame::Other => Effect::Nothing,
        }
    }

    /// A delivery to the sink of `topic` failed: its receiver is gone or
    /// full. The topic leaves the routing table.
    pub fn on_delivery_failed(&mut self, topic: &String)
        requires
            old(self).wf(),
        ensures
            final(self).wf(),
            final(self).spec_mode() == old(self).spec_mode(),
            final(self).spec_keepalive() == old(self).spec_keepalive(),
            final(self).spec_routes() == old(self).spec_routes().remove(topic@),
    {
        self.routes.remove(topic);
    }

    /// Action `action` was written to the broker: a subscription now routes
    /// its topic, replacing an earlier route of the topic.
    pub fn on_action_done(&mut self, action: Action)
        requires
            old(self).wf(),
        ensures
            final(self).wf(),
            final(self).spec_mode() == old(self).spec_mode(),
            final(self).spec_keepalive() == old(self).spec_keepalive(),
            final(self).spec_routes() == routes_after(old(self).spec_routes(), action),
    {
        match action {
            Action::Subscribe { topic, sink } => self.routes.insert(topic, sink),
            Action::Publish { .. } => {},
        }
    }

    /// The keepalive timer fired: a ping goes out, and until the broker
    /// answers the next wait is longer.
    pub fn on_timer(&mut self) -> (r: Outbound)
        requires
            old(self).wf(),
        ensures
            final(self).wf(),
            r == Outbound::Ping,
            final(self).spec_mode() == old(self).spec_mode(),
            final(self).spec_routes() == old(self).spec_routes(),
            final(self).spec_keepalive() == old(self).spec_keepalive().delayed(),
            final(self).spec_keepalive().base() == old(self).spec_keepalive().base(),
            final(self).spec_keepalive().missed_count() == if old(self).spec_keepalive().missed_count() < MAX_MISSED {
                old(self).spec_keepalive().missed_count() + 1
            } else {
                old(self).spec_keepalive().missed_count()
            },
    {
        self.keepalive.delay();
        Outbound::Ping
    }

    /// The frame that unsubscribes from every routed topic, sent once when
    /// the session ends.
    pub fn shutdown_frame(&self) -> (r: Outbound)
        requires
            self.wf(),
        ensures
            match r {
                Outbound::UnSub(ts) => {
                    &&& forall|i: int| 0 <= i < ts@.len() ==> self.spec_routes().contains_key(#[trigger] ts@[i]@)
                    &&& forall|t: Seq<char>| #[trigger] self.spec_routes().contains_key(t)
                        ==> exists|i: int| 0 <= i < ts@.len() && #[trigger] ts@[i]@ == t
                    &&& forall|i: int, j: int| 0 <= i < ts@.len() && 0 <= j < ts@.len() && i != j
                        ==> #[trigger] ts@[i]@ != #[trigger] ts@[j]@
                },
                _ => false,
            },
    {
        Outbound::UnSub(self.routes.topics())
    }
}

/// Once a delivery to `t` has failed, `t` is no longer routed, further
/// failures leave the table as it is, and a later message on `t` has no
/// effect at all: it is dropped, not an error.
pub proof fn lemma_failed_topic_dropped(m: Map<Seq<char>, u64>, t: Seq<char>, payload: Seq<u8>, r: Effect)
    ensures
        !m.remove(t).contains_key(t),
        m.remove(t).remove(t) == m.remove(t),
        forall|u: Seq<char>| u != t ==> (#[trigger] m.remove(t).contains_key(u) <==> m.contains_key(u)),
        message_effect(m.remove(t), Some(t), payload, r) <==> r is Nothing,
{
    assert(m.remove(t).remove(t) =~= m.remove(t));
}

/// Actions take effect in the order they were issued: for a subscription
/// to `a`, a publication and a subscription to `c`, each is carried by its
/// own frame, the publication leaves the routes alone, `c` routes to its
/// sink, and `a` keeps its sink unless `c` is the same topic.
pub proof fn lemma_action_order(
    m: Map<Seq<char>, u64>,
    a: Action,
    b: Action,
    c: Action,
    fa: Outbound,
    fb: Outbound,
    fc: Outbound,
)
    requires
        a is Subscribe,
        b is Publish,
        c is Subscribe,
        frame_of(a, fa),
        frame_of(b, fb),
        frame_of(c, fc),
    ensures
        fa matches Outbound::Sub(t) && t@ == a->Subscribe_topic@,
        fb matches Outbound::Pub { topic, payload } && topic@ == b->Publish_topic@ && payload@ == b->Publish_payload@,
        fc matches Outbound::Sub(t) && t@ == c->Subscribe_topic@,
        routes_after(routes_after(m, a), b) == routes_after(m, a),
        ({
            let end = routes_after(routes_after(routes_after(m, a), b), c);
            &&& end.contains_key(a->Subscribe_topic@)
            &&& end[c->Subscribe_topic@] == c->Subscribe_sink
            &&& a->Subscribe_topic@ != c->Subscribe_topic@ ==> end[a->Subscribe_topic@] == a->Subscribe_sink
        }),
{
}

} // verus!
