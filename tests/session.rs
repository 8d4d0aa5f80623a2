use pubsub_client::handshake::{SUPPORT_PULL, SUPPORT_PUSH};
use pubsub_client::{
    Action, Builder, ClientConfig, Effect, Frame, Greeting, HandshakeStep, Info, Keepalive, Mode,
    Outbound, Refusal, RouteTable, Session,
};

fn msg(topic: &str, payload: &[u8]) -> Frame {
    Frame::Msg { topic: topic.as_bytes().to_vec(), payload: payload.to_vec() }
}

fn subscribe(session: &mut Session, writes: &mut Vec<Outbound>, topic: &str, sink: u64) {
    let action = Action::Subscribe { topic: topic.to_string(), sink };
    writes.push(action.frame());
    session.on_action_done(action);
}

#[test]
fn keepalive_grows_and_caps() {
    let mut k = Keepalive::new(30);
    let mut waits = vec![k.wait_secs()];
    for _ in 0..7 {
        k.delay();
        waits.push(k.wait_secs());
    }
    assert_eq!(waits, vec![30, 40, 50, 60, 70, 80, 80, 80]);
    assert_eq!(k.missed(), 5);
    k.reset();
    assert_eq!(k.wait_secs(), 30);
    assert_eq!(k.missed(), 0);
    assert_eq!(k.base_interval(), 30);
}

#[test]
fn pong_resets_the_timer() {
    let mut s = Session::new(Mode::PushAndPull);
    assert_eq!(s.wait_secs(), 30);
    assert_eq!(s.on_timer(), Outbound::Ping);
    assert_eq!(s.on_timer(), Outbound::Ping);
    assert_eq!(s.wait_secs(), 50);
    assert_eq!(s.on_frame(Frame::Ping), Effect::Nothing);
    assert_eq!(s.wait_secs(), 50);
    assert_eq!(s.on_frame(Frame::Pong), Effect::RestartTimer);
    assert_eq!(s.wait_secs(), 30);
}

#[test]
fn timer_never_exceeds_fifty_extra_seconds() {
    let mut s = Session::with_interval(Mode::Push, 5);
    let mut last = s.wait_secs();
    for _ in 0..20 {
        s.on_timer();
        let now = s.wait_secs();
        assert!(now >= last);
        assert!(now <= 55);
        last = now;
    }
    assert_eq!(last, 55);
}

#[test]
fn turn_requests_follow_the_mode() {
    let mut push = Session::new(Mode::Push);
    assert_eq!(push.on_frame(Frame::TurnPush), Effect::Send(Outbound::Accept));
    assert_eq!(push.on_frame(Frame::TurnPull), Effect::Send(Outbound::Refuse(Refusal::NoPull)));
    let mut pull = Session::new(Mode::Pull);
    assert_eq!(pull.on_frame(Frame::TurnPush), Effect::Send(Outbound::Refuse(Refusal::NoPush)));
    assert_eq!(pull.on_frame(Frame::TurnPull), Effect::Send(Outbound::Accept));
    let mut both = Session::new(Mode::PushAndPull);
    assert_eq!(both.on_frame(Frame::TurnPush), Effect::Send(Outbound::Accept));
    assert_eq!(both.on_frame(Frame::TurnPull), Effect::Send(Outbound::Accept));
    assert_eq!(both.on_frame(Frame::Other), Effect::Nothing);
}

#[test]
fn refusal_texts() {
    assert_eq!(Refusal::NoPush.text(), "Client not support push");
    assert_eq!(Refusal::NoPull.text(), "Client not support pull");
}

#[test]
fn message_is_delivered_to_its_sink() {
    let mut s = Session::new(Mode::PushAndPull);
    let mut writes = Vec::new();
    subscribe(&mut s, &mut writes, "news", 7);
    assert_eq!(
        s.on_frame(msg("news", b"hi")),
        Effect::Deliver { topic: "news".to_string(), sink: 7, payload: b"hi".to_vec() }
    );
    assert_eq!(s.on_frame(msg("other", b"hi")), Effect::Nothing);
}

#[test]
fn invalid_utf8_topic_is_dropped() {
    let mut s = Session::new(Mode::PushAndPull);
    let mut writes = Vec::new();
    subscribe(&mut s, &mut writes, "news", 7);
    let bad = Frame::Msg { topic: vec![0xff, 0xfe], payload: vec![1] };
    assert_eq!(s.on_frame(bad), Effect::Nothing);
    assert_eq!(s.subscribed(), 1);
}

#[test]
fn route_message_takes_the_decoded_topic() {
    let mut s = Session::new(Mode::Pull);
    s.on_action_done(Action::Subscribe { topic: "a".to_string(), sink: 3 });
    assert_eq!(
        s.route_message(Some("a".to_string()), vec![9]),
        Effect::Deliver { topic: "a".to_string(), sink: 3, payload: vec![9] }
    );
    assert_eq!(s.route_message(Some("b".to_string()), vec![9]), Effect::Nothing);
    assert_eq!(s.route_message(None, vec![9]), Effect::Nothing);
}

#[test]
fn last_subscribe_wins() {
    let mut s = Session::new(Mode::Pull);
    s.on_action_done(Action::Subscribe { topic: "a".to_string(), sink: 1 });
    s.on_action_done(Action::Subscribe { topic: "a".to_string(), sink: 2 });
    assert_eq!(s.subscribed(), 1);
    assert_eq!(s.route(&"a".to_string()), Some(2));
}

#[test]
fn failed_delivery_heals_the_table() {
    let mut s = Session::new(Mode::PushAndPull);
    s.on_action_done(Action::Subscribe { topic: "gone".to_string(), sink: 4 });
    s.on_action_done(Action::Subscribe { topic: "kept".to_string(), sink: 5 });
    for _ in 0..3 {
        if let Effect::Deliver { topic, .. } = s.on_frame(msg("gone", b"x")) {
            s.on_delivery_failed(&topic);
        }
    }
    assert_eq!(s.route(&"gone".to_string()), None);
    assert_eq!(s.on_frame(msg("gone", b"x")), Effect::Nothing);
    assert_eq!(s.route(&"kept".to_string()), Some(5));
    assert_eq!(s.subscribed(), 1);
}

#[test]
fn actions_are_written_in_order() {
    let mut s = Session::new(Mode::PushAndPull);
    let mut writes = Vec::new();
    let actions = vec![
        Action::Subscribe { topic: "A".to_string(), sink: 1 },
        Action::Publish { topic: "B".to_string(), payload: vec![1, 2] },
        Action::Subscribe { topic: "C".to_string(), sink: 2 },
    ];
    for action in actions {
        writes.push(action.frame());
        s.on_action_done(action);
    }
    assert_eq!(
        writes,
        vec![
            Outbound::Sub("A".to_string()),
            Outbound::Pub { topic: "B".to_string(), payload: vec![1, 2] },
            Outbound::Sub("C".to_string()),
        ]
    );
    assert_eq!(s.route(&"A".to_string()), Some(1));
    assert_eq!(s.route(&"C".to_string()), Some(2));
    assert_eq!(s.route(&"B".to_string()), None);
}

#[test]
fn shutdown_unsubscribes_every_topic() {
    let mut s = Session::new(Mode::PushAndPull);
    s.on_action_done(Action::Subscribe { topic: "x".to_string(), sink: 1 });
    s.on_action_done(Action::Subscribe { topic: "y".to_string(), sink: 2 });
    match s.shutdown_frame() {
        Outbound::UnSub(mut topics) => {
            topics.sort();
            assert_eq!(topics, vec!["x".to_string(), "y".to_string()]);
        }
        other => panic!("unexpected frame {:?}", other),
    }
}

#[test]
fn shutdown_without_topics_is_empty() {
    let s = Session::new(Mode::Push);
    assert_eq!(s.shutdown_frame(), Outbound::UnSub(Vec::new()));
}

#[test]
fn route_table_basics() {
    let mut t = RouteTable::new();
    assert_eq!(t.len(), 0);
    t.insert("a".to_string(), 1);
    t.insert("b".to_string(), 2);
    t.insert("a".to_string(), 3);
    assert_eq!(t.len(), 2);
    assert_eq!(t.get(&"a".to_string()), Some(3));
    t.remove(&"a".to_string());
    t.remove(&"zzz".to_string());
    assert_eq!(t.get(&"a".to_string()), None);
    assert_eq!(t.topics(), vec!["b".to_string()]);
}

#[test]
fn end_to_end_session() {
    let builder = Builder::new("127.0.0.1", 4000).support_push().support_pull();
    let info = Info { version: 1, support: SUPPORT_PUSH | SUPPORT_PULL, max_message_length: 4096 };
    let negotiated = match builder.on_greeting(16, Some(Greeting::Info(info))) {
        HandshakeStep::Ready(n) => n,
        _ => panic!("handshake did not complete"),
    };
    assert_eq!(negotiated.mode, Mode::PushAndPull);
    assert_eq!(negotiated.config, ClientConfig { push: true, pull: true });
    assert_eq!(negotiated.tls_domain, None);
    assert_eq!(negotiated.read_buffer_len, 4096);

    let mut s = Session::new(negotiated.mode);
    assert_eq!(s.on_frame(msg("t1", &[1, 2, 3])), Effect::Nothing);

    let mut writes = Vec::new();
    subscribe(&mut s, &mut writes, "t1", 0);
    assert_eq!(writes, vec![Outbound::Sub("t1".to_string())]);

    let mut delivered = Vec::new();
    if let Effect::Deliver { sink, payload, .. } = s.on_frame(msg("t1", &[1, 2, 3])) {
        delivered.push((sink, payload));
    }
    assert_eq!(delivered, vec![(0, vec![1, 2, 3])]);
}
