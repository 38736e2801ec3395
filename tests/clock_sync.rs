use plantangenet::clock::{
    handle_tick, read_clock, update_clock, ClockState, HandleError, SharedClockState,
};
use plantangenet::codec::encode_value;
use plantangenet::listener::{
    listener_start, listener_step, ConnectError, ListenerAction, ListenerEvent, ListenerState,
};
use plantangenet::json::{parse_json, Json, Num};
use plantangenet::tick::{decode, decode_value, AccumulatorData, DecodeError, Field, TickMessage};
use std::time::Instant;

const EXAMPLE: &str = r#"{"id":"a","short_id":"a1","event_type":"tick","stamp":12.5,"interval":0.1,"paused":false,"stepping":false,"start_time":0,"namespace":"ns","backpressure":false,"wall_time":[],"transport":[],"connected":true,"accumulators":{}}"#;

fn float(x: f64) -> Num {
    Num::Float(x.to_bits())
}

fn tick(stamp: &str, paused: bool) -> String {
    EXAMPLE
        .replace("\"stamp\":12.5", &format!("\"stamp\":{}", stamp))
        .replace("\"paused\":false", &format!("\"paused\":{}", paused))
}

fn without(key: &str) -> String {
    let v: Vec<&str> = EXAMPLE[1..EXAMPLE.len() - 1].split(",\"").collect();
    let kept: Vec<String> = v
        .iter()
        .map(|p| p.trim_start_matches('"').to_string())
        .filter(|p| !p.starts_with(&format!("{}\"", key)))
        .map(|p| format!("\"{}", p))
        .collect();
    format!("{{{}}}", kept.join(","))
}

#[test]
fn example_payload_decodes_and_updates_store() {
    let m = decode(EXAMPLE.as_bytes()).unwrap();
    assert_eq!(m.id, "a");
    assert_eq!(m.short_id, "a1");
    assert_eq!(m.event_type, "tick");
    assert_eq!(m.stamp, float(12.5));
    assert_eq!(m.interval, float(0.1));
    assert_eq!(m.start_time, Num::PosInt(0));
    assert_eq!(m.namespace, "ns");
    assert!(!m.paused && !m.stepping && !m.backpressure && m.connected);
    assert!(m.wall_time.is_empty() && m.transport.is_empty() && m.accumulators.is_empty());
    assert_eq!(m.current_choice, None);
    assert_eq!(m.disposition, None);

    let store = SharedClockState::new();
    assert!(handle_tick(EXAMPLE.as_bytes(), &store).is_ok());
    let s = read_clock(&store).unwrap();
    assert_eq!(s.stamp, float(12.5));
    assert!(!s.paused);
    assert!(s.last_update.is_some());
}

#[test]
fn new_store_holds_defaults() {
    let store = SharedClockState::new();
    let s = read_clock(&store).unwrap();
    assert_eq!(s.stamp, float(0.0));
    assert!(!s.paused);
    assert!(s.last_update.is_none());
}

#[test]
fn handled_tick_sets_stamp_pause_and_time() {
    let store = SharedClockState::new();
    let before = Instant::now();
    assert!(handle_tick(tick("3.25", true).as_bytes(), &store).is_ok());
    let s = read_clock(&store).unwrap();
    assert_eq!(s.stamp, float(3.25));
    assert!(s.paused);
    assert!(s.last_update.unwrap() >= before);
}

#[test]
fn last_tick_wins() {
    let store = SharedClockState::new();
    assert!(handle_tick(tick("1.0", false).as_bytes(), &store).is_ok());
    assert!(handle_tick(tick("2.0", true).as_bytes(), &store).is_ok());
    let s = read_clock(&store).unwrap();
    assert_eq!(s.stamp, float(2.0));
    assert!(s.paused);
}

#[test]
fn last_tick_wins_on_owned_state() {
    let mut s = ClockState::default();
    let t = Instant::now();
    assert_eq!(s.apply_tick(tick("1.0", false).as_bytes(), t), Ok(()));
    assert_eq!(s.apply_tick(tick("2.0", true).as_bytes(), t), Ok(()));
    assert_eq!(s.stamp, float(2.0));
    assert!(s.paused);
    assert_eq!(s.last_update, Some(t));
}

#[test]
fn malformed_tick_between_two_valid_ones() {
    let store = SharedClockState::new();
    assert!(handle_tick(tick("1.0", false).as_bytes(), &store).is_ok());
    let first = read_clock(&store).unwrap();
    assert_eq!(
        handle_tick(b"{\"id\":", &store).unwrap_err(),
        HandleError::Decode(DecodeError::Syntax)
    );
    let mid = read_clock(&store).unwrap();
    assert_eq!(mid.stamp, float(1.0));
    assert!(!mid.paused);
    assert_eq!(mid.last_update, first.last_update);
    assert!(handle_tick(tick("2.0", true).as_bytes(), &store).is_ok());
    let last = read_clock(&store).unwrap();
    assert_eq!(last.stamp, float(2.0));
    assert!(last.paused);
}

#[test]
fn malformed_tick_leaves_owned_state_alone() {
    let mut s = ClockState::default();
    let t = Instant::now();
    assert_eq!(s.apply_tick(tick("1.0", false).as_bytes(), t), Ok(()));
    let r = s.apply_tick(without("stamp").as_bytes(), Instant::now());
    assert_eq!(r, Err(HandleError::Decode(DecodeError::Missing(Field::Stamp))));
    assert_eq!(s.stamp, float(1.0));
    assert_eq!(s.last_update, Some(t));
}

#[test]
fn reads_never_mix_two_writes() {
    let store = SharedClockState::new();
    for k in 0..200u64 {
        update_clock(&store, Num::PosInt(k), k % 2 == 1);
        for _ in 0..3 {
            let s = read_clock(&store).unwrap();
            assert_eq!(s.stamp, Num::PosInt(k));
            assert_eq!(s.paused, k % 2 == 1);
        }
    }
}

#[test]
fn each_missing_required_field_is_reported() {
    let required = [
        ("id", Field::Id),
        ("short_id", Field::ShortId),
        ("event_type", Field::EventType),
        ("stamp", Field::Stamp),
        ("interval", Field::Interval),
        ("paused", Field::Paused),
        ("stepping", Field::Stepping),
        ("start_time", Field::StartTime),
        ("namespace", Field::Namespace),
        ("backpressure", Field::Backpressure),
        ("wall_time", Field::WallTime),
        ("transport", Field::Transport),
        ("connected", Field::Connected),
        ("accumulators", Field::Accumulators),
    ];
    for (key, field) in required {
        let payload = without(key);
        assert!(!payload.contains(&format!("\"{}\"", key)));
        assert_eq!(decode(payload.as_bytes()).unwrap_err(), DecodeError::Missing(field));
    }
}

#[test]
fn optional_labels_absent_null_or_present() {
    let with_null = EXAMPLE.replace("\"connected\"", "\"current_choice\":null,\"disposition\":\"keep\",\"connected\"");
    let m = decode(with_null.as_bytes()).unwrap();
    assert_eq!(m.current_choice, None);
    assert_eq!(m.disposition, Some("keep".to_string()));
    let wrong = EXAMPLE.replace("\"connected\"", "\"disposition\":3,\"connected\"");
    assert_eq!(decode(wrong.as_bytes()).unwrap_err(), DecodeError::WrongType(Field::Disposition));
}

#[test]
fn type_mismatch_is_reported() {
    let p = EXAMPLE.replace("\"stamp\":12.5", "\"stamp\":\"12.5\"");
    assert_eq!(decode(p.as_bytes()).unwrap_err(), DecodeError::WrongType(Field::Stamp));
    let p = EXAMPLE.replace("\"paused\":false", "\"paused\":0");
    assert_eq!(decode(p.as_bytes()).unwrap_err(), DecodeError::WrongType(Field::Paused));
    let p = EXAMPLE.replace("\"transport\":[]", "\"transport\":[\"tcp\",1]");
    assert_eq!(decode(p.as_bytes()).unwrap_err(), DecodeError::WrongType(Field::Transport));
}

#[test]
fn syntax_and_shape_errors() {
    assert_eq!(decode(b"{\"id\":").unwrap_err(), DecodeError::Syntax);
    assert_eq!(decode(b"").unwrap_err(), DecodeError::Syntax);
    assert_eq!(decode(b"[1,2]").unwrap_err(), DecodeError::NotAnObject);
    assert_eq!(decode(b"12.5").unwrap_err(), DecodeError::NotAnObject);
}

#[test]
fn wall_time_takes_i32_range_only() {
    let p = EXAMPLE.replace("\"wall_time\":[]", "\"wall_time\":[2147483647,-2147483648,0,-7]");
    assert_eq!(decode(p.as_bytes()).unwrap().wall_time, vec![2147483647, -2147483648, 0, -7]);
    let p = EXAMPLE.replace("\"wall_time\":[]", "\"wall_time\":[2147483648]");
    assert_eq!(decode(p.as_bytes()).unwrap_err(), DecodeError::WrongType(Field::WallTime));
    let p = EXAMPLE.replace("\"wall_time\":[]", "\"wall_time\":[-2147483649]");
    assert_eq!(decode(p.as_bytes()).unwrap_err(), DecodeError::WrongType(Field::WallTime));
    let p = EXAMPLE.replace("\"wall_time\":[]", "\"wall_time\":[1.5]");
    assert_eq!(decode(p.as_bytes()).unwrap_err(), DecodeError::WrongType(Field::WallTime));
}

#[test]
fn accumulators_decode_in_key_order() {
    let accs = r#""accumulators":{"b":{"interval":1,"elapsed":0.5,"cycles":3,"running":true,"repeating":false},"a":{"interval":2.5,"elapsed":0,"cycles":0,"running":false,"repeating":true,"extra":1}}"#;
    let p = EXAMPLE.replace("\"accumulators\":{}", accs);
    let m = decode(p.as_bytes()).unwrap();
    assert_eq!(m.accumulators.len(), 2);
    assert_eq!(m.accumulators[0].0, "a");
    assert_eq!(
        m.accumulators[0].1,
        AccumulatorData { interval: float(2.5), elapsed: Num::PosInt(0), cycles: 0, running: false, repeating: true }
    );
    assert_eq!(m.accumulators[1].0, "b");
    assert_eq!(
        m.accumulators[1].1,
        AccumulatorData { interval: Num::PosInt(1), elapsed: float(0.5), cycles: 3, running: true, repeating: false }
    );
}

#[test]
fn accumulator_errors() {
    let p = EXAMPLE.replace("\"accumulators\":{}", "\"accumulators\":{\"a\":{\"interval\":1,\"elapsed\":1,\"cycles\":-1,\"running\":true,\"repeating\":true}}");
    assert_eq!(decode(p.as_bytes()).unwrap_err(), DecodeError::WrongType(Field::AccCycles));
    let p = EXAMPLE.replace("\"accumulators\":{}", "\"accumulators\":{\"a\":{\"interval\":1,\"cycles\":1,\"running\":true,\"repeating\":true}}");
    assert_eq!(decode(p.as_bytes()).unwrap_err(), DecodeError::Missing(Field::AccElapsed));
    let p = EXAMPLE.replace("\"accumulators\":{}", "\"accumulators\":{\"a\":5}");
    assert_eq!(decode(p.as_bytes()).unwrap_err(), DecodeError::WrongType(Field::Accumulators));
    let p = EXAMPLE.replace("\"accumulators\":{}", "\"accumulators\":[]");
    assert_eq!(decode(p.as_bytes()).unwrap_err(), DecodeError::WrongType(Field::Accumulators));
}

#[test]
fn unknown_keys_are_ignored() {
    let p = EXAMPLE.replace("\"id\":\"a\"", "\"id\":\"a\",\"future\":{\"x\":[1]}");
    assert_eq!(decode(p.as_bytes()).unwrap().id, "a");
}

#[test]
fn decode_is_repeatable() {
    let a = decode(EXAMPLE.as_bytes()).unwrap();
    let b = decode(EXAMPLE.as_bytes()).unwrap();
    assert_eq!(a.stamp, b.stamp);
    assert_eq!(a.id, b.id);
    let p = without("paused");
    assert_eq!(decode(p.as_bytes()).unwrap_err(), decode(p.as_bytes()).unwrap_err());
}

#[test]
fn encode_then_decode_gives_the_message_back() {
    let m = TickMessage {
        id: "id-1".to_string(),
        short_id: "s".to_string(),
        event_type: "tick".to_string(),
        stamp: float(7.75),
        interval: Num::PosInt(2),
        paused: true,
        stepping: true,
        start_time: Num::NegInt(-4),
        namespace: "space".to_string(),
        backpressure: true,
        wall_time: vec![1, -2, i32::MAX, i32::MIN],
        current_choice: Some("left".to_string()),
        transport: vec!["nats".to_string(), "".to_string()],
        disposition: None,
        connected: false,
        accumulators: vec![(
            "main".to_string(),
            AccumulatorData { interval: float(0.25), elapsed: Num::PosInt(9), cycles: u64::MAX, running: true, repeating: false },
        )],
    };
    let j = encode_value(&m);
    let back = decode_value(&j).unwrap();
    assert_eq!(back.id, m.id);
    assert_eq!(back.short_id, m.short_id);
    assert_eq!(back.event_type, m.event_type);
    assert_eq!(back.stamp, m.stamp);
    assert_eq!(back.interval, m.interval);
    assert_eq!(back.paused, m.paused);
    assert_eq!(back.stepping, m.stepping);
    assert_eq!(back.start_time, m.start_time);
    assert_eq!(back.namespace, m.namespace);
    assert_eq!(back.backpressure, m.backpressure);
    assert_eq!(back.wall_time, m.wall_time);
    assert_eq!(back.current_choice, m.current_choice);
    assert_eq!(back.transport, m.transport);
    assert_eq!(back.disposition, m.disposition);
    assert_eq!(back.connected, m.connected);
    assert_eq!(back.accumulators, m.accumulators);
}

#[test]
fn parser_builds_the_tree() {
    match parse_json(b"{\"b\":[1,-2,2.5,null,true],\"a\":\"x\"}") {
        Some(Json::Object(es)) => {
            assert_eq!(es.len(), 2);
            assert_eq!(es[0].0, "a");
            assert!(matches!(&es[0].1, Json::Str(s) if s == "x"));
            assert_eq!(es[1].0, "b");
            match &es[1].1 {
                Json::Array(a) => {
                    assert!(matches!(a[0], Json::Num(Num::PosInt(1))));
                    assert!(matches!(a[1], Json::Num(Num::NegInt(-2))));
                    assert!(matches!(a[2], Json::Num(n) if n == float(2.5)));
                    assert!(matches!(a[3], Json::Null));
                    assert!(matches!(a[4], Json::Bool(true)));
                }
                _ => panic!("expected an array"),
            }
        }
        _ => panic!("expected an object"),
    }
    assert!(parse_json(b"{").is_none());
}

#[test]
fn field_names_are_wire_keys() {
    assert_eq!(Field::Id.name(), "id");
    assert_eq!(Field::ShortId.name(), "short_id");
    assert_eq!(Field::WallTime.name(), "wall_time");
    assert_eq!(Field::AccRepeating.name(), "repeating");
    assert_eq!(Field::AccInterval.name(), Field::Interval.name());
}


fn accumulator_tree(interval: u64) -> Json {
    Json::Object(vec![
        ("interval".to_string(), Json::Num(Num::PosInt(interval))),
        ("elapsed".to_string(), Json::Num(Num::PosInt(0))),
        ("cycles".to_string(), Json::Num(Num::PosInt(1))),
        ("running".to_string(), Json::Bool(true)),
        ("repeating".to_string(), Json::Bool(false)),
    ])
}

#[test]
fn repeated_accumulator_names_are_rejected() {
    let m = decode(EXAMPLE.as_bytes()).unwrap();
    let mut tree = encode_value(&m);
    if let Json::Object(es) = &mut tree {
        es[15].1 = Json::Object(vec![
            ("x".to_string(), accumulator_tree(1)),
            ("y".to_string(), accumulator_tree(2)),
        ]);
    }
    assert_eq!(decode_value(&tree).unwrap().accumulators.len(), 2);
    if let Json::Object(es) = &mut tree {
        es[15].1 = Json::Object(vec![
            ("x".to_string(), accumulator_tree(1)),
            ("x".to_string(), accumulator_tree(2)),
        ]);
    }
    assert_eq!(decode_value(&tree).unwrap_err(), DecodeError::RepeatedAccumulator);
}

#[test]
fn update_returns_the_recorded_state() {
    let store = SharedClockState::new();
    let before = Instant::now();
    let written = update_clock(&store, float(4.5), true);
    assert_eq!(written.stamp, float(4.5));
    assert!(written.paused);
    assert!(written.last_update.unwrap() >= before);
    let s = read_clock(&store).unwrap();
    assert_eq!(s.stamp, written.stamp);
    assert_eq!(s.last_update, written.last_update);
}

#[test]
fn handled_tick_returns_the_state_written() {
    let store = SharedClockState::new();
    let written = handle_tick(tick("6.5", true).as_bytes(), &store).unwrap();
    assert_eq!(written.stamp, float(6.5));
    assert!(written.paused);
    let s = read_clock(&store).unwrap();
    assert_eq!(s.stamp, written.stamp);
    assert_eq!(s.paused, written.paused);
    assert_eq!(s.last_update, written.last_update);
}

#[test]
fn listener_sets_up_then_receives_until_the_stream_ends() {
    let store = SharedClockState::new();
    let (s, a) = listener_start();
    assert_eq!((s, a), (ListenerState::Disconnected, ListenerAction::Connect));
    let (s, a) = listener_step(s, &ListenerEvent::ConnectOk, &store);
    assert_eq!((s, a), (ListenerState::Connected, ListenerAction::Subscribe));
    let (s, a) = listener_step(s, &ListenerEvent::SubscribeOk, &store);
    assert_eq!((s, a), (ListenerState::Receiving, ListenerAction::AwaitNext));
    let (s, a) = listener_step(s, &ListenerEvent::Message(tick("1.0", false).into_bytes()), &store);
    assert_eq!((s, a), (ListenerState::Receiving, ListenerAction::AwaitNext));
    let (s, a) = listener_step(s, &ListenerEvent::Message(b"not json".to_vec()), &store);
    assert_eq!(
        (s, a),
        (ListenerState::Receiving, ListenerAction::Report(HandleError::Decode(DecodeError::Syntax)))
    );
    assert_eq!(read_clock(&store).unwrap().stamp, float(1.0));
    let (s, a) = listener_step(s, &ListenerEvent::Message(tick("2.0", true).into_bytes()), &store);
    assert_eq!((s, a), (ListenerState::Receiving, ListenerAction::AwaitNext));
    let now = read_clock(&store).unwrap();
    assert_eq!(now.stamp, float(2.0));
    assert!(now.paused);
    let (s, a) = listener_step(s, &ListenerEvent::StreamEnded, &store);
    assert_eq!((s, a), (ListenerState::Stopped(Ok(())), ListenerAction::Stop(Ok(()))));
    let (s2, a2) = listener_step(s, &ListenerEvent::Message(tick("3.0", false).into_bytes()), &store);
    assert_eq!((s2, a2), (s, ListenerAction::Stop(Ok(()))));
    assert_eq!(read_clock(&store).unwrap().stamp, float(2.0));
}

#[test]
fn listener_stops_on_setup_failure() {
    let store = SharedClockState::new();
    let (s, _) = listener_start();
    let (s1, a1) = listener_step(s, &ListenerEvent::ConnectFailed, &store);
    assert_eq!(s1, ListenerState::Stopped(Err(ConnectError::Connect)));
    assert_eq!(a1, ListenerAction::Stop(Err(ConnectError::Connect)));
    let (s, _) = listener_step(s, &ListenerEvent::ConnectOk, &store);
    let (s2, a2) = listener_step(s, &ListenerEvent::SubscribeFailed, &store);
    assert_eq!(s2, ListenerState::Stopped(Err(ConnectError::Subscribe)));
    assert_eq!(a2, ListenerAction::Stop(Err(ConnectError::Subscribe)));
}

#[test]
fn listener_ignores_events_out_of_place() {
    let store = SharedClockState::new();
    let (s, a) = listener_step(ListenerState::Disconnected, &ListenerEvent::Message(EXAMPLE.as_bytes().to_vec()), &store);
    assert_eq!((s, a), (ListenerState::Disconnected, ListenerAction::Connect));
    assert!(read_clock(&store).unwrap().last_update.is_none());
    let (s, a) = listener_step(ListenerState::Connected, &ListenerEvent::StreamEnded, &store);
    assert_eq!((s, a), (ListenerState::Connected, ListenerAction::Subscribe));
}
