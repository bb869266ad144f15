use monome::DeviceChangeEvent;
use monome::DiscoveryError;
use monome::DiscoverySession;
use monome::MonomeDeviceType;

fn enc(addr: &str, args: Vec<rosc::OscType>) -> Vec<u8> {
    rosc::encoder::encode(&rosc::OscPacket::Message(rosc::OscMessage {
        addr: addr.to_string(),
        args,
    }))
    .unwrap()
}

fn device_msg(name: &str, kind: &str, port: i32) -> Vec<u8> {
    enc(
        "/serialosc/device",
        vec![
            rosc::OscType::String(name.to_string()),
            rosc::OscType::String(kind.to_string()),
            rosc::OscType::Int(port),
        ],
    )
}

#[test]
fn enumeration_is_empty_when_nothing_answers() {
    let s = DiscoverySession::begin(0);
    assert!(!s.expired(500));
    assert!(s.expired(501));
    assert!(s.into_devices().is_empty());
}

#[test]
fn enumeration_accumulates_and_resets_the_window() {
    let mut s = DiscoverySession::begin(0);
    assert_eq!(s.on_frame(400, &device_msg("monome one", "monome 128", 14001)), Ok(true));
    assert_eq!(s.deadline_ms(), 900);
    // The second announcement arrives 500 ms after the first: still inside
    // the restarted window.
    assert_eq!(s.on_frame(900, &device_msg("monome two", "monome arc 4", 14002)), Ok(true));
    assert_eq!(s.deadline_ms(), 1400);
    let devs = s.into_devices();
    assert_eq!(devs.len(), 2);
    assert_eq!(devs[0].name(), "monome one");
    assert!(matches!(devs[0].device_type(), MonomeDeviceType::Grid));
    assert_eq!(devs[0].port(), 14001);
    assert_eq!(devs[1].name(), "monome two");
    assert!(matches!(devs[1].device_type(), MonomeDeviceType::Arc));
    assert_eq!(devs[1].port(), 14002);
}

#[test]
fn stray_messages_neither_reset_nor_appear() {
    let mut s = DiscoverySession::begin(0);
    assert_eq!(s.on_frame(300, &enc("/sys/connect", vec![])), Ok(false));
    assert_eq!(s.deadline_ms(), 500);
    // A device message with the wrong argument shape is a stray too.
    assert_eq!(s.on_frame(400, &enc("/serialosc/device", vec![rosc::OscType::Int(3)])), Ok(false));
    assert_eq!(s.deadline_ms(), 500);
    // An announcement after the window ran out is not taken.
    assert_eq!(s.on_frame(501, &device_msg("late", "monome 64", 14003)), Ok(false));
    assert!(s.into_devices().is_empty());
}

#[test]
fn enumeration_refuses_malformed_bytes() {
    let mut s = DiscoverySession::begin(0);
    assert_eq!(s.on_frame(1, &[0xff, 0x00, 0x01]), Err(DiscoveryError::Malformed));
    assert!(s.into_devices().is_empty());
}

#[test]
fn list_request_carries_reply_address() {
    let frame = monome::discovery::list_request("127.0.0.1", 12345);
    let (_, packet) = rosc::decoder::decode_udp(&frame).unwrap();
    let m = match packet {
        rosc::OscPacket::Message(m) => m,
        _ => panic!("expected a message"),
    };
    assert_eq!(m.addr, "/serialosc/list");
    assert_eq!(
        m.args,
        vec![rosc::OscType::String("127.0.0.1".to_string()), rosc::OscType::Int(12345)]
    );
}

#[test]
fn notify_request_carries_reply_address() {
    let frame = monome::discovery::notify_request("127.0.0.1", 12345);
    let (_, packet) = rosc::decoder::decode_udp(&frame).unwrap();
    let m = match packet {
        rosc::OscPacket::Message(m) => m,
        _ => panic!("expected a message"),
    };
    assert_eq!(m.addr, "/serialosc/notify");
    assert_eq!(
        m.args,
        vec![rosc::OscType::String("127.0.0.1".to_string()), rosc::OscType::Int(12345)]
    );
}

#[test]
fn watcher_reports_changes_and_renotifies() {
    let (ev, renotify) =
        monome::discovery::watch_frame(&enc("/serialosc/add", vec![rosc::OscType::String(
            "m1".to_string(),
        )]));
    assert!(matches!(ev, Some(DeviceChangeEvent::Added(id)) if id == "m1"));
    assert!(renotify);

    let (ev, renotify) =
        monome::discovery::watch_frame(&enc("/serialosc/remove", vec![rosc::OscType::String(
            "m2".to_string(),
        )]));
    assert!(matches!(ev, Some(DeviceChangeEvent::Removed(id)) if id == "m2"));
    assert!(renotify);

    let (ev, renotify) = monome::discovery::watch_frame(&enc("/sys/connect", vec![]));
    assert!(ev.is_none());
    assert!(!renotify);

    let (ev, renotify) = monome::discovery::watch_frame(&[0xde, 0xad]);
    assert!(ev.is_none());
    assert!(!renotify);
}
