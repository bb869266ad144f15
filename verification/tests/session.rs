use monome::DiscoverySession;
use monome::KeyDirection;
use monome::Monome;
use monome::MonomeDevice;
use monome::MonomeDeviceType;
use monome::MonomeEvent;
use monome::MonomeInfo;
use monome::OscArg;
use monome::OscMsg;
use monome::Packet;
use monome::PollError;
use monome::SetupError;

fn enc(addr: &str, args: Vec<rosc::OscType>) -> Vec<u8> {
    rosc::encoder::encode(&rosc::OscPacket::Message(rosc::OscMessage {
        addr: addr.to_string(),
        args,
    }))
    .unwrap()
}

fn decode_msg(frame: &[u8]) -> rosc::OscMessage {
    match rosc::decoder::decode_udp(frame).unwrap().1 {
        rosc::OscPacket::Message(m) => m,
        _ => panic!("expected a message"),
    }
}

fn ints(m: &rosc::OscMessage) -> Vec<i32> {
    m.args
        .iter()
        .map(|a| match a {
            rosc::OscType::Int(v) => *v,
            _ => panic!("expected integer arguments"),
        })
        .collect()
}

fn device(kind: &str) -> MonomeDevice {
    let mut s = DiscoverySession::begin(0);
    let frame = enc(
        "/serialosc/device",
        vec![
            rosc::OscType::String("monome test".to_string()),
            rosc::OscType::String(kind.to_string()),
            rosc::OscType::Int(1234),
        ],
    );
    assert_eq!(s.on_frame(1, &frame), Ok(true));
    let mut devs = s.into_devices();
    devs.remove(0)
}

fn filled_info(w: i32, h: i32) -> MonomeInfo {
    let mut info = MonomeInfo::new();
    let packets = vec![
        Packet::Message(OscMsg { addr: "/sys/port".to_string(), args: vec![OscArg::Int(1234)] }),
        Packet::Message(OscMsg {
            addr: "/sys/host".to_string(),
            args: vec![OscArg::Str("127.0.0.1".to_string())],
        }),
        Packet::Message(OscMsg {
            addr: "/sys/id".to_string(),
            args: vec![OscArg::Str("m123".to_string())],
        }),
        Packet::Message(OscMsg {
            addr: "/sys/prefix".to_string(),
            args: vec![OscArg::Str("/plop".to_string())],
        }),
        Packet::Message(OscMsg { addr: "/sys/rotation".to_string(), args: vec![OscArg::Int(0)] }),
        Packet::Message(OscMsg {
            addr: "/sys/size".to_string(),
            args: vec![OscArg::Int(w), OscArg::Int(h)],
        }),
    ];
    for p in &packets {
        info.fill(p);
    }
    info
}

fn grid16x8() -> Monome {
    Monome::from_info(&device("monome 128"), filled_info(16, 8), "/plop".to_string()).unwrap()
}

fn arc4() -> Monome {
    Monome::from_info(&device("monome arc 4"), filled_info(0, 0), "/plop".to_string()).unwrap()
}

#[test]
fn session_reports_its_descriptor() {
    let m = grid16x8();
    assert_eq!(m.name(), "monome test");
    assert!(matches!(m.device_type(), MonomeDeviceType::Grid));
    assert_eq!(m.port(), 1234);
    assert_eq!(m.host(), "127.0.0.1");
    assert_eq!(m.id(), "m123");
    assert_eq!(m.prefix(), "/plop");
    assert_eq!(m.rotation(), 0);
    assert_eq!(m.size(), (16, 8));
    assert_eq!(m.width(), 16);
    assert_eq!(m.height(), 8);
    assert_eq!(m.dropped_frames(), 0);
}

#[test]
fn out_of_order_fields_yield_correct_descriptor() {
    let mut info = MonomeInfo::new();
    let packets = vec![
        Packet::Message(OscMsg {
            addr: "/sys/size".to_string(),
            args: vec![OscArg::Int(16), OscArg::Int(8)],
        }),
        Packet::Message(OscMsg { addr: "/sys/rotation".to_string(), args: vec![OscArg::Int(0)] }),
        Packet::Message(OscMsg {
            addr: "/sys/id".to_string(),
            args: vec![OscArg::Str("m456".to_string())],
        }),
        Packet::Message(OscMsg {
            addr: "/sys/host".to_string(),
            args: vec![OscArg::Str("127.0.0.1".to_string())],
        }),
        Packet::Message(OscMsg {
            addr: "/sys/prefix".to_string(),
            args: vec![OscArg::Str("/plop".to_string())],
        }),
        Packet::Message(OscMsg { addr: "/sys/port".to_string(), args: vec![OscArg::Int(1234)] }),
        // A second rotation message arrives after everything else: the last
        // value carried wins.
        Packet::Message(OscMsg { addr: "/sys/rotation".to_string(), args: vec![OscArg::Int(90)] }),
    ];
    for p in &packets {
        info.fill(p);
    }
    let m = Monome::from_info(&device("monome 128"), info, "/plop".to_string()).unwrap();
    assert_eq!(m.size(), (16, 8));
    assert_eq!(m.rotation(), 90);
    assert_eq!(m.id(), "m456");
    assert_eq!(m.host(), "127.0.0.1");
}

#[test]
fn setup_needs_a_complete_descriptor() {
    let d = device("monome 128");
    let info = MonomeInfo::new();
    assert!(matches!(Monome::from_info(&d, info, "/plop".to_string()), Err(SetupError::Incomplete)));
}

#[test]
fn setup_rejects_absurd_sizes() {
    let d = device("monome 128");
    assert!(matches!(
        Monome::from_info(&d, filled_info(300, 8), "/plop".to_string()),
        Err(SetupError::SizeOutOfRange)
    ));
    assert!(matches!(
        Monome::from_info(&d, filled_info(16, -8), "/plop".to_string()),
        Err(SetupError::SizeOutOfRange)
    ));
}

#[test]
fn set_intensity_keeps_value_under_level_fragment() {
    let mut m = grid16x8();
    m.set(1, 2, 8);
    let msg = decode_msg(&m.next_outbound().unwrap());
    assert_eq!(msg.addr, "/plop/grid/led/level/set");
    assert_eq!(ints(&msg), vec![1, 2, 8]);
    assert!(m.next_outbound().is_none());
}

#[test]
fn set_bool_goes_unfragmented() {
    let mut m = grid16x8();
    m.set(1, 1, true);
    let msg = decode_msg(&m.next_outbound().unwrap());
    assert_eq!(msg.addr, "/plop/grid/led/set");
    assert_eq!(ints(&msg), vec![1, 1, 1]);
}

#[test]
fn all_command_in_both_shapes() {
    let mut m = grid16x8();
    m.all(false);
    let msg = decode_msg(&m.next_outbound().unwrap());
    assert_eq!(msg.addr, "/plop/grid/led/all");
    assert_eq!(ints(&msg), vec![0]);
    m.all(7);
    let msg = decode_msg(&m.next_outbound().unwrap());
    assert_eq!(msg.addr, "/plop/grid/led/level/all");
    assert_eq!(ints(&msg), vec![7]);
}

#[test]
fn row_col_and_map_commands() {
    let mut m = grid16x8();
    m.row(8, 2, &0b0101_0101u8);
    let msg = decode_msg(&m.next_outbound().unwrap());
    assert_eq!(msg.addr, "/plop/grid/led/row");
    assert_eq!(ints(&msg), vec![8, 2, 85]);

    m.col(2, 0, &15u8);
    let msg = decode_msg(&m.next_outbound().unwrap());
    assert_eq!(msg.addr, "/plop/grid/led/col");
    assert_eq!(ints(&msg), vec![2, 0, 15]);

    let masks: [u8; 8] = [1, 2, 4, 8, 16, 32, 64, 128];
    m.map(8, 0, &masks);
    let msg = decode_msg(&m.next_outbound().unwrap());
    assert_eq!(msg.addr, "/plop/grid/led/map");
    assert_eq!(ints(&msg), vec![8, 0, 1, 2, 4, 8, 16, 32, 64, 128]);

    let mut v = [0u8; 64];
    for i in 0..64 {
        v[i] = (i / 4) as u8;
    }
    m.map(0, 0, &v);
    let msg = decode_msg(&m.next_outbound().unwrap());
    assert_eq!(msg.addr, "/plop/grid/led/level/map");
    let a = ints(&msg);
    assert_eq!(a.len(), 66);
    assert_eq!(&a[0..2], &[0, 0]);
    for i in 0..64 {
        assert_eq!(a[2 + i], (i / 4) as i32);
    }
}

#[test]
fn set_all_issues_one_map_per_quadrant_row_major() {
    let mut m =
        Monome::from_info(&device("monome 256"), filled_info(16, 16), "/plop".to_string()).unwrap();
    let leds = [true; 256];
    m.set_all(&leds);
    let mut frames = Vec::new();
    while let Some(f) = m.next_outbound() {
        frames.push(decode_msg(&f));
    }
    assert_eq!(frames.len(), 4);
    let origins: Vec<(i32, i32)> = frames.iter().map(|f| (ints(f)[0], ints(f)[1])).collect();
    assert_eq!(origins, vec![(0, 0), (8, 0), (0, 8), (8, 8)]);
    for f in &frames {
        assert_eq!(f.addr, "/plop/grid/led/map");
        let a = ints(f);
        assert_eq!(a.len(), 10);
        for row in 0..8 {
            assert_eq!(a[2 + row], 255);
        }
    }
}

#[test]
fn set_all_packs_each_row_from_the_right_columns() {
    let mut m = grid16x8();
    let mut leds = [false; 128];
    // One led in the left quadrant at (0, 0), one in the right at (9, 1).
    leds[0] = true;
    leds[1 * 16 + 9] = true;
    m.set_all(&leds);
    let left = decode_msg(&m.next_outbound().unwrap());
    let right = decode_msg(&m.next_outbound().unwrap());
    assert!(m.next_outbound().is_none());
    let la = ints(&left);
    let ra = ints(&right);
    assert_eq!(&la[0..2], &[0, 0]);
    assert_eq!(&ra[0..2], &[8, 0]);
    assert_eq!(la[2], 1, "bit 0 of row 0 in the left quadrant");
    assert_eq!(la[3], 0);
    assert_eq!(ra[2], 0);
    assert_eq!(ra[3], 2, "bit 1 of row 1 in the right quadrant");
}

#[test]
fn set_all_intensity_issues_level_maps_per_quadrant() {
    let mut m = grid16x8();
    let mut leds = [0u8; 128];
    for i in 0..128 {
        leds[i] = (i % 16) as u8;
    }
    m.set_all_intensity(&leds);
    let first = decode_msg(&m.next_outbound().unwrap());
    let second = decode_msg(&m.next_outbound().unwrap());
    assert!(m.next_outbound().is_none());
    assert_eq!(first.addr, "/plop/grid/led/level/map");
    assert_eq!(second.addr, "/plop/grid/led/level/map");
    let fa = ints(&first);
    let sa = ints(&second);
    assert_eq!(fa.len(), 66);
    assert_eq!(&fa[0..2], &[0, 0]);
    assert_eq!(&sa[0..2], &[8, 0]);
    for n in 0..64 {
        let (row, colf) = (n / 8, n % 8);
        assert_eq!(fa[2 + n], leds[row * 16 + colf] as i32);
        assert_eq!(sa[2 + n], leds[row * 16 + 8 + colf] as i32);
    }
}

#[test]
fn set_all_on_largest_grid_counts_its_drops() {
    let mut m =
        Monome::from_info(&device("monome 256"), filled_info(256, 256), "/plop".to_string())
            .unwrap();
    let leds = vec![false; 256 * 256];
    m.set_all(&leds);
    // 32 × 32 quadrant commands were issued; the queue keeps the first 16.
    let mut kept = 0;
    while m.next_outbound().is_some() {
        kept += 1;
    }
    assert_eq!(kept, 16);
    assert_eq!(m.dropped_frames(), 1024 - 16);
}

#[test]
fn outbound_overflow_drops_newest_and_keeps_fifo() {
    let mut m = grid16x8();
    for x in 0..17 {
        m.set(x, 0, true);
    }
    assert_eq!(m.dropped_frames(), 1);
    let mut got = Vec::new();
    while let Some(f) = m.next_outbound() {
        got.push(decode_msg(&f));
    }
    assert_eq!(got.len(), 16);
    for (x, msg) in got.iter().enumerate() {
        assert_eq!(ints(msg)[0], x as i32, "frames must stay in send order");
    }
}

#[test]
fn ring_commands_reach_an_arc() {
    let mut m = arc4();
    m.ring_set(0, 65, 15);
    let msg = decode_msg(&m.next_outbound().unwrap());
    assert_eq!(msg.addr, "/plop/ring/set");
    assert_eq!(ints(&msg), vec![0, 65, 15]);

    m.ring_all(1, 4);
    let msg = decode_msg(&m.next_outbound().unwrap());
    assert_eq!(msg.addr, "/plop/ring/all");
    assert_eq!(ints(&msg), vec![1, 4]);

    m.ring_range(2, 0, 32, 9);
    let msg = decode_msg(&m.next_outbound().unwrap());
    assert_eq!(msg.addr, "/plop/ring/range");
    assert_eq!(ints(&msg), vec![2, 0, 32, 9]);

    let mut v = [0u8; 64];
    for i in 0..64 {
        v[i] = (i / 4) as u8;
    }
    m.ring_map(3, &v);
    let msg = decode_msg(&m.next_outbound().unwrap());
    assert_eq!(msg.addr, "/plop/ring/map");
    let a = ints(&msg);
    assert_eq!(a.len(), 65);
    assert_eq!(a[0], 3);
    for i in 0..64 {
        assert_eq!(a[1 + i], (i / 4) as i32);
    }
}

#[test]
fn ring_on_a_grid_is_a_noop() {
    let mut m = grid16x8();
    m.ring_set(0, 0, 15);
    m.ring_all(0, 15);
    m.ring_range(0, 0, 32, 15);
    m.ring_map(0, &[0u8; 64]);
    assert!(m.next_outbound().is_none());
    assert_eq!(m.dropped_frames(), 0);
}

#[test]
fn grid_ops_on_an_arc_are_noops() {
    let mut m = arc4();
    m.set(0, 0, true);
    m.all(3);
    m.map(0, 0, &[0u8; 8]);
    m.row(0, 0, &0u8);
    m.col(0, 0, &0u8);
    m.set_all(&[false; 64]);
    m.set_all_intensity(&[0u8; 64]);
    assert!(m.next_outbound().is_none());
    assert_eq!(m.dropped_frames(), 0);
}

#[test]
fn tilt_rotation_and_prefix_go_unprefixed() {
    let mut m = grid16x8();
    m.tilt_all(true);
    let msg = decode_msg(&m.next_outbound().unwrap());
    assert_eq!(msg.addr, "/tilt/set");
    assert_eq!(ints(&msg), vec![0, 1]);

    m.set_rotation(180);
    let msg = decode_msg(&m.next_outbound().unwrap());
    assert_eq!(msg.addr, "/sys/rotation");
    assert_eq!(ints(&msg), vec![180]);
    assert_eq!(m.rotation(), 180);

    m.set_prefix("/new".to_string());
    let msg = decode_msg(&m.next_outbound().unwrap());
    assert_eq!(msg.addr, "/sys/prefix");
    assert_eq!(msg.args, vec![rosc::OscType::String("/new".to_string())]);
    assert_eq!(m.prefix(), "/new");

    // Later commands carry the new prefix.
    m.set(0, 0, true);
    let msg = decode_msg(&m.next_outbound().unwrap());
    assert_eq!(msg.addr, "/new/grid/led/set");
}

#[test]
fn poll_is_nonblocking_and_decodes_key_frames() {
    let mut m = grid16x8();
    assert_eq!(m.poll(), Ok(None));
    assert!(m.push_inbound(enc(
        "/plop/grid/key",
        vec![rosc::OscType::Int(3), rosc::OscType::Int(5), rosc::OscType::Int(1)]
    )));
    assert_eq!(
        m.poll(),
        Ok(Some(MonomeEvent::GridKey { x: 3, y: 5, direction: KeyDirection::Down }))
    );
    assert!(m.push_inbound(enc(
        "/plop/grid/key",
        vec![rosc::OscType::Int(3), rosc::OscType::Int(5), rosc::OscType::Int(0)]
    )));
    assert_eq!(
        m.poll(),
        Ok(Some(MonomeEvent::GridKey { x: 3, y: 5, direction: KeyDirection::Up }))
    );
    assert_eq!(m.poll(), Ok(None));
}

#[test]
fn poll_decodes_tilt_and_encoder_frames() {
    let mut m = grid16x8();
    assert!(m.push_inbound(enc(
        "/plop/tilt",
        vec![
            rosc::OscType::Int(0),
            rosc::OscType::Int(10),
            rosc::OscType::Int(-4),
            rosc::OscType::Int(2),
        ]
    )));
    assert_eq!(m.poll(), Ok(Some(MonomeEvent::Tilt { n: 0, x: 10, y: -4, z: 2 })));

    assert!(m.push_inbound(enc(
        "/plop/enc/delta",
        vec![rosc::OscType::Int(1), rosc::OscType::Int(-3)]
    )));
    assert_eq!(m.poll(), Ok(Some(MonomeEvent::EncoderDelta { n: 1, delta: -3 })));

    assert!(m.push_inbound(enc(
        "/plop/enc/key",
        vec![rosc::OscType::Int(2), rosc::OscType::Int(0)]
    )));
    assert_eq!(
        m.poll(),
        Ok(Some(MonomeEvent::EncoderKey { n: 2, direction: KeyDirection::Up }))
    );
}

#[test]
fn poll_absorbs_noise_without_failing() {
    let mut m = grid16x8();
    assert!(m.push_inbound(vec![0xde, 0xad, 0xbe]));
    assert_eq!(m.poll(), Ok(None));
    assert!(m.push_inbound(enc("/sys/rotation", vec![rosc::OscType::Int(0)])));
    assert_eq!(m.poll(), Ok(None));
    assert!(m.push_inbound(enc("/serialosc/device", vec![])));
    assert_eq!(m.poll(), Ok(None));
    // Wrong argument shape under a recognised suffix.
    assert!(m.push_inbound(enc("/plop/grid/key", vec![rosc::OscType::Int(1)])));
    assert_eq!(m.poll(), Ok(None));
    // Another application's prefix.
    assert!(m.push_inbound(enc(
        "/other/grid/key",
        vec![rosc::OscType::Int(1), rosc::OscType::Int(1), rosc::OscType::Int(1)]
    )));
    assert_eq!(m.poll(), Ok(None));
}

#[test]
fn poll_surfaces_a_bundle_as_a_violation() {
    let mut m = grid16x8();
    let bundle = rosc::OscPacket::Bundle(rosc::OscBundle {
        timetag: rosc::OscTime::from((0, 0)),
        content: vec![],
    });
    assert!(m.push_inbound(rosc::encoder::encode(&bundle).unwrap()));
    assert_eq!(m.poll(), Err(PollError::Bundle));
    // The violation concerns that frame alone; the session carries on.
    assert!(m.push_inbound(enc(
        "/plop/grid/key",
        vec![rosc::OscType::Int(1), rosc::OscType::Int(1), rosc::OscType::Int(1)]
    )));
    assert_eq!(
        m.poll(),
        Ok(Some(MonomeEvent::GridKey { x: 1, y: 1, direction: KeyDirection::Down }))
    );
}

#[test]
fn inbound_overflow_drops_newest_and_keeps_order() {
    let mut m = grid16x8();
    for x in 0..32 {
        assert!(m.push_inbound(enc(
            "/plop/grid/key",
            vec![rosc::OscType::Int(x), rosc::OscType::Int(0), rosc::OscType::Int(1)]
        )));
    }
    // The inbound queue is full now: the 33rd frame is dropped.
    assert!(!m.push_inbound(enc(
        "/plop/grid/key",
        vec![rosc::OscType::Int(99), rosc::OscType::Int(0), rosc::OscType::Int(1)]
    )));
    for x in 0..32 {
        assert_eq!(
            m.poll(),
            Ok(Some(MonomeEvent::GridKey { x, y: 0, direction: KeyDirection::Down }))
        );
    }
    assert_eq!(m.poll(), Ok(None));
}
