use monome::IntoAddrAndArgs;
use monome::MonomeDeviceType;
use monome::OscArg;

fn int_arg(a: &OscArg) -> i32 {
    match a {
        OscArg::Int(v) => *v,
        _ => panic!("expected an integer argument"),
    }
}

#[test]
fn intensity_adds_level_fragment() {
    let (frag, arg) = 9i32.as_addr_frag_and_args();
    assert_eq!(frag, "level/");
    assert!(matches!(arg, OscArg::Int(9)));
}

#[test]
fn bool_converts_to_zero_or_one() {
    let (frag, on) = true.as_addr_frag_and_args();
    assert_eq!(frag, "");
    assert!(matches!(on, OscArg::Int(1)));
    let (_, off) = false.as_addr_frag_and_args();
    assert!(matches!(off, OscArg::Int(0)));
}

#[test]
fn single_mask_byte_passes_through() {
    let (frag, args) = 0b0101_0101u8.as_addr_frag_and_args();
    assert_eq!(frag, "");
    assert_eq!(args.len(), 1);
    assert_eq!(int_arg(&args[0]), 85);
}

#[test]
fn sixtyfour_intensities_keep_order_under_level() {
    let mut v = [0u8; 64];
    for i in 0..64 {
        v[i] = (i / 4) as u8;
    }
    let (frag, args) = v.as_addr_frag_and_args();
    assert_eq!(frag, "level/");
    assert_eq!(args.len(), 64);
    for i in 0..64 {
        assert_eq!(int_arg(&args[i]), (i / 4) as i32);
    }
}

#[test]
fn eight_masks_keep_order() {
    let v: [u8; 8] = [1, 3, 7, 15, 32, 63, 127, 255];
    let (frag, args) = v.as_addr_frag_and_args();
    assert_eq!(frag, "");
    assert_eq!(args.len(), 8);
    for i in 0..8 {
        assert_eq!(int_arg(&args[i]), v[i] as i32);
    }
}

#[test]
fn bool64_packs_checkerboard_into_masks() {
    let mut leds = [false; 64];
    for i in 0..8 {
        for k in 0..8 {
            leds[i * 8 + k] = (i + k) % 2 == 0;
        }
    }
    let (frag, args) = leds.as_addr_frag_and_args();
    assert_eq!(frag, "");
    assert_eq!(args.len(), 8);
    for i in 0..8 {
        let expected = if i % 2 == 0 { 0b0101_0101 } else { 0b1010_1010 };
        assert_eq!(int_arg(&args[i]), expected);
    }
}

#[test]
fn bool64_pack_then_unpack_is_identity() {
    // A deterministic pseudo-random pattern.
    let mut leds = [false; 64];
    let mut x: u32 = 7;
    for n in 0..64 {
        x = x.wrapping_mul(1_103_515_245).wrapping_add(12_345);
        leds[n] = (x >> 16) & 1 == 1;
    }
    let (_, args) = leds.as_addr_frag_and_args();
    assert_eq!(args.len(), 8);
    for i in 0..8 {
        let mask = int_arg(&args[i]) as u8;
        for k in 0..8 {
            // The led at column k of row i is bit k of mask i.
            assert_eq!((mask >> k) & 1 == 1, leds[i * 8 + k], "row {} bit {}", i, k);
        }
    }
}

#[test]
fn device_kind_read_from_type_string() {
    assert!(matches!(MonomeDeviceType::from("monome arc 2"), MonomeDeviceType::Arc));
    assert!(matches!(MonomeDeviceType::from("monome 128"), MonomeDeviceType::Grid));
    assert!(matches!(MonomeDeviceType::from(""), MonomeDeviceType::Grid));
}
