use colorimeter::codec::{
    battery_command_frame, calibrate_command_frame, decode_notification, encode_triple,
    info_command_frame, parse_scan_result, read_i16_le, scan_command_frame, write_i16_le,
    Notification,
};
use colorimeter::data::Triple;

/// A well-formed scan frame: 8 header bytes, four little-endian triples,
/// 4 unused bytes, 3 RGB bytes.
fn example_scan_frame() -> Vec<u8> {
    vec![
        0xAB, 0x44, 0x00, 0x00, 0x00, 0x00, 0x36, 0x00, // header
        0x64, 0x00, 0x64, 0x00, 0xC8, 0xFF, // lab = (1.00, 1.00, -0.56)
        0x38, 0x00, 0x64, 0x00, 0xC8, 0x00, // luv = (0.56, 1.00, 2.00)
        0x32, 0x00, 0x64, 0x00, 0xC8, 0x00, // lch = (0.50, 1.00, 2.00)
        0x0A, 0x00, 0x14, 0x00, 0x1E, 0x00, // yxy = (0.10, 0.20, 0.30)
        0xAA, 0xBB, 0xCC, 0xDD, // unused
        0x10, 0x80, 0x40, // rgb = (16, 128, 64)
    ]
}

#[test]
fn command_frames_are_the_protocol_constants() {
    assert_eq!(
        scan_command_frame(),
        vec![0xAB, 0x44, 0x00, 0x00, 0x00, 0x00, 0x36, 0x00, 0x18, 0x64]
    );
    assert_eq!(
        calibrate_command_frame(),
        vec![0xAB, 0x20, 0x2E, 0x00, 0x02, 0x00, 0x90, 0x4F]
    );
    assert_eq!(
        battery_command_frame(),
        vec![0xAB, 0x20, 0x0B, 0x00, 0x02, 0x00, 0x9B, 0x43]
    );
    assert_eq!(
        info_command_frame(),
        vec![0xAB, 0x40, 0x00, 0x00, 0x00, 0x00, 0x14, 0x00, 0x45, 0x04]
    );
}

#[test]
fn read_i16_le_handles_both_signs() {
    assert_eq!(read_i16_le(0x64, 0x00), 100);
    assert_eq!(read_i16_le(0xC8, 0xFF), -56);
    assert_eq!(read_i16_le(0x00, 0x80), i16::MIN);
    assert_eq!(read_i16_le(0xFF, 0x7F), i16::MAX);
    assert_eq!(read_i16_le(0x00, 0x00), 0);
}

#[test]
fn write_i16_le_inverts_read() {
    for v in [-32768i16, -56, -1, 0, 1, 100, 200, 32767] {
        let (lo, hi) = write_i16_le(v);
        assert_eq!(read_i16_le(lo, hi), v);
    }
    for pair in [(0x64u8, 0x00u8), (0xC8, 0xFF), (0x00, 0x80), (0xFF, 0x7F)] {
        let v = read_i16_le(pair.0, pair.1);
        assert_eq!(write_i16_le(v), pair);
    }
}

#[test]
fn scan_frame_decodes_to_documented_values() {
    let frame = example_scan_frame();
    let res = parse_scan_result(1, &frame);
    assert_eq!(res.idx, 1);
    assert_eq!(res.lab, Triple(100, 100, -56)); // 1.00, 1.00, -0.56
    assert_eq!(res.luv, Triple(56, 100, 200));
    assert_eq!(res.lch, Triple(50, 100, 200));
    assert_eq!(res.yxy, Triple(10, 20, 30));
    assert_eq!(res.rgb, Triple(0x10, 0x80, 0x40)); // (16, 128, 64)
}

#[test]
fn scan_triples_reencode_to_the_frame_bytes() {
    let frame = example_scan_frame();
    let res = parse_scan_result(1, &frame);
    let mut bytes: Vec<u8> = Vec::new();
    bytes.extend(encode_triple(&res.lab));
    bytes.extend(encode_triple(&res.luv));
    bytes.extend(encode_triple(&res.lch));
    bytes.extend(encode_triple(&res.yxy));
    assert_eq!(&bytes[..], &frame[8..32]);
}

#[test]
fn decode_recognizes_each_frame_kind() {
    match decode_notification(&example_scan_frame()) {
        Notification::Scan(data) => {
            assert_eq!(data.lab, Triple(100, 100, -56));
            assert_eq!(data.rgb, Triple(0x10, 0x80, 0x40));
        }
        other => panic!("expected a scan, got {:?}", other),
    }

    let calibrated = vec![0xAB, 0x20, 0x2E];
    assert_eq!(decode_notification(&calibrated), Notification::Calibrated);

    let power = vec![0xAB, 0x20, 0x0B, 0x00, 0x02, 0x00, 0x2C, 0x01];
    assert_eq!(decode_notification(&power), Notification::PowerLevel(300));

    let mut info = vec![0xAB, 0x40, 0x00, 0x00, 0x00, 0x00, 0x00, 0x00, 0x00, 0x00];
    for k in 0..15u8 {
        info.push(k + 1);
        info.push(0x00);
    }
    match decode_notification(&info) {
        Notification::DeviceInfo(vals) => {
            let expected: Vec<i16> = (1..=15).collect();
            assert_eq!(vals.to_vec(), expected);
        }
        other => panic!("expected device info, got {:?}", other),
    }
}

#[test]
fn malformed_frames_are_dropped_not_fatal() {
    assert_eq!(decode_notification(&vec![]), Notification::Unrecognized);
    assert_eq!(decode_notification(&vec![0xAB]), Notification::Unrecognized);
    assert_eq!(decode_notification(&vec![0xAB, 0x44]), Notification::Unrecognized);
    // wrong sentinel
    assert_eq!(
        decode_notification(&vec![0x00, 0x44, 0x00, 0x00]),
        Notification::Unrecognized
    );
    // unknown kind
    assert_eq!(
        decode_notification(&vec![0xAB, 0x99, 0x00, 0x00]),
        Notification::Unrecognized
    );
    // scan frame too short for its payload
    assert_eq!(
        decode_notification(&vec![0xAB, 0x44, 0x00, 0x00, 0x00]),
        Notification::Unrecognized
    );
    // power frame too short for its payload
    assert_eq!(
        decode_notification(&vec![0xAB, 0x20, 0x0B, 0x00]),
        Notification::Unrecognized
    );
    // info frame too short for its payload
    assert_eq!(
        decode_notification(&vec![0xAB, 0x40, 0x00, 0x00, 0x00, 0x00]),
        Notification::Unrecognized
    );
}
