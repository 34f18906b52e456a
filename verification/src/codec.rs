//! The binary protocol codec.
//!
//! Outbound command frames are fixed byte sequences.  Inbound notification
//! frames start with the sentinel byte `0xAB`; bytes 1 and 2 select the frame
//! kind.  Color components travel as little-endian signed 16-bit values in
//! fixed-point hundredths.

use vstd::prelude::*;
use vstd::arithmetic::div_mod::lemma_fundamental_div_mod_converse;
use crate::data::{ScanResult, Triple};

verus! {

/// The sentinel byte every notification frame starts with.
pub open spec fn sentinel() -> u8 {
    0xab
}

// ---------------------------------------------------------------------------
// Little-endian signed 16-bit values
// ---------------------------------------------------------------------------

/// The signed value of a little-endian 16-bit pair, as a mathematical integer.
pub open spec fn i16_le_int(lo: u8, hi: u8) -> int {
    let u = lo + 256 * hi;
    if u < 32768 {
        u
    } else {
        u - 65536
    }
}

/// The signed value of a little-endian 16-bit pair.
pub open spec fn i16_of_le(lo: u8, hi: u8) -> i16 {
    i16_le_int(lo, hi) as i16
}

/// A signed 16-bit value mapped back onto 0..65536.
pub open spec fn i16_unsigned(v: i16) -> int {
    if v >= 0 {
        v as int
    } else {
        v + 65536
    }
}

/// The low byte of the little-endian encoding of `v`.
pub open spec fn le_lo(v: i16) -> u8 {
    (i16_unsigned(v) % 256) as u8
}

/// The high byte of the little-endian encoding of `v`.
pub open spec fn le_hi(v: i16) -> u8 {
    (i16_unsigned(v) / 256) as u8
}

/// Reads a little-endian signed 16-bit value from two bytes.
pub fn read_i16_le(lo: u8, hi: u8) -> (r: i16)
    ensures
        r == i16_of_le(lo, hi),
        r as int == i16_le_int(lo, hi),
{
    let u: u16 = lo as u16 + (hi as u16) * 256;
    if u < 32768 {
        u as i16
    } else {
        ((u as i32) - 65536) as i16
    }
}

/// Writes a signed 16-bit value as its little-endian byte pair.
pub fn write_i16_le(v: i16) -> (r: (u8, u8))
    ensures
        r.0 == le_lo(v),
        r.1 == le_hi(v),
{
    let u: u16 = if v >= 0 {
        v as u16
    } else {
        ((v as i32) + 65536) as u16
    };
    ((u % 256) as u8, (u / 256) as u8)
}

/// Decoding a little-endian byte pair and encoding the value again yields the
/// same two bytes.
pub proof fn lemma_le_decode_encode(lo: u8, hi: u8)
    ensures
        le_lo(i16_of_le(lo, hi)) == lo,
        le_hi(i16_of_le(lo, hi)) == hi,
{
    let u = lo + 256 * hi;
    assert(i16_unsigned(i16_of_le(lo, hi)) == u);
    lemma_fundamental_div_mod_converse(u, 256, hi as int, lo as int);
}

/// Encoding a signed 16-bit value and decoding the byte pair again yields the
/// same value.
pub proof fn lemma_le_encode_decode(v: i16)
    ensures
        i16_of_le(le_lo(v), le_hi(v)) == v,
{
    let u = i16_unsigned(v);
    assert(le_lo(v) + 256 * le_hi(v) == u) by {
        assert(u == 256 * (u / 256) + u % 256) by {
            vstd::arithmetic::div_mod::lemma_fundamental_div_mod(u, 256);
        }
    }
}

// ---------------------------------------------------------------------------
// Outbound command frames (protocol constants)
// ---------------------------------------------------------------------------

/// The frame that triggers a color scan.
pub open spec fn scan_command() -> Seq<u8> {
    seq![0xabu8, 0x44u8, 0x00u8, 0x00u8, 0x00u8, 0x00u8, 0x36u8, 0x00u8, 0x18u8, 0x64u8]
}

/// The frame that triggers a calibration.
pub open spec fn calibrate_command() -> Seq<u8> {
    seq![0xabu8, 0x20u8, 0x2eu8, 0x00u8, 0x02u8, 0x00u8, 0x90u8, 0x4fu8]
}

/// The frame that requests the battery level.
pub open spec fn battery_command() -> Seq<u8> {
    seq![0xabu8, 0x20u8, 0x0bu8, 0x00u8, 0x02u8, 0x00u8, 0x9bu8, 0x43u8]
}

/// The frame that requests the device info block.
pub open spec fn info_command() -> Seq<u8> {
    seq![0xabu8, 0x40u8, 0x00u8, 0x00u8, 0x00u8, 0x00u8, 0x14u8, 0x00u8, 0x45u8, 0x04u8]
}

pub fn scan_command_frame() -> (r: Vec<u8>)
    ensures
        r@ == scan_command(),
{
    let v: Vec<u8> = vec![0xab, 0x44, 0x00, 0x00, 0x00, 0x00, 0x36, 0x00, 0x18, 0x64];
    proof {
        assert(v@ =~= scan_command());
    }
    v
}

pub fn calibrate_command_frame() -> (r: Vec<u8>)
    ensures
        r@ == calibrate_command(),
{
    let v: Vec<u8> = vec![0xab, 0x20, 0x2e, 0x00, 0x02, 0x00, 0x90, 0x4f];
    proof {
        assert(v@ =~= calibrate_command());
    }
    v
}

pub fn battery_command_frame() -> (r: Vec<u8>)
    ensures
        r@ == battery_command(),
{
    let v: Vec<u8> = vec![0xab, 0x20, 0x0b, 0x00, 0x02, 0x00, 0x9b, 0x43];
    proof {
        assert(v@ =~= battery_command());
    }
    v
}

pub fn info_command_frame() -> (r: Vec<u8>)
    ensures
        r@ == info_command(),
{
    let v: Vec<u8> = vec![0xab, 0x40, 0x00, 0x00, 0x00, 0x00, 0x14, 0x00, 0x45, 0x04];
    proof {
        assert(v@ =~= info_command());
    }
    v
}

// ---------------------------------------------------------------------------
// Inbound notification frames
// ---------------------------------------------------------------------------

/// A scan-result frame: sentinel, kind bytes `44 00`, an 8-byte header, four
/// little-endian triples, 4 unused bytes, then 3 raw RGB bytes.
pub open spec fn is_scan_frame(m: Seq<u8>) -> bool {
    m.len() >= 39 && m[0] == sentinel() && m[1] == 0x44 && m[2] == 0x00
}

/// A calibration-complete frame: kind bytes `20 2E`, no payload.
pub open spec fn is_calibration_frame(m: Seq<u8>) -> bool {
    m.len() >= 3 && m[0] == sentinel() && m[1] == 0x20 && m[2] == 0x2e
}

/// A power-level frame: kind bytes `20 0B`, value at byte offset 6.
pub open spec fn is_power_frame(m: Seq<u8>) -> bool {
    m.len() >= 8 && m[0] == sentinel() && m[1] == 0x20 && m[2] == 0x0b
}

/// A device-info frame: kind bytes `40 00`, fifteen values at byte offsets
/// 10..40.
pub open spec fn is_info_frame(m: Seq<u8>) -> bool {
    m.len() >= 40 && m[0] == sentinel() && m[1] == 0x40 && m[2] == 0x00
}

/// Component `j` (0..12) of the four color triples of a scan frame.
pub open spec fn scan_component(m: Seq<u8>, j: int) -> i16 {
    i16_of_le(m[8 + 2 * j], m[8 + 2 * j + 1])
}

/// Color triple `k` (0: Lab, 1: Luv, 2: Lch, 3: yxY) of a scan frame.
pub open spec fn scan_triple(m: Seq<u8>, k: int) -> Triple<i16> {
    Triple(scan_component(m, 3 * k), scan_component(m, 3 * k + 1), scan_component(m, 3 * k + 2))
}

/// The raw RGB bytes of a scan frame.
pub open spec fn scan_rgb(m: Seq<u8>) -> Triple<u8> {
    Triple(m[36], m[37], m[38])
}

/// The scan result decoded from frame `m`, numbered `idx`.
pub open spec fn scan_result_of(m: Seq<u8>, idx: usize) -> ScanResult {
    ScanResult {
        idx,
        lab: scan_triple(m, 0),
        luv: scan_triple(m, 1),
        lch: scan_triple(m, 2),
        yxy: scan_triple(m, 3),
        rgb: scan_rgb(m),
    }
}

/// The power level carried by a power frame.
pub open spec fn power_of(m: Seq<u8>) -> i16 {
    i16_of_le(m[6], m[7])
}

/// The fifteen device-info values of an info frame.
pub open spec fn info_values_of(m: Seq<u8>) -> Seq<i16> {
    Seq::new(15, |j: int| i16_of_le(m[10 + 2 * j], m[10 + 2 * j + 1]))
}

/// A notification frame decoded into a typed record.  A frame whose header or
/// length fits no kind is `Unrecognized`: such frames are dropped by the
/// session, never fatal.
#[derive(Clone, Copy, PartialEq, Eq, Debug)]
pub enum Notification {
    Scan(ScanData),
    Calibrated,
    PowerLevel(i16),
    DeviceInfo([i16; 15]),
    Unrecognized,
}

/// The color payload of a scan frame, before a result number is assigned.
#[derive(Clone, Copy, PartialEq, Eq, Debug)]
pub struct ScanData {
    pub lab: Triple<i16>,
    pub luv: Triple<i16>,
    pub lch: Triple<i16>,
    pub yxy: Triple<i16>,
    pub rgb: Triple<u8>,
}

impl ScanData {
    /// The scan result this payload yields under number `idx`.
    pub open spec fn numbered(self, idx: usize) -> ScanResult {
        ScanResult { idx, lab: self.lab, luv: self.luv, lch: self.lch, yxy: self.yxy, rgb: self.rgb }
    }

    pub fn into_result(self, idx: usize) -> (r: ScanResult)
        ensures
            r == self.numbered(idx),
    {
        ScanResult { idx, lab: self.lab, luv: self.luv, lch: self.lch, yxy: self.yxy, rgb: self.rgb }
    }
}

/// The scan payload decoded from frame `m`.
pub open spec fn scan_data_of(m: Seq<u8>) -> ScanData {
    ScanData {
        lab: scan_triple(m, 0),
        luv: scan_triple(m, 1),
        lch: scan_triple(m, 2),
        yxy: scan_triple(m, 3),
        rgb: scan_rgb(m),
    }
}

/// What `decode_notification` owes for frame `m`: each recognized, complete
/// frame kind decodes to its record, everything else is dropped as
/// `Unrecognized`.
pub open spec fn decode_spec(m: Seq<u8>, r: Notification) -> bool {
    if is_scan_frame(m) {
        r == Notification::Scan(scan_data_of(m))
    } else if is_calibration_frame(m) {
        r == Notification::Calibrated
    } else if is_power_frame(m) {
        r == Notification::PowerLevel(power_of(m))
    } else if is_info_frame(m) {
        &&& r matches Notification::DeviceInfo(vals)
        &&& vals@ == info_values_of(m)
    } else {
        r == Notification::Unrecognized
    }
}

/// Decodes one notification frame.  Total: no frame is rejected with a panic
/// or an error; unknown and truncated frames come back `Unrecognized`.
pub fn decode_notification(msg: &Vec<u8>) -> (r: Notification)
    ensures
        decode_spec(msg@, r),
{
    if msg.len() < 3 {
        return Notification::Unrecognized;
    }
    let b0 = msg[0];
    let b1 = msg[1];
    let b2 = msg[2];
    if b0 != 0xab {
        return Notification::Unrecognized;
    }
    if b1 == 0x44 && b2 == 0x00 {
        if msg.len() < 39 {
            return Notification::Unrecognized;
        }
        Notification::Scan(read_scan_data(msg))
    } else if b1 == 0x20 && b2 == 0x2e {
        Notification::Calibrated
    } else if b1 == 0x20 && b2 == 0x0b {
        if msg.len() < 8 {
            return Notification::Unrecognized;
        }
        Notification::PowerLevel(read_i16_le(msg[6], msg[7]))
    } else if b1 == 0x40 && b2 == 0x00 {
        if msg.len() < 40 {
            return Notification::Unrecognized;
        }
        Notification::DeviceInfo(read_info_values(msg))
    } else {
        Notification::Unrecognized
    }
}

/// Reads the four color triples and the RGB bytes of a scan frame.
fn read_scan_data(msg: &Vec<u8>) -> (r: ScanData)
    requires
        is_scan_frame(msg@),
    ensures
        r == scan_data_of(msg@),
{
    let lab = read_scan_triple(msg, 0);
    let luv = read_scan_triple(msg, 1);
    let lch = read_scan_triple(msg, 2);
    let yxy = read_scan_triple(msg, 3);
    let rgb = Triple(msg[36], msg[37], msg[38]);
    ScanData { lab, luv, lch, yxy, rgb }
}

/// Reads color triple `k` of a scan frame.
fn read_scan_triple(msg: &Vec<u8>, k: usize) -> (r: Triple<i16>)
    requires
        is_scan_frame(msg@),
        k < 4,
    ensures
        r == scan_triple(msg@, k as int),
{
    let base: usize = 8 + 6 * k;
    Triple(
        read_i16_le(msg[base], msg[base + 1]),
        read_i16_le(msg[base + 2], msg[base + 3]),
        read_i16_le(msg[base + 4], msg[base + 5]),
    )
}

/// Reads the fifteen device-info values of an info frame.
fn read_info_values(msg: &Vec<u8>) -> (r: [i16; 15])
    requires
        is_info_frame(msg@),
    ensures
        r@ == info_values_of(msg@),
{
    let mut vals: [i16; 15] = [0; 15];
    let mut j: usize = 0;
    while j < 15
        invariant
            j <= 15,
            is_info_frame(msg@),
            forall|i: int| 0 <= i < j ==> vals@[i] == info_values_of(msg@)[i],
        decreases 15 - j,
    {
        vals[j] = read_i16_le(msg[10 + 2 * j], msg[10 + 2 * j + 1]);
        j = j + 1;
    }
    proof {
        assert(vals@ =~= info_values_of(msg@));
    }
    vals
}

/// Parses a scan-result frame into a result numbered `idx`.
pub fn parse_scan_result(idx: usize, msg: &Vec<u8>) -> (r: ScanResult)
    requires
        is_scan_frame(msg@),
    ensures
        r == scan_result_of(msg@, idx),
{
    let data = read_scan_data(msg);
    data.into_result(idx)
}

// ---------------------------------------------------------------------------
// Round-tripping the color triples (fixed-point scale 100)
// ---------------------------------------------------------------------------

/// The little-endian bytes of one color triple.
pub open spec fn triple_le_bytes(t: Triple<i16>) -> Seq<u8> {
    seq![le_lo(t.0), le_hi(t.0), le_lo(t.1), le_hi(t.1), le_lo(t.2), le_hi(t.2)]
}

/// Encodes one color triple as its six little-endian bytes.
pub fn encode_triple(t: &Triple<i16>) -> (r: Vec<u8>)
    ensures
        r@ == triple_le_bytes(*t),
{
    let (l0, h0) = write_i16_le(t.0);
    let (l1, h1) = write_i16_le(t.1);
    let (l2, h2) = write_i16_le(t.2);
    let v: Vec<u8> = vec![l0, h0, l1, h1, l2, h2];
    proof {
        assert(v@ =~= triple_le_bytes(*t));
    }
    v
}

/// Law: for every valid scan frame, decoding the four color triples and
/// encoding them again reproduces the frame's triple bytes (offsets 8..32)
/// exactly — the fixed-point scale-100 representation loses nothing.
pub proof fn lemma_scan_triples_roundtrip(m: Seq<u8>)
    requires
        is_scan_frame(m),
    ensures
        triple_le_bytes(scan_triple(m, 0)) + triple_le_bytes(scan_triple(m, 1))
            + triple_le_bytes(scan_triple(m, 2)) + triple_le_bytes(scan_triple(m, 3))
            == m.subrange(8, 32),
{
    assert forall|j: int| 0 <= j < 12 implies {
        &&& le_lo(scan_component(m, j)) == m[8 + 2 * j]
        &&& le_hi(scan_component(m, j)) == m[8 + 2 * j + 1]
    } by {
        lemma_le_decode_encode(m[8 + 2 * j], m[8 + 2 * j + 1]);
    }
    assert(triple_le_bytes(scan_triple(m, 0)) + triple_le_bytes(scan_triple(m, 1))
        + triple_le_bytes(scan_triple(m, 2)) + triple_le_bytes(scan_triple(m, 3))
        =~= m.subrange(8, 32));
}

/// Law: encoding a color triple and decoding the bytes again yields the same
/// triple.
pub proof fn lemma_triple_encode_decode(t: Triple<i16>)
    ensures
        ({
            let b = triple_le_bytes(t);
            Triple(i16_of_le(b[0], b[1]), i16_of_le(b[2], b[3]), i16_of_le(b[4], b[5])) == t
        }),
{
    lemma_le_encode_decode(t.0);
    lemma_le_encode_decode(t.1);
    lemma_le_encode_decode(t.2);
}

} // verus!
