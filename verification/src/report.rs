//! Report builder: assembles confirmed channel state and quantized axis
//! values into fixed-layout HID report buffers whose bit positions match
//! the published report descriptor exactly.
//!
//! Button bits are packed least-significant-bit first per byte, in channel
//! declaration order, and padding bits up to the next byte boundary are
//! always zero.  Serialization is explicit, field by field, so the wire
//! layout never depends on in-memory struct layout or alignment.
//!
//! Profiles covered:
//!
//! * full-state joystick: three signed axis bytes followed by 23 button
//!   bits in 3 bytes with one trailing pad bit ([`JoystickReport`]);
//! * buttons-only profiles of any count, through [`pack_bits`];
//! * single-event toggle: a 4-byte mask with exactly one meaningful bit
//!   per channel, all-zero on release ([`build_toggle_report`]);
//! * boot keyboard: modifier byte, reserved byte, six keycode slots
//!   ([`build_keyboard_report`]).

use vstd::prelude::*;

verus! {

/// The value of one logical level as a bit: `1` when the level at `i`
/// exists and is high, `0` otherwise.
pub open spec fn bit_u8(levels: Seq<bool>, i: int) -> u8 {
    if 0 <= i < levels.len() && levels[i] {
        1u8
    } else {
        0u8
    }
}

/// Byte `b` of the packed button field: bits of channels `8*b .. 8*b+7`,
/// least significant bit first.
#[verifier::opaque]
pub open spec fn packed_byte(levels: Seq<bool>, b: int) -> u8 {
    bit_u8(levels, 8 * b) | (bit_u8(levels, 8 * b + 1) << 1u8) | (bit_u8(levels, 8 * b + 2)
        << 2u8) | (bit_u8(levels, 8 * b + 3) << 3u8) | (bit_u8(levels, 8 * b + 4) << 4u8) | (
    bit_u8(levels, 8 * b + 5) << 5u8) | (bit_u8(levels, 8 * b + 6) << 6u8) | (bit_u8(
        levels,
        8 * b + 7,
    ) << 7u8)
}

/// Number of bytes needed to hold `n` bits.
pub open spec fn packed_len(n: int) -> int {
    (n + 7) / 8
}

/// The whole packed button field of a level vector.
pub open spec fn packed_bits(levels: Seq<bool>) -> Seq<u8> {
    Seq::new(packed_len(levels.len() as int) as nat, |b: int| packed_byte(levels, b))
}

/// Whether bit `i` (counted least-significant-bit first across the whole
/// byte sequence) is set.
pub open spec fn bit_of(bytes: Seq<u8>, i: int) -> bool
    recommends
        0 <= i < 8 * bytes.len(),
{
    ((bytes[i / 8] >> ((i % 8) as u8)) & 1) == 1
}

/// Reading one bit back out of a byte assembled from eight single-bit
/// values, least significant first.
proof fn lemma_or_bits(b0: u8, b1: u8, b2: u8, b3: u8, b4: u8, b5: u8, b6: u8, b7: u8, k: u8)
    by (bit_vector)
    requires
        b0 <= 1,
        b1 <= 1,
        b2 <= 1,
        b3 <= 1,
        b4 <= 1,
        b5 <= 1,
        b6 <= 1,
        b7 <= 1,
        k < 8,
    ensures
        k == 0 ==> ((b0 | (b1 << 1u8) | (b2 << 2u8) | (b3 << 3u8) | (b4 << 4u8) | (b5 << 5u8) | (
        b6 << 6u8) | (b7 << 7u8)) >> k) & 1 == b0,
        k == 1 ==> ((b0 | (b1 << 1u8) | (b2 << 2u8) | (b3 << 3u8) | (b4 << 4u8) | (b5 << 5u8) | (
        b6 << 6u8) | (b7 << 7u8)) >> k) & 1 == b1,
        k == 2 ==> ((b0 | (b1 << 1u8) | (b2 << 2u8) | (b3 << 3u8) | (b4 << 4u8) | (b5 << 5u8) | (
        b6 << 6u8) | (b7 << 7u8)) >> k) & 1 == b2,
        k == 3 ==> ((b0 | (b1 << 1u8) | (b2 << 2u8) | (b3 << 3u8) | (b4 << 4u8) | (b5 << 5u8) | (
        b6 << 6u8) | (b7 << 7u8)) >> k) & 1 == b3,
        k == 4 ==> ((b0 | (b1 << 1u8) | (b2 << 2u8) | (b3 << 3u8) | (b4 << 4u8) | (b5 << 5u8) | (
        b6 << 6u8) | (b7 << 7u8)) >> k) & 1 == b4,
        k == 5 ==> ((b0 | (b1 << 1u8) | (b2 << 2u8) | (b3 << 3u8) | (b4 << 4u8) | (b5 << 5u8) | (
        b6 << 6u8) | (b7 << 7u8)) >> k) & 1 == b5,
        k == 6 ==> ((b0 | (b1 << 1u8) | (b2 << 2u8) | (b3 << 3u8) | (b4 << 4u8) | (b5 << 5u8) | (
        b6 << 6u8) | (b7 << 7u8)) >> k) & 1 == b6,
        k == 7 ==> ((b0 | (b1 << 1u8) | (b2 << 2u8) | (b3 << 3u8) | (b4 << 4u8) | (b5 << 5u8) | (
        b6 << 6u8) | (b7 << 7u8)) >> k) & 1 == b7,
{
}

/// Bit `k` of packed byte `b` is exactly the level of channel `8*b + k`.
proof fn lemma_packed_byte_bit(levels: Seq<bool>, b: int, k: int)
    requires
        0 <= b,
        0 <= k < 8,
    ensures
        ((packed_byte(levels, b) >> (k as u8)) & 1) == bit_u8(levels, 8 * b + k),
{
    reveal(packed_byte);
    lemma_or_bits(
        bit_u8(levels, 8 * b),
        bit_u8(levels, 8 * b + 1),
        bit_u8(levels, 8 * b + 2),
        bit_u8(levels, 8 * b + 3),
        bit_u8(levels, 8 * b + 4),
        bit_u8(levels, 8 * b + 5),
        bit_u8(levels, 8 * b + 6),
        bit_u8(levels, 8 * b + 7),
        k as u8,
    );
}

/// Bit `i` of the packed button field is the level of channel `i`; bits
/// beyond the channel count, up to the last byte boundary, are zero.
pub proof fn lemma_packed_bits_bit(levels: Seq<bool>, i: int)
    requires
        0 <= i < 8 * packed_len(levels.len() as int),
    ensures
        bit_of(packed_bits(levels), i) == (i < levels.len() && levels[i]),
{
    let b = i / 8;
    let k = i % 8;
    assert(i == 8 * b + k);
    assert(0 <= b < packed_len(levels.len() as int));
    lemma_packed_byte_bit(levels, b, k);
    assert(packed_bits(levels)[b] == packed_byte(levels, b));
}

/// Every channel index lies inside the packed field.
pub proof fn lemma_packed_len_covers(n: int)
    requires
        0 <= n,
    ensures
        n <= 8 * packed_len(n),
        8 * packed_len(n) < n + 8,
{
}

/// `1` when the level at `i` exists and is high, `0` otherwise.
fn level_bit(levels: &Vec<bool>, i: usize) -> (r: u8)
    ensures
        r == bit_u8(levels@, i as int),
{
    if i < levels.len() && levels[i] {
        1
    } else {
        0
    }
}

/// Pack a vector of logical levels into bytes, least-significant-bit
/// first, padding the last byte with zero bits.  Bit `i` of the result is
/// exactly `levels[i]`.
pub fn pack_bits(levels: &Vec<bool>) -> (bytes: Vec<u8>)
    requires
        levels.len() <= usize::MAX - 7,
    ensures
        bytes@ == packed_bits(levels@),
        bytes@.len() == packed_len(levels@.len() as int),
        forall|i: int| 0 <= i < levels@.len() ==> bit_of(bytes@, i) == levels@[i],
        forall|i: int| levels@.len() <= i < 8 * bytes@.len() ==> !bit_of(bytes@, i),
{
    let n: usize = levels.len();
    let nbytes: usize = n / 8 + if n % 8 == 0 {
        0
    } else {
        1
    };
    assert(nbytes == packed_len(n as int));
    let mut bytes: Vec<u8> = Vec::new();
    let mut b: usize = 0;
    while b < nbytes
        invariant
            n == levels.len(),
            n <= usize::MAX - 7,
            nbytes == packed_len(n as int),
            8 * nbytes < n + 8,
            bytes.len() == b,
            b <= nbytes,
            forall|j: int| 0 <= j < b ==> bytes@[j] == packed_byte(levels@, j),
        decreases nbytes - b,
    {
        let base: usize = 8 * b;
        let v: u8 = level_bit(levels, base) | (level_bit(levels, base + 1) << 1u8) | (level_bit(
            levels,
            base + 2,
        ) << 2u8) | (level_bit(levels, base + 3) << 3u8) | (level_bit(levels, base + 4) << 4u8) | (
        level_bit(levels, base + 5) << 5u8) | (level_bit(levels, base + 6) << 6u8) | (level_bit(
            levels,
            base + 7,
        ) << 7u8);
        assert(v == packed_byte(levels@, b as int)) by {
            reveal(packed_byte);
        }
        bytes.push(v);
        b = b + 1;
    }
    assert(bytes@ =~= packed_bits(levels@));
    proof {
        lemma_packed_len_covers(n as int);
        assert forall|i: int| 0 <= i < 8 * bytes@.len() implies bit_of(bytes@, i) == (i
            < levels@.len() && levels@[i]) by {
            lemma_packed_bits_bit(levels@, i);
        }
    }
    bytes
}

/// Full-state joystick report: three signed axis bytes and 23 button bits
/// packed into 3 bytes, one trailing pad bit always zero.
#[derive(Clone, Copy, Debug)]
pub struct JoystickReport {
    pub axis_x: i8,
    pub axis_y: i8,
    pub axis_z: i8,
    pub buttons: [u8; 3],
}

impl PartialEq for JoystickReport {
    fn eq(&self, other: &Self) -> (r: bool) {
        self.axis_x == other.axis_x && self.axis_y == other.axis_y && self.axis_z == other.axis_z
            && self.buttons[0] == other.buttons[0] && self.buttons[1] == other.buttons[1]
            && self.buttons[2] == other.buttons[2]
    }
}

impl vstd::std_specs::cmp::PartialEqSpecImpl for JoystickReport {
    open spec fn obeys_eq_spec() -> bool {
        true
    }

    open spec fn eq_spec(&self, other: &Self) -> bool {
        self.axis_x == other.axis_x && self.axis_y == other.axis_y && self.axis_z == other.axis_z
            && self.buttons@[0] == other.buttons@[0] && self.buttons@[1] == other.buttons@[1]
            && self.buttons@[2] == other.buttons@[2]
    }
}

impl Eq for JoystickReport {
}

impl Default for JoystickReport {
    /// The rest state: every axis at the logical minimum, no button held.
    fn default() -> (r: Self)
        ensures
            r.axis_x == -127 && r.axis_y == -127 && r.axis_z == -127,
            r.buttons@ =~= seq![0u8, 0u8, 0u8],
    {
        JoystickReport { axis_x: -127, axis_y: -127, axis_z: -127, buttons: [0, 0, 0] }
    }
}

/// Number of button channels in the full-state joystick profile.
pub const JOYSTICK_BUTTON_COUNT: usize = 23;

/// Build the full-state report from the confirmed levels of all 23 button
/// channels and the three quantized axis values.  Bit `i` of the button
/// field is channel `i`'s confirmed level; the single pad bit is zero.
pub fn build_full_state(levels: &Vec<bool>, axis_x: i8, axis_y: i8, axis_z: i8) -> (r:
    JoystickReport)
    requires
        levels.len() == JOYSTICK_BUTTON_COUNT,
    ensures
        r.axis_x == axis_x,
        r.axis_y == axis_y,
        r.axis_z == axis_z,
        r.buttons@ == packed_bits(levels@),
        forall|i: int| 0 <= i < levels@.len() ==> bit_of(r.buttons@, i) == levels@[i],
        !bit_of(r.buttons@, 23),
{
    let bytes = pack_bits(levels);
    let r = JoystickReport { axis_x, axis_y, axis_z, buttons: [bytes[0], bytes[1], bytes[2]] };
    proof {
        assert(bytes@.len() == 3);
        assert(r.buttons@[0] == bytes@[0]);
        assert(r.buttons@[1] == bytes@[1]);
        assert(r.buttons@[2] == bytes@[2]);
        assert(r.buttons@ =~= bytes@);
    }
    r
}

/// The wire byte of a signed axis value: its two's-complement image.
pub open spec fn axis_byte(v: i8) -> u8 {
    if v >= 0 {
        v as u8
    } else {
        (v + 256) as u8
    }
}

/// Encode one signed axis value as its report byte.
fn encode_axis(v: i8) -> (b: u8)
    ensures
        b == axis_byte(v),
{
    if v >= 0 {
        v as u8
    } else {
        ((v as i16) + 256) as u8
    }
}

/// The exact wire image of a full-state report: axis bytes first, then the
/// three button bytes.
pub open spec fn report_bytes(r: JoystickReport) -> Seq<u8> {
    seq![
        axis_byte(r.axis_x),
        axis_byte(r.axis_y),
        axis_byte(r.axis_z),
        r.buttons@[0],
        r.buttons@[1],
        r.buttons@[2],
    ]
}

/// Serialize a full-state report into the 6 wire bytes declared by the
/// report descriptor, field by field.
pub fn serialize_report(r: &JoystickReport) -> (bytes: Vec<u8>)
    ensures
        bytes@ == report_bytes(*r),
{
    let mut bytes: Vec<u8> = Vec::new();
    bytes.push(encode_axis(r.axis_x));
    bytes.push(encode_axis(r.axis_y));
    bytes.push(encode_axis(r.axis_z));
    bytes.push(r.buttons[0]);
    bytes.push(r.buttons[1]);
    bytes.push(r.buttons[2]);
    assert(bytes@ =~= report_bytes(*r));
    bytes
}

/// The wire bytes of the full-state report built from a given channel
/// state: what one sampling cycle puts on the bus.
pub open spec fn full_state_bytes(levels: Seq<bool>, x: i8, y: i8, z: i8) -> Seq<u8> {
    seq![axis_byte(x), axis_byte(y), axis_byte(z)] + packed_bits(levels)
}

/// Building and serializing are deterministic: the wire bytes are a
/// function of the channel state alone, so an unchanged state always
/// yields byte-identical reports.
pub proof fn lemma_builder_deterministic(levels: Seq<bool>, x: i8, y: i8, z: i8, r1: JoystickReport, r2: JoystickReport)
    requires
        r1.axis_x == x && r1.axis_y == y && r1.axis_z == z,
        r2.axis_x == x && r2.axis_y == y && r2.axis_z == z,
        r1.buttons@ == packed_bits(levels),
        r2.buttons@ == packed_bits(levels),
        levels.len() == JOYSTICK_BUTTON_COUNT,
    ensures
        report_bytes(r1) == report_bytes(r2),
        report_bytes(r1) == full_state_bytes(levels, x, y, z),
{
    assert(report_bytes(r1) =~= report_bytes(r2));
    assert(report_bytes(r1) =~= full_state_bytes(levels, x, y, z));
}

/// A confirmed change on any button channel changes the wire image: two
/// cycles whose levels differ on some channel never serialize to the same
/// bytes, whatever the axes do.
pub proof fn lemma_change_changes_report(
    l1: Seq<bool>,
    l2: Seq<bool>,
    x1: i8,
    y1: i8,
    z1: i8,
    x2: i8,
    y2: i8,
    z2: i8,
    i: int,
)
    requires
        l1.len() == JOYSTICK_BUTTON_COUNT,
        l2.len() == JOYSTICK_BUTTON_COUNT,
        0 <= i < JOYSTICK_BUTTON_COUNT,
        l1[i] != l2[i],
    ensures
        full_state_bytes(l1, x1, y1, z1) != full_state_bytes(l2, x2, y2, z2),
{
    lemma_packed_bits_bit(l1, i);
    lemma_packed_bits_bit(l2, i);
    if full_state_bytes(l1, x1, y1, z1) == full_state_bytes(l2, x2, y2, z2) {
        assert(full_state_bytes(l1, x1, y1, z1)[3 + i / 8] == full_state_bytes(
            l2,
            x2,
            y2,
            z2,
        )[3 + i / 8]);
        assert(packed_bits(l1)[i / 8] == packed_bits(l2)[i / 8]);
        assert(bit_of(packed_bits(l1), i) == bit_of(packed_bits(l2), i));
    }
}

/// Single-event toggle mask: channel `c` owns bit `c % 8` of byte
/// `3 - c / 8` in a 4-byte mask; a release is the all-zero mask.
pub open spec fn toggle_bytes(channel: int, pressed: bool) -> Seq<u8>
    recommends
        0 <= channel < 32,
{
    Seq::new(
        4,
        |j: int|
            if pressed && 3 - channel / 8 == j {
                1u8 << ((channel % 8) as u8)
            } else {
                0u8
            },
    )
}

/// Build the single-event report for one channel: a 4-byte mask with
/// exactly the channel's own bit set on press, all zero on release.
pub fn build_toggle_report(channel: usize, pressed: bool) -> (bytes: Vec<u8>)
    requires
        channel < 32,
    ensures
        bytes@ == toggle_bytes(channel as int, pressed),
        bytes@.len() == 4,
        !pressed ==> forall|j: int| 0 <= j < 4 ==> bytes@[j] == 0u8,
{
    let mut bytes: Vec<u8> = Vec::new();
    let mut j: usize = 0;
    while j < 4
        invariant
            channel < 32,
            bytes.len() == j,
            j <= 4,
            forall|m: int| 0 <= m < j ==> bytes@[m] == toggle_bytes(channel as int, pressed)[m],
        decreases 4 - j,
    {
        if pressed && 3 - channel / 8 == j {
            bytes.push(1u8 << ((channel % 8) as u8));
        } else {
            bytes.push(0u8);
        }
        j = j + 1;
    }
    assert(bytes@ =~= toggle_bytes(channel as int, pressed));
    bytes
}

/// In single-event mode every transition yields its own report: the
/// press mask of a channel is never byte-identical to the release mask,
/// so a change-gated transmitter never suppresses the release.
pub proof fn lemma_toggle_press_release_differ(channel: int)
    requires
        0 <= channel < 32,
    ensures
        toggle_bytes(channel, true) != toggle_bytes(channel, false),
{
    let j = 3 - channel / 8;
    let k = (channel % 8) as u8;
    assert(k < 8);
    assert(1u8 << k != 0u8) by (bit_vector)
        requires
            k < 8,
    ;
    assert(toggle_bytes(channel, true)[j] != toggle_bytes(channel, false)[j]);
}

/// Build the standard 8-byte boot keyboard report: modifier byte, one
/// reserved zero byte, then up to six keycodes padded with zeros.
pub fn build_keyboard_report(modifier: u8, keys: &Vec<u8>) -> (bytes: Vec<u8>)
    requires
        keys.len() <= 6,
    ensures
        bytes@.len() == 8,
        bytes@[0] == modifier,
        bytes@[1] == 0u8,
        forall|i: int| 0 <= i < keys@.len() ==> bytes@[2 + i] == keys@[i],
        forall|i: int| keys@.len() <= i < 6 ==> #[trigger] bytes@[2 + i] == 0u8,
{
    let mut bytes: Vec<u8> = Vec::new();
    bytes.push(modifier);
    bytes.push(0);
    let mut i: usize = 0;
    while i < keys.len()
        invariant
            keys.len() <= 6,
            bytes.len() == 2 + i,
            i <= keys.len(),
            bytes@[0] == modifier,
            bytes@[1] == 0u8,
            forall|m: int| 0 <= m < i ==> bytes@[2 + m] == keys@[m],
        decreases keys.len() - i,
    {
        bytes.push(keys[i]);
        i = i + 1;
    }
    while i < 6
        invariant
            keys.len() <= i <= 6,
            bytes.len() == 2 + i,
            bytes@[0] == modifier,
            bytes@[1] == 0u8,
            forall|m: int| 0 <= m < keys@.len() ==> bytes@[2 + m] == keys@[m],
            forall|m: int| keys@.len() <= m < i ==> #[trigger] bytes@[2 + m] == 0u8,
        decreases 6 - i,
    {
        bytes.push(0);
        i = i + 1;
    }
    bytes
}

} // verus!

