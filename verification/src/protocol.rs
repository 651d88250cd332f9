//! Wire formats spoken with Betaflight SITL over UDP.
//!
//! All multi-byte values travel little-endian. Floating-point values are
//! carried through this module as their IEEE-754 bit patterns (`f64::to_bits`,
//! `f32::from_bits`), so the packet layout is stated and proved on integers.
use vstd::prelude::*;

verus! {

/// Number of RC channels in an RC packet.
pub const RC_CHANNEL_COUNT: usize = 16;

/// Number of motor outputs in a motor packet.
pub const MOTOR_COUNT: usize = 4;

/// Size of an RC packet: one `f64` timestamp and sixteen `u16` channels.
pub const RC_PACKET_SIZE: usize = 40;

/// Size of an FDM packet: eighteen `f64` values.
pub const FDM_PACKET_SIZE: usize = 144;

/// Minimum size of a motor packet: four `f32` values.
pub const MOTOR_PACKET_SIZE: usize = 16;

/// Number of `f64` words in an FDM packet, in wire order: timestamp,
/// angular velocity (3), linear acceleration (3), orientation quaternion (4),
/// velocity (3), position (3), pressure.
pub const FDM_WORD_COUNT: usize = 18;

// ---------------------------------------------------------------------------
// Little-endian byte model
// ---------------------------------------------------------------------------

/// Byte `i` (least significant first) of a 64-bit value.
pub open spec fn le_byte_u64(value: u64, i: int) -> u8 {
    ((value >> ((8 * i) as u64)) & 0xff) as u8
}

/// Byte `i` (least significant first) of a 16-bit value.
pub open spec fn le_byte_u16(value: u16, i: int) -> u8 {
    ((value >> ((8 * i) as u16)) & 0xff) as u8
}

/// The 16-bit value whose little-endian bytes are `b0, b1`.
pub open spec fn u16_from_le(b0: u8, b1: u8) -> u16 {
    (b0 as u16) | ((b1 as u16) << 8u16)
}

/// The 32-bit value whose little-endian bytes are `b0 .. b3`.
pub open spec fn u32_from_le(b0: u8, b1: u8, b2: u8, b3: u8) -> u32 {
    (b0 as u32) | ((b1 as u32) << 8u32) | ((b2 as u32) << 16u32) | ((b3 as u32) << 24u32)
}

/// The 64-bit value whose little-endian bytes are the first eight of `b`.
pub open spec fn u64_from_le(b: Seq<u8>) -> u64 {
    u64_from_le_bytes(b[0], b[1], b[2], b[3], b[4], b[5], b[6], b[7])
}

/// The 64-bit value whose little-endian bytes are `b0 .. b7`.
pub open spec fn u64_from_le_bytes(
    b0: u8,
    b1: u8,
    b2: u8,
    b3: u8,
    b4: u8,
    b5: u8,
    b6: u8,
    b7: u8,
) -> u64 {
    (b0 as u64) | ((b1 as u64) << 8u64) | ((b2 as u64) << 16u64) | ((b3 as u64) << 24u64) | ((
    b4 as u64) << 32u64) | ((b5 as u64) << 40u64) | ((b6 as u64) << 48u64) | ((b7 as u64)
        << 56u64)
}

/// Reading back the two little-endian bytes of a `u16` gives the value.
pub proof fn lemma_u16_le_round_trip(value: u16)
    ensures
        u16_from_le(le_byte_u16(value, 0), le_byte_u16(value, 1)) == value,
{
    assert(((((value >> 0u16) & 0xff) as u8) as u16) | (((((value >> 8u16) & 0xff) as u8) as u16)
        << 8u16) == value) by (bit_vector);
}

/// Reading back the eight little-endian bytes of a `u64` gives the value.
pub proof fn lemma_u64_le_round_trip(value: u64)
    ensures
        u64_from_le_bytes(
            le_byte_u64(value, 0),
            le_byte_u64(value, 1),
            le_byte_u64(value, 2),
            le_byte_u64(value, 3),
            le_byte_u64(value, 4),
            le_byte_u64(value, 5),
            le_byte_u64(value, 6),
            le_byte_u64(value, 7),
        ) == value,
{
    assert(((((value >> 0u64) & 0xff) as u8) as u64) | (((((value >> 8u64) & 0xff) as u8) as u64)
        << 8u64) | (((((value >> 16u64) & 0xff) as u8) as u64) << 16u64) | (((((value >> 24u64)
        & 0xff) as u8) as u64) << 24u64) | (((((value >> 32u64) & 0xff) as u8) as u64) << 32u64)
        | (((((value >> 40u64) & 0xff) as u8) as u64) << 40u64) | (((((value >> 48u64) & 0xff)
        as u8) as u64) << 48u64) | (((((value >> 56u64) & 0xff) as u8) as u64) << 56u64) == value)
        by (bit_vector);
}

// ---------------------------------------------------------------------------
// RC packet
// ---------------------------------------------------------------------------

/// Byte `j` of the RC packet for the given timestamp bits and channels:
/// the timestamp's eight bytes, then each channel's two bytes in order.
pub open spec fn rc_packet_byte(timestamp_bits: u64, channels: Seq<u16>, j: int) -> u8 {
    if j < 8 {
        le_byte_u64(timestamp_bits, j)
    } else {
        le_byte_u16(channels[(j - 8) / 2], (j - 8) % 2)
    }
}

/// Encodes the RC packet that Betaflight SITL reads on its RC port.
///
/// `timestamp_bits` is the bit pattern of the `f64` timestamp in seconds.
pub fn encode_rc_packet(timestamp_bits: u64, channels: &[u16; RC_CHANNEL_COUNT]) -> (packet: [u8;
    RC_PACKET_SIZE])
    ensures
        forall|j: int| 0 <= j < RC_PACKET_SIZE ==> #[trigger] packet[j] == rc_packet_byte(
            timestamp_bits,
            channels@,
            j,
        ),
{
    let mut packet = [0u8; RC_PACKET_SIZE];
    let mut k: usize = 0;
    while k < 8
        invariant
            k <= 8,
            forall|j: int| 0 <= j < k ==> #[trigger] packet[j] == rc_packet_byte(
                timestamp_bits,
                channels@,
                j,
            ),
        decreases 8 - k,
    {
        let shift: u64 = 8 * k as u64;
        packet[k] = ((timestamp_bits >> shift) & 0xff) as u8;
        k = k + 1;
    }
    let mut index: usize = 0;
    while index < RC_CHANNEL_COUNT
        invariant
            index <= RC_CHANNEL_COUNT,
            forall|j: int| 0 <= j < 8 + 2 * index ==> #[trigger] packet[j] == rc_packet_byte(
                timestamp_bits,
                channels@,
                j,
            ),
        decreases RC_CHANNEL_COUNT - index,
    {
        let value = channels[index];
        let offset = 8 + index * 2;
        packet[offset] = (value & 0xff) as u8;
        packet[offset + 1] = ((value >> 8u16) & 0xff) as u8;
        assert(rc_packet_byte(timestamp_bits, channels@, offset as int) == le_byte_u16(value, 0));
        assert(rc_packet_byte(timestamp_bits, channels@, offset + 1) == le_byte_u16(value, 1));
        assert(value >> 0u16 == value) by (bit_vector);
        index = index + 1;
    }
    packet
}

/// The RC packet is laid out so that reading back the timestamp bytes gives
/// the timestamp, and reading back the two bytes of channel `c` (at offset
/// `8 + 2c`) gives that channel's value.
pub proof fn lemma_rc_packet_reads_back(timestamp_bits: u64, channels: Seq<u16>, c: int)
    requires
        channels.len() == RC_CHANNEL_COUNT,
        0 <= c < RC_CHANNEL_COUNT,
    ensures
        u64_from_le_bytes(
            rc_packet_byte(timestamp_bits, channels, 0),
            rc_packet_byte(timestamp_bits, channels, 1),
            rc_packet_byte(timestamp_bits, channels, 2),
            rc_packet_byte(timestamp_bits, channels, 3),
            rc_packet_byte(timestamp_bits, channels, 4),
            rc_packet_byte(timestamp_bits, channels, 5),
            rc_packet_byte(timestamp_bits, channels, 6),
            rc_packet_byte(timestamp_bits, channels, 7),
        ) == timestamp_bits,
        u16_from_le(
            rc_packet_byte(timestamp_bits, channels, 8 + 2 * c),
            rc_packet_byte(timestamp_bits, channels, 9 + 2 * c),
        ) == channels[c],
{
    lemma_u64_le_round_trip(timestamp_bits);
    assert((8 + 2 * c - 8) / 2 == c);
    assert((9 + 2 * c - 8) / 2 == c);
    assert((8 + 2 * c - 8) % 2 == 0);
    assert((9 + 2 * c - 8) % 2 == 1);
    lemma_u16_le_round_trip(channels[c]);
}


// ---------------------------------------------------------------------------
// FDM packet
// ---------------------------------------------------------------------------

/// Byte `j` of the FDM packet for the given words: each word's eight bytes,
/// word after word.
pub open spec fn fdm_packet_byte(words: Seq<u64>, j: int) -> u8 {
    le_byte_u64(words[j / 8], j % 8)
}

/// Writes the eight little-endian bytes of `value` at `*offset` and advances
/// the offset past them.
pub fn write_u64_le(output: &mut [u8], offset: &mut usize, value: u64)
    requires
        *old(offset) + 8 <= old(output)@.len(),
    ensures
        *final(offset) == *old(offset) + 8,
        final(output)@.len() == old(output)@.len(),
        forall|j: int|
            0 <= j < old(output)@.len() ==> #[trigger] final(output)@[j] == if *old(offset) <= j
                < *old(offset) + 8 {
                le_byte_u64(value, j - *old(offset))
            } else {
                old(output)@[j]
            },
{
    let start = *offset;
    let len = output.len();
    let mut k: usize = 0;
    while k < 8
        invariant
            k <= 8,
            start == *old(offset),
            start + 8 <= output@.len(),
            output@.len() == old(output)@.len(),
            len == output@.len(),
            forall|j: int|
                0 <= j < output@.len() ==> #[trigger] output@[j] == if start <= j < start + k {
                    le_byte_u64(value, j - start)
                } else {
                    old(output)@[j]
                },
        decreases 8 - k,
    {
        let shift: u64 = 8 * k as u64;
        output[start + k] = ((value >> shift) & 0xff) as u8;
        k = k + 1;
    }
    *offset = start + 8;
}

/// Encodes an FDM packet from the bit patterns of its eighteen `f64` words,
/// in wire order (see [`FDM_WORD_COUNT`]).
pub fn encode_fdm_packet(words: &[u64; FDM_WORD_COUNT]) -> (packet: [u8; FDM_PACKET_SIZE])
    ensures
        forall|j: int| 0 <= j < FDM_PACKET_SIZE ==> #[trigger] packet[j] == fdm_packet_byte(
            words@,
            j,
        ),
{
    let mut packet = [0u8; FDM_PACKET_SIZE];
    let mut offset: usize = 0;
    let mut w: usize = 0;
    while w < FDM_WORD_COUNT
        invariant
            w <= FDM_WORD_COUNT,
            offset == 8 * w,
            forall|j: int| 0 <= j < offset ==> #[trigger] packet[j] == fdm_packet_byte(words@, j),
        decreases FDM_WORD_COUNT - w,
    {
        let ghost before = packet@;
        write_u64_le(&mut packet, &mut offset, words[w]);
        assert forall|j: int| 0 <= j < offset implies #[trigger] packet[j] == fdm_packet_byte(
            words@,
            j,
        ) by {
            if j >= 8 * w {
                assert(j / 8 == w && j % 8 == j - 8 * w);
            } else {
                assert(packet@[j] == before[j]);
            }
        }
        w = w + 1;
    }
    packet
}

/// Reading back the eight bytes of word `w` of an FDM packet gives the word.
pub proof fn lemma_fdm_packet_reads_back(words: Seq<u64>, w: int)
    requires
        words.len() == FDM_WORD_COUNT,
        0 <= w < FDM_WORD_COUNT,
    ensures
        u64_from_le_bytes(
            fdm_packet_byte(words, 8 * w),
            fdm_packet_byte(words, 8 * w + 1),
            fdm_packet_byte(words, 8 * w + 2),
            fdm_packet_byte(words, 8 * w + 3),
            fdm_packet_byte(words, 8 * w + 4),
            fdm_packet_byte(words, 8 * w + 5),
            fdm_packet_byte(words, 8 * w + 6),
            fdm_packet_byte(words, 8 * w + 7),
        ) == words[w],
{
    assert((8 * w + 0) / 8 == w && (8 * w + 0) % 8 == 0);
    assert((8 * w + 1) / 8 == w && (8 * w + 1) % 8 == 1);
    assert((8 * w + 2) / 8 == w && (8 * w + 2) % 8 == 2);
    assert((8 * w + 3) / 8 == w && (8 * w + 3) % 8 == 3);
    assert((8 * w + 4) / 8 == w && (8 * w + 4) % 8 == 4);
    assert((8 * w + 5) / 8 == w && (8 * w + 5) % 8 == 5);
    assert((8 * w + 6) / 8 == w && (8 * w + 6) % 8 == 6);
    assert((8 * w + 7) / 8 == w && (8 * w + 7) % 8 == 7);
    lemma_u64_le_round_trip(words[w]);
}

// ---------------------------------------------------------------------------
// Motor packet
// ---------------------------------------------------------------------------

/// The bit pattern of motor `m` in a motor packet: the little-endian `f32`
/// at offset `4m`.
pub open spec fn motor_word(input: Seq<u8>, m: int) -> u32 {
    u32_from_le(input[4 * m], input[4 * m + 1], input[4 * m + 2], input[4 * m + 3])
}

/// Decodes the four motor outputs of a SITL motor packet, as `f32` bit
/// patterns. Bytes past the first sixteen are ignored; a shorter input is
/// rejected.
pub fn decode_motor_packet(input: &[u8]) -> (motors: Option<[u32; MOTOR_COUNT]>)
    ensures
        motors is Some <==> input@.len() >= MOTOR_PACKET_SIZE,
        motors matches Some(words) ==> forall|m: int|
            0 <= m < MOTOR_COUNT ==> #[trigger] words[m] == motor_word(input@, m),
{
    if input.len() < MOTOR_PACKET_SIZE {
        return None;
    }
    let mut motors = [0u32; MOTOR_COUNT];
    let mut index: usize = 0;
    while index < MOTOR_COUNT
        invariant
            index <= MOTOR_COUNT,
            input@.len() >= MOTOR_PACKET_SIZE,
            forall|m: int| 0 <= m < index ==> #[trigger] motors[m] == motor_word(input@, m),
        decreases MOTOR_COUNT - index,
    {
        let offset = index * 4;
        motors[index] = (input[offset] as u32) | ((input[offset + 1] as u32) << 8u32) | ((
        input[offset + 2] as u32) << 16u32) | ((input[offset + 3] as u32) << 24u32);
        index = index + 1;
    }
    Some(motors)
}

/// Byte `j` of the little-endian encoding of four `f32` bit patterns, as
/// Betaflight SITL sends them.
pub open spec fn motor_packet_byte(words: Seq<u32>, j: int) -> u8 {
    ((words[j / 4] >> ((8 * (j % 4)) as u32)) & 0xff) as u8
}

/// Decoding the little-endian encoding of four motor words gives the words
/// back.
pub proof fn lemma_motor_packet_round_trip(words: Seq<u32>, input: Seq<u8>, m: int)
    requires
        words.len() == MOTOR_COUNT,
        input.len() >= MOTOR_PACKET_SIZE,
        forall|j: int| 0 <= j < MOTOR_PACKET_SIZE ==> #[trigger] input[j] == motor_packet_byte(
            words,
            j,
        ),
        0 <= m < MOTOR_COUNT,
    ensures
        motor_word(input, m) == words[m],
{
    let v = words[m];
    assert(input[4 * m] == motor_packet_byte(words, 4 * m));
    assert(input[4 * m + 1] == motor_packet_byte(words, 4 * m + 1));
    assert(input[4 * m + 2] == motor_packet_byte(words, 4 * m + 2));
    assert(input[4 * m + 3] == motor_packet_byte(words, 4 * m + 3));
    assert((4 * m) / 4 == m && (4 * m) % 4 == 0);
    assert((4 * m + 1) / 4 == m && (4 * m + 1) % 4 == 1);
    assert((4 * m + 2) / 4 == m && (4 * m + 2) % 4 == 2);
    assert((4 * m + 3) / 4 == m && (4 * m + 3) % 4 == 3);
    assert(((((v >> 0u32) & 0xff) as u8) as u32) | (((((v >> 8u32) & 0xff) as u8) as u32) << 8u32)
        | (((((v >> 16u32) & 0xff) as u8) as u32) << 16u32) | (((((v >> 24u32) & 0xff) as u8)
        as u32) << 24u32) == v) by (bit_vector);
}

} // verus!
