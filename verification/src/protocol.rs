//! Binary framing of the screen service. Every frame starts with a 2-byte
//! big-endian command id and a 2-byte big-endian total length (command +
//! length + payload), followed by the payload. The one exception is the
//! PICTURE length field: when `6 + payload_length` exceeds `0xFFFF` the
//! length field holds the sentinel `0xFFFF` and the 32-bit payload-length
//! field inside the payload is authoritative.

use vstd::prelude::*;

verus! {

pub const MNG_KVM_PICTURE: u16 = 3;

pub const MNG_KVM_REFRESH: u16 = 6;

pub const MNG_KVM_SCREEN: u16 = 7;

pub const MNG_KVM_GET_DISPLAYS: u16 = 11;

pub const MNG_KVM_FRAME_RATE_TIMER: u8 = 13;

pub const MNG_KVM_INIT_TOUCH: u8 = 14;

pub const MNG_KVM_KEYSTATE: u8 = 18;

pub const MNG_KVM_AGENT_CONNECTED: u16 = 59;

pub const MNG_UPDATE_TEMP_WALLPAPER: u8 = 73;

pub const MNG_RESTORE_ORIGINAL_WALLPAPER: u8 = 74;

pub const MNG_KVM_DISPLAY_INFO: u16 = 82;

pub const MNG_KVM_MOUSE_CURSOR: u8 = 88;

pub const MNG_KVM_CURSOR_CONTROL: u8 = 144;

/// Minimum interval between processed input batches, in milliseconds.
pub const INPUT_DEBOUNCE_MS: u64 = 10;

/// One monitor: even width and height, and its origin in the virtual
/// desktop.
#[derive(Debug, Clone, Copy, PartialEq, Eq, Structural)]
pub struct DisplayInfo {
    pub width: u16,
    pub height: u16,
    pub x: i32,
    pub y: i32,
}

// ---------------------------------------------------------------------------
// Big-endian integer fields
// ---------------------------------------------------------------------------
/// The two big-endian bytes of a 16-bit value.
pub open spec fn spec_u16_be(x: u16) -> Seq<u8> {
    seq![(x / 256) as u8, (x % 256) as u8]
}

/// The 16-bit value read from two big-endian bytes.
pub open spec fn spec_u16_from_be(b0: u8, b1: u8) -> u16 {
    ((b0 as u16) * 256 + (b1 as u16)) as u16
}

/// Writing a 16-bit value big-endian and reading it back is the identity.
pub proof fn lemma_u16_be_round_trip(x: u16)
    ensures
        spec_u16_from_be(spec_u16_be(x)[0], spec_u16_be(x)[1]) == x,
{
}

/// The four big-endian bytes of a 32-bit value.
pub open spec fn spec_u32_be(x: u32) -> Seq<u8> {
    seq![
        (x / 0x1000000) as u8,
        ((x / 0x10000) % 256) as u8,
        ((x / 256) % 256) as u8,
        (x % 256) as u8,
    ]
}

/// The 32-bit value read from four big-endian bytes.
pub open spec fn spec_u32_from_be(b0: u8, b1: u8, b2: u8, b3: u8) -> u32 {
    ((b0 as u32) * 0x1000000 + (b1 as u32) * 0x10000 + (b2 as u32) * 256 + (b3 as u32)) as u32
}

/// Writing a 32-bit value big-endian and reading it back is the identity.
pub proof fn lemma_u32_be_round_trip(x: u32)
    ensures
        spec_u32_from_be(
            spec_u32_be(x)[0],
            spec_u32_be(x)[1],
            spec_u32_be(x)[2],
            spec_u32_be(x)[3],
        ) == x,
{
    assert(spec_u32_from_be(
        spec_u32_be(x)[0],
        spec_u32_be(x)[1],
        spec_u32_be(x)[2],
        spec_u32_be(x)[3],
    ) == x) by (nonlinear_arith);
}

/// The four big-endian bytes of a signed 32-bit value (two's complement).
pub open spec fn spec_i32_be(x: i32) -> Seq<u8> {
    spec_u32_be(x as u32)
}

/// The signed 32-bit value read from four big-endian bytes.
pub open spec fn spec_i32_from_be(b0: u8, b1: u8, b2: u8, b3: u8) -> i32 {
    spec_u32_from_be(b0, b1, b2, b3) as i32
}

/// Writing a signed 32-bit value big-endian and reading it back is the
/// identity.
pub proof fn lemma_i32_be_round_trip(x: i32)
    ensures
        spec_i32_from_be(
            spec_i32_be(x)[0],
            spec_i32_be(x)[1],
            spec_i32_be(x)[2],
            spec_i32_be(x)[3],
        ) == x,
{
    lemma_u32_be_round_trip(x as u32);
    assert((x as u32) as i32 == x) by (bit_vector);
}

/// Append a 16-bit value in big-endian order.
pub fn push_u16_be(out: &mut Vec<u8>, x: u16)
    ensures
        final(out)@ == old(out)@ + spec_u16_be(x),
{
    out.push((x / 256) as u8);
    out.push((x % 256) as u8);
    proof {
        assert(out@ =~= old(out)@ + spec_u16_be(x));
    }
}

/// Append a 32-bit value in big-endian order.
pub fn push_u32_be(out: &mut Vec<u8>, x: u32)
    ensures
        final(out)@ == old(out)@ + spec_u32_be(x),
{
    out.push((x / 0x1000000) as u8);
    out.push(((x / 0x10000) % 256) as u8);
    out.push(((x / 256) % 256) as u8);
    out.push((x % 256) as u8);
    proof {
        assert(out@ =~= old(out)@ + spec_u32_be(x));
    }
}

/// Append a signed 32-bit value in big-endian order.
pub fn push_i32_be(out: &mut Vec<u8>, x: i32)
    ensures
        final(out)@ == old(out)@ + spec_i32_be(x),
{
    #[verifier::truncate]
    let u: u32 = x as u32;
    push_u32_be(out, u);
}

/// Read a 16-bit big-endian value at `pos`.
pub fn read_u16_be(data: &Vec<u8>, pos: usize) -> (r: u16)
    requires
        pos + 2 <= data@.len(),
    ensures
        r == spec_u16_from_be(data@[pos as int], data@[pos + 1]),
{
    // Calling len brings the vector's size bound into scope for the
    // index arithmetic.
    let _n = data.len();
    let b0 = data[pos];
    let b1 = data[pos + 1];
    (b0 as u16) * 256 + (b1 as u16)
}

/// Read a 32-bit big-endian value at `pos`.
pub fn read_u32_be(data: &Vec<u8>, pos: usize) -> (r: u32)
    requires
        pos + 4 <= data@.len(),
    ensures
        r == spec_u32_from_be(
            data@[pos as int],
            data@[pos + 1],
            data@[pos + 2],
            data@[pos + 3],
        ),
{
    // Calling len brings the vector's size bound into scope for the
    // index arithmetic.
    let _n = data.len();
    let b0 = data[pos];
    let b1 = data[pos + 1];
    let b2 = data[pos + 2];
    let b3 = data[pos + 3];
    (b0 as u32) * 0x1000000 + (b1 as u32) * 0x10000 + (b2 as u32) * 256 + (b3 as u32)
}

/// Read a signed 32-bit big-endian value at `pos`.
pub fn read_i32_be(data: &Vec<u8>, pos: usize) -> (r: i32)
    requires
        pos + 4 <= data@.len(),
    ensures
        r == spec_i32_from_be(
            data@[pos as int],
            data@[pos + 1],
            data@[pos + 2],
            data@[pos + 3],
        ),
{
    let u = read_u32_be(data, pos);
    #[verifier::truncate]
    let r: i32 = u as i32;
    r
}

// ---------------------------------------------------------------------------
// Header-only frames: REFRESH, AGENT_CONNECTED, wallpaper commands
// ---------------------------------------------------------------------------
/// A frame that carries no payload: command id, then total length 4.
pub open spec fn spec_header_only_bytes(cmd: u16) -> Seq<u8> {
    spec_u16_be(cmd) + spec_u16_be(4)
}

/// The command id of a well-formed header-only frame, if any.
pub open spec fn spec_parse_header_only(b: Seq<u8>) -> Option<u16> {
    if b.len() == 4 && spec_u16_from_be(b[2], b[3]) == 4 {
        Some(spec_u16_from_be(b[0], b[1]))
    } else {
        None
    }
}

/// A header-only frame parses back to its command id.
pub proof fn lemma_header_only_round_trip(cmd: u16)
    ensures
        spec_parse_header_only(spec_header_only_bytes(cmd)) == Some(cmd),
{
}

fn create_header_only_packet(cmd: u16) -> (r: Vec<u8>)
    ensures
        r@ == spec_header_only_bytes(cmd),
{
    let mut packet: Vec<u8> = Vec::new();
    push_u16_be(&mut packet, cmd);
    push_u16_be(&mut packet, 4);
    packet
}

/// The REFRESH frame: command 6, no payload.
pub fn create_refresh_packet() -> (r: Vec<u8>)
    ensures
        r@ == spec_header_only_bytes(MNG_KVM_REFRESH as u16),
{
    create_header_only_packet(MNG_KVM_REFRESH)
}

/// The AGENT_CONNECTED frame: command 59, no payload.
pub fn create_agent_connected_packet() -> (r: Vec<u8>)
    ensures
        r@ == spec_header_only_bytes(MNG_KVM_AGENT_CONNECTED as u16),
{
    create_header_only_packet(MNG_KVM_AGENT_CONNECTED)
}

/// The WALLPAPER_SET frame: command 73, no payload.
pub fn create_wallpaper_set_packet() -> (r: Vec<u8>)
    ensures
        r@ == spec_header_only_bytes(MNG_UPDATE_TEMP_WALLPAPER as u16),
{
    create_header_only_packet(MNG_UPDATE_TEMP_WALLPAPER as u16)
}

/// The WALLPAPER_RESTORE frame: command 74, no payload.
pub fn create_wallpaper_restore_packet() -> (r: Vec<u8>)
    ensures
        r@ == spec_header_only_bytes(MNG_RESTORE_ORIGINAL_WALLPAPER as u16),
{
    create_header_only_packet(MNG_RESTORE_ORIGINAL_WALLPAPER as u16)
}

// ---------------------------------------------------------------------------
// Fixed-payload frames: SCREEN, KEYSTATE, MOUSE_CURSOR, INIT_TOUCH,
// FRAME_RATE_TIMER, CURSOR_CONTROL
// ---------------------------------------------------------------------------
/// The SCREEN frame: command 7, payload u16 width, u16 height.
pub open spec fn spec_screen_bytes(width: u16, height: u16) -> Seq<u8> {
    spec_u16_be(MNG_KVM_SCREEN as u16) + spec_u16_be(8) + spec_u16_be(width) + spec_u16_be(height)
}

/// The width and height of a well-formed SCREEN frame, if any.
pub open spec fn spec_parse_screen(b: Seq<u8>) -> Option<(u16, u16)> {
    if b.len() == 8 && spec_u16_from_be(b[0], b[1]) == MNG_KVM_SCREEN && spec_u16_from_be(
        b[2],
        b[3],
    ) == 8 {
        Some((spec_u16_from_be(b[4], b[5]), spec_u16_from_be(b[6], b[7])))
    } else {
        None
    }
}

/// A SCREEN frame parses back to its width and height.
pub proof fn lemma_screen_round_trip(width: u16, height: u16)
    ensures
        spec_parse_screen(spec_screen_bytes(width, height)) == Some((width, height)),
{
}

/// Parse a SCREEN frame.
pub fn parse_screen_packet(data: &Vec<u8>) -> (r: Option<(u16, u16)>)
    ensures
        r == spec_parse_screen(data@),
{
    if data.len() == 8 && read_u16_be(data, 0) == MNG_KVM_SCREEN && read_u16_be(data, 2) == 8 {
        Some((read_u16_be(data, 4), read_u16_be(data, 6)))
    } else {
        None
    }
}

/// The value a dimension takes after the client's scaling factor (a
/// numerator over 1024) is applied; the result is truncated to 16 bits as
/// on the wire.
pub open spec fn spec_scaled_dimension(aligned: int, scaling_factor: int) -> u16 {
    ((aligned * scaling_factor / 1024) % 0x10000) as u16
}

/// The SCREEN frame for the primary display: dimensions are first aligned
/// down to even values, then scaled by `scaling_factor / 1024`.
pub fn create_resolution_packet_with_scaling(
    raw_width: u16,
    raw_height: u16,
    scaling_factor: u32,
) -> (r: Vec<u8>)
    ensures
        r@ == spec_screen_bytes(
            spec_scaled_dimension((raw_width - (raw_width % 2)) as int, scaling_factor as int),
            spec_scaled_dimension((raw_height - (raw_height % 2)) as int, scaling_factor as int),
        ),
{
    let aligned_width: u64 = (raw_width - (raw_width % 2)) as u64;
    let aligned_height: u64 = (raw_height - (raw_height % 2)) as u64;
    proof {
        assert(aligned_width * (scaling_factor as u64) <= 0xffff * 0xffffffff)
            by (nonlinear_arith)
            requires
                aligned_width <= 0xffff,
                scaling_factor <= 0xffffffff,
        ;
        assert(aligned_height * (scaling_factor as u64) <= 0xffff * 0xffffffff)
            by (nonlinear_arith)
            requires
                aligned_height <= 0xffff,
                scaling_factor <= 0xffffffff,
        ;
    }
    let scaled_width: u64 = aligned_width * (scaling_factor as u64) / 1024;
    let scaled_height: u64 = aligned_height * (scaling_factor as u64) / 1024;
    let width: u16 = (scaled_width % 0x10000) as u16;
    let height: u16 = (scaled_height % 0x10000) as u16;
    let mut packet: Vec<u8> = Vec::new();
    push_u16_be(&mut packet, MNG_KVM_SCREEN);
    push_u16_be(&mut packet, 8);
    push_u16_be(&mut packet, width);
    push_u16_be(&mut packet, height);
    packet
}

/// The KEYSTATE frame: command 18, three zero payload bytes.
pub open spec fn spec_keystate_bytes() -> Seq<u8> {
    spec_u16_be(MNG_KVM_KEYSTATE as u16) + spec_u16_be(7) + seq![0u8, 0u8, 0u8]
}

/// Whether a byte sequence is the KEYSTATE frame.
pub open spec fn spec_parse_keystate(b: Seq<u8>) -> bool {
    b =~= spec_keystate_bytes()
}

/// The KEYSTATE frame parses back as itself.
pub proof fn lemma_keystate_round_trip()
    ensures
        spec_parse_keystate(spec_keystate_bytes()),
{
}

/// The KEYSTATE frame sent during the client-connect sequence.
pub fn create_keystate_packet() -> (r: Vec<u8>)
    ensures
        r@ == spec_keystate_bytes(),
{
    let mut packet: Vec<u8> = Vec::new();
    push_u16_be(&mut packet, MNG_KVM_KEYSTATE as u16);
    push_u16_be(&mut packet, 7);
    packet.push(0);
    packet.push(0);
    packet.push(0);
    proof {
        assert(packet@ =~= spec_keystate_bytes());
    }
    packet
}

/// The MOUSE_CURSOR frame: command 88, payload u32 zero.
pub open spec fn spec_mouse_cursor_bytes() -> Seq<u8> {
    spec_u16_be(MNG_KVM_MOUSE_CURSOR as u16) + spec_u16_be(8) + spec_u32_be(0)
}

/// Whether a byte sequence is the MOUSE_CURSOR frame.
pub open spec fn spec_parse_mouse_cursor(b: Seq<u8>) -> bool {
    b =~= spec_mouse_cursor_bytes()
}

/// The MOUSE_CURSOR frame parses back as itself.
pub proof fn lemma_mouse_cursor_round_trip()
    ensures
        spec_parse_mouse_cursor(spec_mouse_cursor_bytes()),
{
}

/// The MOUSE_CURSOR frame sent during the client-connect sequence.
pub fn create_mouse_cursor_packet() -> (r: Vec<u8>)
    ensures
        r@ == spec_mouse_cursor_bytes(),
{
    let mut packet: Vec<u8> = Vec::new();
    push_u16_be(&mut packet, MNG_KVM_MOUSE_CURSOR as u16);
    push_u16_be(&mut packet, 8);
    push_u32_be(&mut packet, 0);
    proof {
        assert(packet@ =~= spec_mouse_cursor_bytes());
    }
    packet
}

/// The INIT_TOUCH frame: command 14, one status byte (0 = ok,
/// 2 = unsupported).
pub open spec fn spec_init_touch_bytes(status: u8) -> Seq<u8> {
    spec_u16_be(MNG_KVM_INIT_TOUCH as u16) + spec_u16_be(5) + seq![status]
}

/// The status byte of a well-formed INIT_TOUCH frame, if any.
pub open spec fn spec_parse_init_touch(b: Seq<u8>) -> Option<u8> {
    if b.len() == 5 && spec_u16_from_be(b[0], b[1]) == MNG_KVM_INIT_TOUCH as u16
        && spec_u16_from_be(b[2], b[3]) == 5 {
        Some(b[4])
    } else {
        None
    }
}

/// An INIT_TOUCH frame parses back to its status byte.
pub proof fn lemma_init_touch_round_trip(status: u8)
    ensures
        spec_parse_init_touch(spec_init_touch_bytes(status)) == Some(status),
{
}

/// The INIT_TOUCH frame with a given status byte.
pub fn create_init_touch_packet(status: u8) -> (r: Vec<u8>)
    ensures
        r@ == spec_init_touch_bytes(status),
{
    let mut packet: Vec<u8> = Vec::new();
    push_u16_be(&mut packet, MNG_KVM_INIT_TOUCH as u16);
    push_u16_be(&mut packet, 5);
    packet.push(status);
    proof {
        assert(packet@ =~= spec_init_touch_bytes(status));
    }
    packet
}

/// The FRAME_RATE_TIMER frame: command 13, payload u16 milliseconds.
pub open spec fn spec_frame_rate_timer_bytes(ms: u16) -> Seq<u8> {
    spec_u16_be(MNG_KVM_FRAME_RATE_TIMER as u16) + spec_u16_be(6) + spec_u16_be(ms)
}

/// The milliseconds of a well-formed FRAME_RATE_TIMER frame, if any.
pub open spec fn spec_parse_frame_rate_timer(b: Seq<u8>) -> Option<u16> {
    if b.len() == 6 && spec_u16_from_be(b[0], b[1]) == MNG_KVM_FRAME_RATE_TIMER as u16
        && spec_u16_from_be(b[2], b[3]) == 6 {
        Some(spec_u16_from_be(b[4], b[5]))
    } else {
        None
    }
}

/// A FRAME_RATE_TIMER frame parses back to its milliseconds value.
pub proof fn lemma_frame_rate_timer_round_trip(ms: u16)
    ensures
        spec_parse_frame_rate_timer(spec_frame_rate_timer_bytes(ms)) == Some(ms),
{
}

/// The FRAME_RATE_TIMER frame with a given interval.
pub fn create_frame_rate_timer_packet(ms: u16) -> (r: Vec<u8>)
    ensures
        r@ == spec_frame_rate_timer_bytes(ms),
{
    let mut packet: Vec<u8> = Vec::new();
    push_u16_be(&mut packet, MNG_KVM_FRAME_RATE_TIMER as u16);
    push_u16_be(&mut packet, 6);
    push_u16_be(&mut packet, ms);
    proof {
        assert(packet@ =~= spec_frame_rate_timer_bytes(ms));
    }
    packet
}

/// The CURSOR_CONTROL frame: command 144, one enabled byte.
pub open spec fn spec_cursor_control_bytes(enabled: bool) -> Seq<u8> {
    spec_u16_be(MNG_KVM_CURSOR_CONTROL as u16) + spec_u16_be(5) + seq![
        if enabled {
            1u8
        } else {
            0u8
        },
    ]
}

/// The enabled flag of a well-formed CURSOR_CONTROL frame, if any.
pub open spec fn spec_parse_cursor_control(b: Seq<u8>) -> Option<bool> {
    if b.len() == 5 && spec_u16_from_be(b[0], b[1]) == MNG_KVM_CURSOR_CONTROL as u16
        && spec_u16_from_be(b[2], b[3]) == 5 && (b[4] == 0 || b[4] == 1) {
        Some(b[4] == 1)
    } else {
        None
    }
}

/// A CURSOR_CONTROL frame parses back to its enabled flag.
pub proof fn lemma_cursor_control_round_trip(enabled: bool)
    ensures
        spec_parse_cursor_control(spec_cursor_control_bytes(enabled)) == Some(enabled),
{
}

/// The CURSOR_CONTROL frame with a given enabled flag.
pub fn create_cursor_control_packet(enabled: bool) -> (r: Vec<u8>)
    ensures
        r@ == spec_cursor_control_bytes(enabled),
{
    let mut packet: Vec<u8> = Vec::new();
    push_u16_be(&mut packet, MNG_KVM_CURSOR_CONTROL as u16);
    push_u16_be(&mut packet, 5);
    packet.push(
        if enabled {
            1
        } else {
            0
        },
    );
    proof {
        assert(packet@ =~= spec_cursor_control_bytes(enabled));
    }
    packet
}

// ---------------------------------------------------------------------------
// PICTURE frames
// ---------------------------------------------------------------------------
/// The 16-bit length field of a PICTURE frame: `6 + payload_length`, or the
/// sentinel `0xFFFF` when that exceeds 16 bits. The embedded 32-bit
/// payload-length field is authoritative; receivers must use it.
pub open spec fn spec_picture_size_field(payload_len: int) -> u16 {
    if 6 + payload_len > 0xffff {
        0xffff
    } else {
        (6 + payload_len) as u16
    }
}

/// A PICTURE frame: command 3, then u8 codec id, u8 keyframe flag,
/// u32 payload length, payload bytes.
pub open spec fn spec_picture_bytes(codec_id: u8, keyframe: bool, payload: Seq<u8>) -> Seq<u8> {
    spec_u16_be(MNG_KVM_PICTURE as u16) + spec_u16_be(spec_picture_size_field(payload.len() as int))
        + seq![
        codec_id,
        if keyframe {
            1u8
        } else {
            0u8
        },
    ] + spec_u32_be(payload.len() as u32) + payload
}

/// The codec id, keyframe flag and payload of a well-formed PICTURE frame,
/// if any. The payload length is taken from the embedded 32-bit field.
pub open spec fn spec_parse_picture(b: Seq<u8>) -> Option<(u8, bool, Seq<u8>)> {
    if b.len() >= 10 && spec_u16_from_be(b[0], b[1]) == MNG_KVM_PICTURE && (b[5] == 0 || b[5] == 1)
        && b.len() == 10 + spec_u32_from_be(b[6], b[7], b[8], b[9]) && spec_u16_from_be(b[2], b[3])
        == spec_picture_size_field(spec_u32_from_be(b[6], b[7], b[8], b[9]) as int) {
        Some((b[4], b[5] == 1, b.subrange(10, b.len() as int)))
    } else {
        None
    }
}

/// A PICTURE frame parses back to its codec id, keyframe flag and full
/// payload, whatever the payload length: when the 16-bit length field
/// holds the `0xFFFF` sentinel, the embedded 32-bit field still recovers
/// the payload exactly.
pub proof fn lemma_picture_round_trip(codec_id: u8, keyframe: bool, payload: Seq<u8>)
    requires
        payload.len() <= 0xffffffff,
    ensures
        spec_parse_picture(spec_picture_bytes(codec_id, keyframe, payload)) == Some(
            (codec_id, keyframe, payload),
        ),
{
    let b = spec_picture_bytes(codec_id, keyframe, payload);
    lemma_u32_be_round_trip(payload.len() as u32);
    assert(spec_u32_from_be(b[6], b[7], b[8], b[9]) == payload.len());
    assert(b.subrange(10, b.len() as int) =~= payload);
}

/// Wrap an encoded frame payload in a PICTURE frame.
pub fn create_video_frame_packet(frame_data: &Vec<u8>, codec_type: u8, is_keyframe: bool) -> (r:
    Vec<u8>)
    requires
        frame_data@.len() <= 0xffffffff,
    ensures
        r@ == spec_picture_bytes(codec_type, is_keyframe, frame_data@),
{
    let frame_len = frame_data.len();
    let size_field: u16 = if frame_len > 0xffff - 6 {
        0xffff
    } else {
        (6 + frame_len) as u16
    };
    let mut packet: Vec<u8> = Vec::new();
    push_u16_be(&mut packet, MNG_KVM_PICTURE);
    push_u16_be(&mut packet, size_field);
    packet.push(codec_type);
    packet.push(
        if is_keyframe {
            1
        } else {
            0
        },
    );
    push_u32_be(&mut packet, frame_len as u32);
    packet.extend_from_slice(frame_data.as_slice());
    proof {
        assert(packet@ =~= spec_picture_bytes(codec_type, is_keyframe, frame_data@));
    }
    packet
}

/// Parse a PICTURE frame, recovering the payload through the embedded
/// 32-bit length field.
pub fn parse_picture_packet(data: &Vec<u8>) -> (r: Option<(u8, bool, Vec<u8>)>)
    ensures
        r is Some <==> spec_parse_picture(data@) is Some,
        r is Some ==> {
            let (codec, key, payload) = spec_parse_picture(data@)->Some_0;
            r->Some_0.0 == codec && r->Some_0.1 == key && r->Some_0.2@ == payload
        },
{
    let n = data.len();
    if n < 10 {
        return None;
    }
    if read_u16_be(data, 0) != MNG_KVM_PICTURE {
        return None;
    }
    let key_byte = data[5];
    if key_byte != 0 && key_byte != 1 {
        return None;
    }
    let plen = read_u32_be(data, 6);
    if (n as u64) != 10 + (plen as u64) {
        return None;
    }
    let expected_size_field: u16 = if plen > 0xffff - 6 {
        0xffff
    } else {
        (6 + plen) as u16
    };
    if read_u16_be(data, 2) != expected_size_field {
        return None;
    }
    let mut payload: Vec<u8> = Vec::new();
    payload.extend_from_slice(&data.as_slice()[10..n]);
    proof {
        assert(payload@ =~= data@.subrange(10, data@.len() as int));
    }
    Some((data[4], key_byte == 1, payload))
}

// ---------------------------------------------------------------------------
// DISPLAY_INFO frames
// ---------------------------------------------------------------------------
/// The 12 bytes of one DISPLAY_INFO entry.
pub open spec fn spec_display_entry(d: DisplayInfo) -> Seq<u8> {
    spec_u16_be(d.width) + spec_u16_be(d.height) + spec_i32_be(d.x) + spec_i32_be(d.y)
}

/// The concatenated entries of a display list.
pub open spec fn spec_display_entries(ds: Seq<DisplayInfo>) -> Seq<u8>
    decreases ds.len(),
{
    if ds.len() == 0 {
        Seq::empty()
    } else {
        spec_display_entries(ds.drop_last()) + spec_display_entry(ds.last())
    }
}

/// The concatenated entries are 12 bytes per display.
pub proof fn lemma_display_entries_len(ds: Seq<DisplayInfo>)
    ensures
        spec_display_entries(ds).len() == 12 * ds.len(),
    decreases ds.len(),
{
    if ds.len() > 0 {
        lemma_display_entries_len(ds.drop_last());
    }
}

/// Entry `i` occupies bytes `12 * i .. 12 * i + 12` of the concatenation.
pub proof fn lemma_display_entries_index(ds: Seq<DisplayInfo>, i: int)
    requires
        0 <= i < ds.len(),
    ensures
        spec_display_entries(ds).subrange(12 * i, 12 * i + 12) == spec_display_entry(ds[i]),
    decreases ds.len(),
{
    lemma_display_entries_len(ds);
    if i == ds.len() - 1 {
        lemma_display_entries_len(ds.drop_last());
        assert(spec_display_entries(ds).subrange(12 * i, 12 * i + 12) =~= spec_display_entry(
            ds[i],
        ));
    } else {
        lemma_display_entries_index(ds.drop_last(), i);
        lemma_display_entries_len(ds.drop_last());
        assert(spec_display_entries(ds).subrange(12 * i, 12 * i + 12) =~= spec_display_entries(
            ds.drop_last(),
        ).subrange(12 * i, 12 * i + 12));
    }
}

/// A DISPLAY_INFO frame: command 82, u16 display count, then one 12-byte
/// entry per display.
pub open spec fn spec_display_info_bytes(ds: Seq<DisplayInfo>) -> Seq<u8> {
    spec_u16_be(MNG_KVM_DISPLAY_INFO as u16) + spec_u16_be((6 + 12 * ds.len()) as u16)
        + spec_u16_be(ds.len() as u16) + spec_display_entries(ds)
}

/// The display entry decoded at byte offset `off`.
pub open spec fn spec_display_at(b: Seq<u8>, off: int) -> DisplayInfo {
    DisplayInfo {
        width: spec_u16_from_be(b[off], b[off + 1]),
        height: spec_u16_from_be(b[off + 2], b[off + 3]),
        x: spec_i32_from_be(b[off + 4], b[off + 5], b[off + 6], b[off + 7]),
        y: spec_i32_from_be(b[off + 8], b[off + 9], b[off + 10], b[off + 11]),
    }
}

/// The display list of a well-formed DISPLAY_INFO frame, if any.
pub open spec fn spec_parse_display_info(b: Seq<u8>) -> Option<Seq<DisplayInfo>> {
    if b.len() >= 6 && spec_u16_from_be(b[0], b[1]) == MNG_KVM_DISPLAY_INFO && spec_u16_from_be(
        b[2],
        b[3],
    ) == b.len() && b.len() == 6 + 12 * (spec_u16_from_be(b[4], b[5]) as int) {
        Some(
            Seq::new(
                spec_u16_from_be(b[4], b[5]) as nat,
                |i: int| spec_display_at(b, 6 + 12 * i),
            ),
        )
    } else {
        None
    }
}

/// A DISPLAY_INFO frame parses back to its display list.
#[verifier::rlimit(100)]
pub proof fn lemma_display_info_round_trip(ds: Seq<DisplayInfo>)
    requires
        ds.len() <= 5000,
    ensures
        spec_parse_display_info(spec_display_info_bytes(ds)) == Some(ds),
{
    let b = spec_display_info_bytes(ds);
    lemma_display_entries_len(ds);
    assert(spec_u16_from_be(b[4], b[5]) == ds.len());
    assert(spec_u16_from_be(b[2], b[3]) == b.len());
    let parsed = spec_parse_display_info(b)->Some_0;
    assert forall|i: int| 0 <= i < ds.len() implies parsed[i] == ds[i] by {
        lemma_display_entries_index(ds, i);
        let entry = spec_display_entry(ds[i]);
        let sub = spec_display_entries(ds).subrange(12 * i, 12 * i + 12);
        assert forall|j: int| 0 <= j < 12 implies b[6 + 12 * i + j] == entry[j] by {
            assert(sub[j] == entry[j]);
        }
        let off = 6 + 12 * i;
        let w = ds[i].width;
        let h = ds[i].height;
        let x = ds[i].x;
        let y = ds[i].y;
        assert(entry[0] == spec_u16_be(w)[0] && entry[1] == spec_u16_be(w)[1]);
        assert(entry[2] == spec_u16_be(h)[0] && entry[3] == spec_u16_be(h)[1]);
        assert(entry[4] == spec_i32_be(x)[0] && entry[5] == spec_i32_be(x)[1] && entry[6]
            == spec_i32_be(x)[2] && entry[7] == spec_i32_be(x)[3]);
        assert(entry[8] == spec_i32_be(y)[0] && entry[9] == spec_i32_be(y)[1] && entry[10]
            == spec_i32_be(y)[2] && entry[11] == spec_i32_be(y)[3]);
        lemma_u16_be_round_trip(w);
        lemma_u16_be_round_trip(h);
        lemma_i32_be_round_trip(x);
        lemma_i32_be_round_trip(y);
        assert(spec_display_at(b, off).width == w);
        assert(spec_display_at(b, off).height == h);
        assert(spec_display_at(b, off).x == x);
        assert(spec_display_at(b, off).y == y);
    }
    assert(parsed =~= ds);
}

/// The DISPLAY_INFO frame for a display list.
pub fn create_display_info_packet(displays: &Vec<DisplayInfo>) -> (r: Vec<u8>)
    requires
        displays@.len() <= 5000,
    ensures
        r@ == spec_display_info_bytes(displays@),
{
    let count = displays.len();
    let mut packet: Vec<u8> = Vec::new();
    push_u16_be(&mut packet, MNG_KVM_DISPLAY_INFO);
    push_u16_be(&mut packet, (6 + 12 * count) as u16);
    push_u16_be(&mut packet, count as u16);
    let ghost header = packet@;
    let mut i: usize = 0;
    while i < count
        invariant
            i <= count == displays@.len() <= 5000,
            packet@ == header + spec_display_entries(displays@.take(i as int)),
        decreases count - i,
    {
        let d = displays[i];
        push_u16_be(&mut packet, d.width);
        push_u16_be(&mut packet, d.height);
        push_i32_be(&mut packet, d.x);
        push_i32_be(&mut packet, d.y);
        proof {
            assert(displays@.take(i + 1).drop_last() =~= displays@.take(i as int));
            assert(displays@.take(i + 1).last() == displays@[i as int]);
            assert(packet@ =~= header + spec_display_entries(displays@.take(i + 1)));
        }
        i = i + 1;
    }
    proof {
        assert(displays@.take(count as int) =~= displays@);
        assert(packet@ =~= spec_display_info_bytes(displays@));
    }
    packet
}

/// Parse a DISPLAY_INFO frame.
pub fn parse_display_info_packet(data: &Vec<u8>) -> (r: Option<Vec<DisplayInfo>>)
    ensures
        r is Some <==> spec_parse_display_info(data@) is Some,
        r is Some ==> r->Some_0@ == spec_parse_display_info(data@)->Some_0,
{
    let n = data.len();
    if n < 6 {
        return None;
    }
    if read_u16_be(data, 0) != MNG_KVM_DISPLAY_INFO {
        return None;
    }
    if read_u16_be(data, 2) as usize != n {
        return None;
    }
    let count = read_u16_be(data, 4) as usize;
    if n != 6 + 12 * count {
        return None;
    }
    let mut displays: Vec<DisplayInfo> = Vec::new();
    let mut i: usize = 0;
    while i < count
        invariant
            i <= count,
            data@.len() == 6 + 12 * count,
            count < 0x10000,
            displays@.len() == i,
            forall|k: int|
                0 <= k < i ==> displays@[k] == spec_display_at(data@, 6 + 12 * k),
        decreases count - i,
    {
        let off = 6 + 12 * i;
        let d = DisplayInfo {
            width: read_u16_be(data, off),
            height: read_u16_be(data, off + 2),
            x: read_i32_be(data, off + 4),
            y: read_i32_be(data, off + 8),
        };
        displays.push(d);
        i = i + 1;
    }
    proof {
        assert(displays@ =~= spec_parse_display_info(data@)->Some_0);
    }
    Some(displays)
}

// ---------------------------------------------------------------------------
// DISPLAYS frames
// ---------------------------------------------------------------------------
/// The consecutive display ids `1 ..= n`, each as two big-endian bytes.
pub open spec fn spec_display_ids(n: int) -> Seq<u8>
    decreases n,
{
    if n <= 0 {
        Seq::empty()
    } else {
        spec_display_ids(n - 1) + spec_u16_be(n as u16)
    }
}

/// The id list is two bytes per display.
pub proof fn lemma_display_ids_len(n: int)
    requires
        n >= 0,
    ensures
        spec_display_ids(n).len() == 2 * n,
    decreases n,
{
    if n > 0 {
        lemma_display_ids_len(n - 1);
    }
}

/// A DISPLAYS frame. With at most one display, a fixed short form with
/// zeroed fields is sent. With `n >= 2` displays: u16 `n + 1`, u16 marker
/// `0xFFFF`, the ids `1 ..= n`, then the selected id, or `0xFFFF` when no
/// display is selected (`selected == 0`).
pub open spec fn spec_displays_bytes(screen_count: u16, selected: u16) -> Seq<u8> {
    if screen_count <= 1 {
        spec_u16_be(MNG_KVM_GET_DISPLAYS as u16) + spec_u16_be(8) + spec_u16_be(0) + spec_u16_be(0)
    } else {
        spec_u16_be(MNG_KVM_GET_DISPLAYS as u16) + spec_u16_be((10 + 2 * screen_count) as u16)
            + spec_u16_be((screen_count + 1) as u16) + spec_u16_be(0xffff) + spec_display_ids(
            screen_count as int,
        ) + spec_u16_be(
            if selected == 0 {
                0xffff
            } else {
                selected
            },
        )
    }
}

/// The screen count and selected display of a well-formed DISPLAYS frame,
/// if any. The short form decodes as no extra displays and no selection.
pub open spec fn spec_parse_displays(b: Seq<u8>) -> Option<(u16, u16)> {
    if b.len() == 8 && spec_u16_from_be(b[0], b[1]) == MNG_KVM_GET_DISPLAYS && spec_u16_from_be(
        b[2],
        b[3],
    ) == 8 && spec_u16_from_be(b[4], b[5]) == 0 && spec_u16_from_be(b[6], b[7]) == 0 {
        Some((0, 0))
    } else if b.len() >= 12 && spec_u16_from_be(b[0], b[1]) == MNG_KVM_GET_DISPLAYS
        && spec_u16_from_be(b[4], b[5]) >= 3 && b.len() == 8 + 2 * (spec_u16_from_be(b[4], b[5])
        as int) && spec_u16_from_be(b[2], b[3]) == b.len() && spec_u16_from_be(b[6], b[7])
        == 0xffff {
        let n = (spec_u16_from_be(b[4], b[5]) - 1) as u16;
        let sel = spec_u16_from_be(b[b.len() - 2], b[b.len() - 1]);
        Some(
            (
                n,
                if sel == 0xffff {
                    0
                } else {
                    sel
                },
            ),
        )
    } else {
        None
    }
}

/// A DISPLAYS frame for two or more displays parses back to its screen
/// count and selected display. Selected ids at or above the `0xFFFF`
/// marker cannot be carried, and with fewer than two displays the short
/// form drops both fields.
pub proof fn lemma_displays_round_trip(screen_count: u16, selected: u16)
    requires
        2 <= screen_count <= 30000,
        selected <= 0xfffe,
    ensures
        spec_parse_displays(spec_displays_bytes(screen_count, selected)) == Some(
            (screen_count, selected),
        ),
{
    let b = spec_displays_bytes(screen_count, selected);
    lemma_display_ids_len(screen_count as int);
    assert(b.len() == 10 + 2 * screen_count);
    assert(spec_u16_from_be(b[0], b[1]) == MNG_KVM_GET_DISPLAYS);
    assert(spec_u16_from_be(b[2], b[3]) == 10 + 2 * screen_count);
    assert(spec_u16_from_be(b[4], b[5]) == screen_count + 1);
    assert(spec_u16_from_be(b[6], b[7]) == 0xffff);
    let tail = spec_u16_be(
        if selected == 0 {
            0xffffu16
        } else {
            selected
        },
    );
    assert(b[b.len() - 2] == tail[0] && b[b.len() - 1] == tail[1]);
}

/// The DISPLAYS frame for a given screen count and selected display id.
pub fn create_display_list_packet_with_scaling(screen_count: u16, selected_display: u16) -> (r:
    Vec<u8>)
    requires
        screen_count <= 30000,
    ensures
        r@ == spec_displays_bytes(screen_count, selected_display),
{
    let mut packet: Vec<u8> = Vec::new();
    if screen_count <= 1 {
        push_u16_be(&mut packet, MNG_KVM_GET_DISPLAYS);
        push_u16_be(&mut packet, 8);
        push_u16_be(&mut packet, 0);
        push_u16_be(&mut packet, 0);
        proof {
            assert(packet@ =~= spec_displays_bytes(screen_count, selected_display));
        }
    } else {
        push_u16_be(&mut packet, MNG_KVM_GET_DISPLAYS);
        push_u16_be(&mut packet, 10 + 2 * screen_count);
        push_u16_be(&mut packet, screen_count + 1);
        push_u16_be(&mut packet, 0xffff);
        let ghost header = packet@;
        let mut i: u16 = 0;
        while i < screen_count
            invariant
                i <= screen_count <= 30000,
                packet@ == header + spec_display_ids(i as int),
            decreases screen_count - i,
        {
            push_u16_be(&mut packet, i + 1);
            i = i + 1;
        }
        if selected_display == 0 {
            push_u16_be(&mut packet, 0xffff);
        } else {
            push_u16_be(&mut packet, selected_display);
        }
        proof {
            assert(packet@ =~= spec_displays_bytes(screen_count, selected_display));
        }
    }
    packet
}

/// Parse a DISPLAYS frame.
pub fn parse_displays_packet(data: &Vec<u8>) -> (r: Option<(u16, u16)>)
    ensures
        r == spec_parse_displays(data@),
{
    let n = data.len();
    if n == 8 && read_u16_be(data, 0) == MNG_KVM_GET_DISPLAYS && read_u16_be(data, 2) == 8
        && read_u16_be(data, 4) == 0 && read_u16_be(data, 6) == 0 {
        return Some((0, 0));
    }
    if n >= 12 && read_u16_be(data, 0) == MNG_KVM_GET_DISPLAYS {
        let cpo = read_u16_be(data, 4);
        if cpo >= 3 && (n as u64) == 8 + 2 * (cpo as u64) && read_u16_be(data, 2) as usize == n
            && read_u16_be(data, 6) == 0xffff {
            let sel = read_u16_be(data, n - 2);
            return Some(
                (
                    cpo - 1,
                    if sel == 0xffff {
                        0
                    } else {
                        sel
                    },
                ),
            );
        }
    }
    None
}

/// The advertised screen resolution: the raw dimensions aligned down to
/// even values, as the encoder requires.
pub fn get_screen_resolution(raw_width: u16, raw_height: u16) -> (r: (u16, u16))
    ensures
        r.0 == raw_width - (raw_width % 2),
        r.1 == raw_height - (raw_height % 2),
        r.0 % 2 == 0,
        r.1 % 2 == 0,
{
    let aligned_width = if raw_width % 2 == 0 {
        raw_width
    } else {
        raw_width - 1
    };
    let aligned_height = if raw_height % 2 == 0 {
        raw_height
    } else {
        raw_height - 1
    };
    (aligned_width, aligned_height)
}

} // verus!
