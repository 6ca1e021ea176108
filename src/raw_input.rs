use vstd::prelude::*;

use crate::event::{RawKeyEvent, Transition, EXTENDED_FLAG};

verus! {

/// Device type of a keyboard in a raw input header.
pub const RIM_TYPEKEYBOARD: u32 = 1;

/// Raw keyboard flag: the key went up.
pub const RI_KEY_BREAK: u16 = 0x01;

/// Raw keyboard flag: the key has the E0 (extended) prefix.
pub const RI_KEY_E0: u16 = 0x02;

/// Size of the keyboard record that follows the header.
pub const RAW_KEYBOARD_SIZE: usize = 16;

/// What a raw input payload holds.
#[derive(Clone, Copy, Debug, PartialEq, Eq, Structural)]
pub enum RawInputPayload {
    /// A keyboard notification, already in the common event shape.
    Keyboard(RawKeyEvent),
    /// Input of another device; the message is passed on untouched.
    OtherDevice,
    /// Too short for what its header announces.
    Malformed,
}

/// A little-endian 16-bit value at offset `i`.
pub open spec fn le_u16(b: Seq<u8>, i: int) -> int {
    b[i] as int + 256 * b[i + 1] as int
}

/// A little-endian 32-bit value at offset `i`.
pub open spec fn le_u32(b: Seq<u8>, i: int) -> int {
    le_u16(b, i) + 65536 * le_u16(b, i + 2)
}

/// Whether both size queries succeeded and reported a non-empty payload.
pub open spec fn payload_size_ok(first_result: u32, size: u32, second_result: u32) -> bool {
    first_result != u32::MAX && size != 0 && second_result != u32::MAX
}

/// The common event shape of a raw keyboard record: the E0 prefix becomes
/// the extended bit and the break flag a release.
pub open spec fn raw_keyboard_event(vkey: u16, make_code: u16, ri_flags: u16) -> RawKeyEvent {
    RawKeyEvent {
        vk_code: vkey as u32,
        scan_code: make_code as u32,
        flags: if ri_flags & RI_KEY_E0 != 0 {
            EXTENDED_FLAG
        } else {
            0
        },
        transition: if ri_flags & RI_KEY_BREAK != 0 {
            Transition::Release
        } else {
            Transition::Press
        },
        injected: false,
    }
}

/// The payload of a buffer whose header is `header_size` bytes long: the
/// device type is the first 32-bit field; a keyboard record holds the make
/// code, the flags and (after a reserved field) the virtual key.
pub open spec fn decoded_payload(b: Seq<u8>, header_size: int) -> RawInputPayload {
    if b.len() < 4 || header_size < 4 {
        RawInputPayload::Malformed
    } else if le_u32(b, 0) != RIM_TYPEKEYBOARD as int {
        RawInputPayload::OtherDevice
    } else if b.len() < header_size + RAW_KEYBOARD_SIZE {
        RawInputPayload::Malformed
    } else {
        RawInputPayload::Keyboard(
            raw_keyboard_event(
                le_u16(b, header_size + 6) as u16,
                le_u16(b, header_size) as u16,
                le_u16(b, header_size + 2) as u16,
            ),
        )
    }
}

/// Checks the outcome of the two-step size query: the first query must
/// succeed with a non-zero size, the second must succeed too.
pub fn payload_size_valid(first_result: u32, size: u32, second_result: u32) -> (r: bool)
    ensures
        r == payload_size_ok(first_result, size, second_result),
{
    first_result != u32::MAX && size != 0 && second_result != u32::MAX
}

fn read_le_u16(b: &Vec<u8>, i: usize) -> (r: u16)
    requires
        i + 1 < b@.len() <= usize::MAX,
    ensures
        r as int == le_u16(b@, i as int),
{
    let lo = b[i] as u16;
    let hi = b[i + 1] as u16;
    lo + hi * 256
}

fn read_le_u32(b: &Vec<u8>, i: usize) -> (r: u32)
    requires
        i + 3 < b@.len() <= usize::MAX,
    ensures
        r as int == le_u32(b@, i as int),
{
    let lo = read_le_u16(b, i) as u32;
    let hi = read_le_u16(b, i + 2) as u32;
    lo + hi * 65536
}

/// Converts the fields of a raw keyboard record to the common event shape.
pub fn from_raw_keyboard(vkey: u16, make_code: u16, ri_flags: u16) -> (r: RawKeyEvent)
    ensures
        r == raw_keyboard_event(vkey, make_code, ri_flags),
{
    let flags: u32 = if ri_flags & RI_KEY_E0 != 0 {
        EXTENDED_FLAG
    } else {
        0
    };
    let transition = if ri_flags & RI_KEY_BREAK != 0 {
        Transition::Release
    } else {
        Transition::Press
    };
    RawKeyEvent {
        vk_code: vkey as u32,
        scan_code: make_code as u32,
        flags,
        transition,
        injected: false,
    }
}

/// Decodes a raw input payload, checking every offset against the buffer
/// before it is read and the device type before the keyboard fields are.
pub fn decode_raw_input(b: &Vec<u8>, header_size: usize) -> (r: RawInputPayload)
    ensures
        r == decoded_payload(b@, header_size as int),
{
    if b.len() < 4 || header_size < 4 {
        return RawInputPayload::Malformed;
    }
    if read_le_u32(b, 0) != RIM_TYPEKEYBOARD {
        return RawInputPayload::OtherDevice;
    }
    if header_size > b.len() || b.len() - header_size < RAW_KEYBOARD_SIZE {
        return RawInputPayload::Malformed;
    }
    let make_code = read_le_u16(b, header_size);
    let ri_flags = read_le_u16(b, header_size + 2);
    let vkey = read_le_u16(b, header_size + 6);
    RawInputPayload::Keyboard(from_raw_keyboard(vkey, make_code, ri_flags))
}

} // verus!
