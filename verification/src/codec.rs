//! The fixed battery query/response protocol.
//!
//! A query is one write of the constant 20-byte packet followed by one timed
//! read into an 8-byte buffer. The caller performs both transport calls and
//! hands the buffer, together with the number of bytes the read produced, to
//! [`decode_response`].

use vstd::prelude::*;

use crate::DeviceError;

verus! {

/// Offset of the charging-state byte in a response.
pub const CHARGING_INDEX: usize = 5;

/// Offset of the raw battery-level byte in a response.
pub const BATTERY_LEVEL_INDEX: usize = 7;

/// Charging-state byte value meaning the headset is charging.
pub const CHARGING_STATE: u8 = 0x10;

/// Charging-state byte value meaning the headset is not charging.
pub const NOT_CHARGING_STATE: u8 = 0x0F;

/// Length of the buffer one timed read fills.
pub const RESPONSE_LEN: usize = 8;

/// The constant outbound query: a 4-byte header followed by 16 zero bytes.
pub open spec fn query_packet() -> Seq<u8> {
    Seq::new(20, |i: int| {
        if i == 0 {
            0x06u8
        } else if i == 1 {
            0xffu8
        } else if i == 2 {
            0xbbu8
        } else if i == 3 {
            0x02u8
        } else {
            0x00u8
        }
    })
}

/// A genuine response begins with the 5-byte preamble {6, 255, 187, 2, 0}.
pub open spec fn valid_preamble(buf: Seq<u8>) -> bool {
    &&& buf.len() >= 5
    &&& buf[0] == 6u8
    &&& buf[1] == 255u8
    &&& buf[2] == 187u8
    &&& buf[3] == 2u8
    &&& buf[4] == 0u8
}

/// What one query yields from the read's byte count and buffer: the raw
/// battery level and the charging flag, or the error the response earned.
pub open spec fn decoded(bytes_read: nat, buf: Seq<u8>) -> Result<(u8, bool), DeviceError> {
    if bytes_read == 0 {
        Err(DeviceError::HeadSetOff())
    } else if !valid_preamble(buf) {
        Err(DeviceError::UnknownResponse())
    } else if buf[CHARGING_INDEX as int] == CHARGING_STATE {
        Ok((buf[BATTERY_LEVEL_INDEX as int], true))
    } else if buf[CHARGING_INDEX as int] == NOT_CHARGING_STATE {
        Ok((buf[BATTERY_LEVEL_INDEX as int], false))
    } else {
        Err(DeviceError::UnknownResponse())
    }
}

/// Builds the outbound query packet: always exactly 20 bytes, the fixed
/// 4-byte header then 16 zero bytes, on every call.
pub fn battery_packet() -> (p: [u8; 20])
    ensures
        p@ == query_packet(),
        p@.len() == 20,
{
    let p: [u8; 20] = [
        0x06, 0xff, 0xbb, 0x02, 0x00, 0x00, 0x00, 0x00, 0x00, 0x00, 0x00, 0x00, 0x00, 0x00, 0x00,
        0x00, 0x00, 0x00, 0x00, 0x00,
    ];
    proof {
        assert(p@ =~= query_packet());
    }
    p
}

/// Decodes the buffer one timed read filled, given how many bytes the read
/// produced. Zero bytes read means the headset gave no response at all;
/// anything else is validated against the preamble and the two recognized
/// charging states.
pub fn decode_response(buf: &[u8; 8], bytes_read: usize) -> (r: Result<(u8, bool), DeviceError>)
    ensures
        r == decoded(bytes_read as nat, buf@),
        bytes_read == 0 ==> r == Err::<(u8, bool), DeviceError>(DeviceError::HeadSetOff()),
        bytes_read > 0 && !valid_preamble(buf@) ==> r == Err::<(u8, bool), DeviceError>(
            DeviceError::UnknownResponse(),
        ),
        bytes_read > 0 && valid_preamble(buf@) && buf@[CHARGING_INDEX as int] == CHARGING_STATE
            ==> r == Ok::<(u8, bool), DeviceError>((buf@[BATTERY_LEVEL_INDEX as int], true)),
        bytes_read > 0 && valid_preamble(buf@) && buf@[CHARGING_INDEX as int] == NOT_CHARGING_STATE
            ==> r == Ok::<(u8, bool), DeviceError>((buf@[BATTERY_LEVEL_INDEX as int], false)),
        bytes_read > 0 && valid_preamble(buf@) && buf@[CHARGING_INDEX as int] != CHARGING_STATE
            && buf@[CHARGING_INDEX as int] != NOT_CHARGING_STATE ==> r == Err::<
            (u8, bool),
            DeviceError,
        >(DeviceError::UnknownResponse()),
{
    if bytes_read == 0 {
        return Err(DeviceError::HeadSetOff());
    }
    if !(buf[0] == 6 && buf[1] == 255 && buf[2] == 187 && buf[3] == 2 && buf[4] == 0) {
        return Err(DeviceError::UnknownResponse());
    }
    let charging: bool = if buf[CHARGING_INDEX] == CHARGING_STATE {
        true
    } else if buf[CHARGING_INDEX] == NOT_CHARGING_STATE {
        false
    } else {
        return Err(DeviceError::UnknownResponse());
    };
    Ok((buf[BATTERY_LEVEL_INDEX], charging))
}

} // verus!
