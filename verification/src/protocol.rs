//! The message catalog, request builders, and per-command reply deciders.
//!
//! Every exchange with the device has the same shape: write a request frame
//! `[0x00, <command code>, <payload>]`, read one fixed 64-byte reply frame,
//! check that its first byte echoes the command code, and decode the payload
//! that follows the tag. The functions here build the request frames and
//! decide, from the plain outcome of the write and the read, what each
//! command returns; moving the frames over the wire is the caller's part.

use vstd::prelude::*;
use crate::convert::{
    battery_label_of, bootloader_state_of, convert_bytes_from_buffer_to_firmware_description,
    convert_bytes_to_bootloader_state, convert_date_to_four_bytes_in_buffer,
    convert_four_bytes_from_buffer_to_date, convert_four_bytes_from_buffer_to_id,
    convert_one_byte_from_buffer_to_battery_state,
    convert_three_bytes_from_buffer_to_firmware_version, description_of, id_of, le_byte_of,
    low_u32, make_response_handler, timestamp_of,
};
use crate::errors::AudioMothError;

verus! {

/// Command code of the get-time operation.
pub const USB_MSG_TYPE_GET_TIME: u8 = 0x01;

/// Command code of the set-time operation.
pub const USB_MSG_TYPE_SET_TIME: u8 = 0x02;

/// Command code of the get-uid operation.
pub const USB_MSG_TYPE_GET_UID: u8 = 0x03;

/// Command code of the get-battery operation.
pub const USB_MSG_TYPE_GET_BATTERY: u8 = 0x04;

/// Command code of the get-app-packet operation.
pub const USB_MSG_TYPE_GET_APP_PACKET: u8 = 0x05;

/// Command code of the set-app-packet operation.
pub const USB_MSG_TYPE_SET_APP_PACKET: u8 = 0x06;

/// Command code of the get-firmware-version operation.
pub const USB_MSG_TYPE_GET_FIRMWARE_VERSION: u8 = 0x07;

/// Command code of the get-firmware-description operation.
pub const USB_MSG_TYPE_GET_FIRMWARE_DESCRIPTION: u8 = 0x08;

/// Command code of the query-bootloader operation.
pub const USB_MSG_TYPE_QUERY_BOOTLOADER: u8 = 0x09;

/// Command code of the switch-to-bootloader operation.
pub const USB_MSG_TYPE_SWITCH_TO_BOOTLOADER: u8 = 0x0A;

/// The fixed report-ID byte that prefixes every request frame.
pub const REQUEST_PREFIX: u8 = 0x00;

/// The fixed size of every reply frame.
pub const REPLY_FRAME_LEN: usize = 64;

/// The ten operations of the device, one per command code.
#[derive(Clone, Copy, Debug, PartialEq, Eq, Structural)]
pub enum Command {
    GetTime,
    SetTime,
    GetUid,
    GetBattery,
    GetAppPacket,
    SetAppPacket,
    GetFirmwareVersion,
    GetFirmwareDescription,
    QueryBootloader,
    SwitchToBootloader,
}

impl Command {
    /// The one-byte protocol code of this operation.
    pub open spec fn spec_code(self) -> u8 {
        match self {
            Command::GetTime => USB_MSG_TYPE_GET_TIME,
            Command::SetTime => USB_MSG_TYPE_SET_TIME,
            Command::GetUid => USB_MSG_TYPE_GET_UID,
            Command::GetBattery => USB_MSG_TYPE_GET_BATTERY,
            Command::GetAppPacket => USB_MSG_TYPE_GET_APP_PACKET,
            Command::SetAppPacket => USB_MSG_TYPE_SET_APP_PACKET,
            Command::GetFirmwareVersion => USB_MSG_TYPE_GET_FIRMWARE_VERSION,
            Command::GetFirmwareDescription => USB_MSG_TYPE_GET_FIRMWARE_DESCRIPTION,
            Command::QueryBootloader => USB_MSG_TYPE_QUERY_BOOTLOADER,
            Command::SwitchToBootloader => USB_MSG_TYPE_SWITCH_TO_BOOTLOADER,
        }
    }

    /// The command code sent on the wire for this operation.
    pub fn code(&self) -> (c: u8)
        ensures
            c == self.spec_code(),
    {
        match self {
            Command::GetTime => USB_MSG_TYPE_GET_TIME,
            Command::SetTime => USB_MSG_TYPE_SET_TIME,
            Command::GetUid => USB_MSG_TYPE_GET_UID,
            Command::GetBattery => USB_MSG_TYPE_GET_BATTERY,
            Command::GetAppPacket => USB_MSG_TYPE_GET_APP_PACKET,
            Command::SetAppPacket => USB_MSG_TYPE_SET_APP_PACKET,
            Command::GetFirmwareVersion => USB_MSG_TYPE_GET_FIRMWARE_VERSION,
            Command::GetFirmwareDescription => USB_MSG_TYPE_GET_FIRMWARE_DESCRIPTION,
            Command::QueryBootloader => USB_MSG_TYPE_QUERY_BOOTLOADER,
            Command::SwitchToBootloader => USB_MSG_TYPE_SWITCH_TO_BOOTLOADER,
        }
    }

    /// The reply tag this operation expects: in this protocol every reply
    /// echoes the command code itself.
    pub fn expected_reply_tag(&self) -> (t: u8)
        ensures
            t == self.spec_code(),
    {
        self.code()
    }

    /// The number of payload bytes appended to the request frame: none for
    /// the queries, four epoch bytes for set-time, and for set-app-packet
    /// the most the frame can carry.
    pub fn request_payload_len(&self) -> (n: usize)
        ensures
            self is SetTime ==> n == 4,
            self is SetAppPacket ==> n == 62,
            !(self is SetTime) && !(self is SetAppPacket) ==> n == 0,
    {
        match self {
            Command::SetTime => 4,
            Command::SetAppPacket => 62,
            _ => 0,
        }
    }
}

/// Builds the request frame of a command without payload: the report-ID
/// prefix byte followed by the command code.
pub fn command_request(code: u8) -> (r: Vec<u8>)
    ensures
        r@ == seq![REQUEST_PREFIX, code],
{
    let mut v: Vec<u8> = Vec::new();
    v.push(REQUEST_PREFIX);
    v.push(code);
    proof {
        assert(v@ =~= seq![REQUEST_PREFIX, code]);
    }
    v
}

/// Builds the set-time request frame: prefix, command code, then the low 32
/// bits of the epoch second count, little-endian.
pub fn set_time_request(unix_time_stamp: i64) -> (r: Vec<u8>)
    ensures
        r@.len() == 6,
        r@[0] == REQUEST_PREFIX,
        r@[1] == USB_MSG_TYPE_SET_TIME,
        forall|k: int| 0 <= k < 4 ==> (r@[2 + k] as int) == le_byte_of(low_u32(unix_time_stamp), k),
{
    let mut v: Vec<u8> = Vec::new();
    v.push(REQUEST_PREFIX);
    v.push(USB_MSG_TYPE_SET_TIME);
    v.push(0);
    v.push(0);
    v.push(0);
    v.push(0);
    convert_date_to_four_bytes_in_buffer(&mut v, 2, unix_time_stamp);
    v
}

/// Builds the set-app-packet request frame: prefix, command code, then the
/// application payload copied verbatim.
pub fn set_app_packet_request(msg_data: &[u8]) -> (r: Vec<u8>)
    requires
        msg_data@.len() <= 62,
    ensures
        r@ == seq![REQUEST_PREFIX, USB_MSG_TYPE_SET_APP_PACKET] + msg_data@,
{
    let mut v: Vec<u8> = Vec::new();
    v.push(REQUEST_PREFIX);
    v.push(USB_MSG_TYPE_SET_APP_PACKET);
    let mut i: usize = 0;
    while i < msg_data.len()
        invariant
            i <= msg_data@.len(),
            v@ == seq![REQUEST_PREFIX, USB_MSG_TYPE_SET_APP_PACKET] + msg_data@.take(i as int),
        decreases msg_data@.len() - i,
    {
        v.push(msg_data[i]);
        proof {
            assert(v@ =~= seq![REQUEST_PREFIX, USB_MSG_TYPE_SET_APP_PACKET]
                + msg_data@.take(i + 1));
        }
        i += 1;
    }
    proof {
        assert(msg_data@.take(i as int) == msg_data@);
        assert(v@ =~= seq![REQUEST_PREFIX, USB_MSG_TYPE_SET_APP_PACKET] + msg_data@);
    }
    v
}

/// Decides what a write outcome means: a channel error is a transport
/// failure carried verbatim, zero bytes written is a failure too, and only
/// a positive count passes.
pub fn check_write_outcome(res: Result<usize, String>) -> (r: Result<usize, AudioMothError>)
    ensures
        res matches Err(e) ==> r == Err::<usize, AudioMothError>(AudioMothError::Transport(e)),
        res matches Ok(n) ==> ((n == 0 ==> r == Err::<usize, AudioMothError>(AudioMothError::NoData))
            && (n > 0 ==> r == Ok::<usize, AudioMothError>(n))),
{
    match res {
        Err(e) => Err(AudioMothError::Transport(e)),
        Ok(n) => {
            if n == 0 {
                Err(AudioMothError::NoData)
            } else {
                Ok(n)
            }
        },
    }
}

/// Decides the get-time exchange from the read outcome: on a valid reply,
/// the decoded epoch timestamp.
pub fn get_time_reply(read: Result<(usize, Vec<u8>), String>) -> (r: Result<i64, AudioMothError>)
    requires
        read matches Ok(p) ==> p.1.len() == REPLY_FRAME_LEN,
    ensures
        read matches Err(e) ==> r == Err::<i64, AudioMothError>(AudioMothError::Transport(e)),
        read matches Ok(p) ==> ((p.0 == 0 ==> r == Err::<i64, AudioMothError>(AudioMothError::NoData))
            && (p.0 > 0 && p.1[0] != USB_MSG_TYPE_GET_TIME
                ==> r == Err::<i64, AudioMothError>(AudioMothError::ProtocolMismatch))
            && (p.0 > 0 && p.1[0] == USB_MSG_TYPE_GET_TIME
                ==> (r matches Ok(t) && t as int == timestamp_of(p.1@, 1)))),
{
    match read {
        Err(e) => Err(AudioMothError::Transport(e)),
        Ok((n, buf)) => {
            if n == 0 {
                Err(AudioMothError::NoData)
            } else {
                let codec = |b: Vec<u8>, o: usize| -> (t: i64)
                    requires
                        o + 4 <= b.len(),
                    ensures
                        t as int == timestamp_of(b@, o as int),
                    { convert_four_bytes_from_buffer_to_date(b.as_slice(), o) };
                make_response_handler(USB_MSG_TYPE_GET_TIME, codec, None, Some(buf))
            }
        },
    }
}

/// Decides the set-time exchange from the read outcome: on a valid tag
/// echo, the number of bytes the read returned.
pub fn set_time_reply(read: Result<(usize, Vec<u8>), String>) -> (r: Result<usize, AudioMothError>)
    requires
        read matches Ok(p) ==> p.1.len() == REPLY_FRAME_LEN,
    ensures
        read matches Err(e) ==> r == Err::<usize, AudioMothError>(AudioMothError::Transport(e)),
        read matches Ok(p) ==> ((p.0 == 0 ==> r == Err::<usize, AudioMothError>(AudioMothError::NoData))
            && (p.0 > 0 && p.1[0] != USB_MSG_TYPE_SET_TIME
                ==> r == Err::<usize, AudioMothError>(AudioMothError::ProtocolMismatch))
            && (p.0 > 0 && p.1[0] == USB_MSG_TYPE_SET_TIME
                ==> r == Ok::<usize, AudioMothError>(p.0))),
{
    match read {
        Err(e) => Err(AudioMothError::Transport(e)),
        Ok((n, buf)) => {
            if n == 0 {
                Err(AudioMothError::NoData)
            } else {
                let echo = |_b: Vec<u8>, _o: usize| -> (s: usize)
                    ensures
                        s == n,
                    { n };
                make_response_handler(USB_MSG_TYPE_SET_TIME, echo, None, Some(buf))
            }
        },
    }
}

/// Decides the get-uid exchange from the read outcome: on a valid reply,
/// the identifier rendered as 16 uppercase hexadecimal characters.
pub fn get_id_reply(read: Result<(usize, Vec<u8>), String>) -> (r: Result<String, AudioMothError>)
    requires
        read matches Ok(p) ==> p.1.len() == REPLY_FRAME_LEN,
    ensures
        read matches Err(e) ==> r == Err::<String, AudioMothError>(AudioMothError::Transport(e)),
        read matches Ok(p) ==> ((p.0 == 0 ==> r == Err::<String, AudioMothError>(AudioMothError::NoData))
            && (p.0 > 0 && p.1[0] != USB_MSG_TYPE_GET_UID
                ==> r == Err::<String, AudioMothError>(AudioMothError::ProtocolMismatch))
            && (p.0 > 0 && p.1[0] == USB_MSG_TYPE_GET_UID
                ==> (r matches Ok(s) && s@ == id_of(p.1@, 1)))),
{
    match read {
        Err(e) => Err(AudioMothError::Transport(e)),
        Ok((n, buf)) => {
            if n == 0 {
                Err(AudioMothError::NoData)
            } else {
                let codec = |b: Vec<u8>, o: usize| -> (s: String)
                    requires
                        o + 8 <= b.len(),
                    ensures
                        s@ == id_of(b@, o as int),
                    { convert_four_bytes_from_buffer_to_id(b.as_slice(), o) };
                make_response_handler(USB_MSG_TYPE_GET_UID, codec, None, Some(buf))
            }
        },
    }
}

/// Decides the get-battery exchange from the read outcome: on a valid
/// reply, the battery label of the battery byte. A read that completes
/// without data is the battery-specific failure.
pub fn get_battery_reply(read: Result<(usize, Vec<u8>), String>) -> (r: Result<String, AudioMothError>)
    requires
        read matches Ok(p) ==> p.1.len() == REPLY_FRAME_LEN,
    ensures
        read matches Err(e) ==> r == Err::<String, AudioMothError>(AudioMothError::Transport(e)),
        read matches Ok(p) ==> ((p.0 == 0
                ==> r == Err::<String, AudioMothError>(AudioMothError::BatteryReadFailed))
            && (p.0 > 0 && p.1[0] != USB_MSG_TYPE_GET_BATTERY
                ==> r == Err::<String, AudioMothError>(AudioMothError::ProtocolMismatch))
            && (p.0 > 0 && p.1[0] == USB_MSG_TYPE_GET_BATTERY
                ==> (r matches Ok(s) && s@ == battery_label_of(p.1[1])))),
{
    match read {
        Err(e) => Err(AudioMothError::Transport(e)),
        Ok((n, buf)) => {
            if n == 0 {
                Err(AudioMothError::BatteryReadFailed)
            } else {
                let codec = |b: Vec<u8>, o: usize| -> (s: String)
                    requires
                        o < b.len(),
                    ensures
                        s@ == battery_label_of(b[o as int]),
                    { convert_one_byte_from_buffer_to_battery_state(b.as_slice(), o) };
                make_response_handler(USB_MSG_TYPE_GET_BATTERY, codec, None, Some(buf))
            }
        },
    }
}

/// Decides the get-app-packet exchange from the read outcome: on a valid
/// reply, the whole raw reply frame, tag byte included, as the opaque
/// application payload.
pub fn get_packet_reply(read: Result<(usize, Vec<u8>), String>) -> (r: Result<Vec<u8>, AudioMothError>)
    requires
        read matches Ok(p) ==> p.1.len() == REPLY_FRAME_LEN,
    ensures
        read matches Err(e) ==> r == Err::<Vec<u8>, AudioMothError>(AudioMothError::Transport(e)),
        read matches Ok(p) ==> ((p.0 == 0 ==> r == Err::<Vec<u8>, AudioMothError>(AudioMothError::NoData))
            && (p.0 > 0 && p.1[0] != USB_MSG_TYPE_GET_APP_PACKET
                ==> r == Err::<Vec<u8>, AudioMothError>(AudioMothError::ProtocolMismatch))
            && (p.0 > 0 && p.1[0] == USB_MSG_TYPE_GET_APP_PACKET
                ==> (r matches Ok(d) && d@ == p.1@))),
{
    match read {
        Err(e) => Err(AudioMothError::Transport(e)),
        Ok((n, buf)) => {
            if n == 0 {
                Err(AudioMothError::NoData)
            } else {
                let whole = |b: Vec<u8>, _o: usize| -> (d: Vec<u8>)
                    ensures
                        d@ == b@,
                    { b };
                make_response_handler(USB_MSG_TYPE_GET_APP_PACKET, whole, None, Some(buf))
            }
        },
    }
}

/// Decides the set-app-packet exchange from the read outcome: on a valid
/// tag echo, the number of bytes the read returned.
pub fn set_app_packet_reply(read: Result<(usize, Vec<u8>), String>) -> (r: Result<usize, AudioMothError>)
    requires
        read matches Ok(p) ==> p.1.len() == REPLY_FRAME_LEN,
    ensures
        read matches Err(e) ==> r == Err::<usize, AudioMothError>(AudioMothError::Transport(e)),
        read matches Ok(p) ==> ((p.0 == 0 ==> r == Err::<usize, AudioMothError>(AudioMothError::NoData))
            && (p.0 > 0 && p.1[0] != USB_MSG_TYPE_SET_APP_PACKET
                ==> r == Err::<usize, AudioMothError>(AudioMothError::ProtocolMismatch))
            && (p.0 > 0 && p.1[0] == USB_MSG_TYPE_SET_APP_PACKET
                ==> r == Ok::<usize, AudioMothError>(p.0))),
{
    match read {
        Err(e) => Err(AudioMothError::Transport(e)),
        Ok((n, buf)) => {
            if n == 0 {
                Err(AudioMothError::NoData)
            } else {
                let echo = |_b: Vec<u8>, _o: usize| -> (s: usize)
                    ensures
                        s == n,
                    { n };
                make_response_handler(USB_MSG_TYPE_SET_APP_PACKET, echo, None, Some(buf))
            }
        },
    }
}

/// Decides the get-firmware-version exchange from the read outcome: on a
/// valid reply, the (major, minor, patch) triple in transmitted order.
pub fn get_firmware_version_reply(read: Result<(usize, Vec<u8>), String>) -> (r: Result<
    [u8; 3],
    AudioMothError,
>)
    requires
        read matches Ok(p) ==> p.1.len() == REPLY_FRAME_LEN,
    ensures
        read matches Err(e) ==> r == Err::<[u8; 3], AudioMothError>(AudioMothError::Transport(e)),
        read matches Ok(p) ==> ((p.0 == 0 ==> r == Err::<[u8; 3], AudioMothError>(AudioMothError::NoData))
            && (p.0 > 0 && p.1[0] != USB_MSG_TYPE_GET_FIRMWARE_VERSION
                ==> r == Err::<[u8; 3], AudioMothError>(AudioMothError::ProtocolMismatch))
            && (p.0 > 0 && p.1[0] == USB_MSG_TYPE_GET_FIRMWARE_VERSION
                ==> (r matches Ok(ver)
                    && ver@ =~= seq![p.1[1], p.1[2], p.1[3]]))),
{
    match read {
        Err(e) => Err(AudioMothError::Transport(e)),
        Ok((n, buf)) => {
            if n == 0 {
                Err(AudioMothError::NoData)
            } else {
                let codec = |b: Vec<u8>, o: usize| -> (ver: [u8; 3])
                    requires
                        o + 3 <= b.len(),
                    ensures
                        ver@ =~= seq![b[o as int], b[o as int + 1], b[o as int + 2]],
                    { convert_three_bytes_from_buffer_to_firmware_version(b.as_slice(), o) };
                make_response_handler(USB_MSG_TYPE_GET_FIRMWARE_VERSION, codec, None, Some(buf))
            }
        },
    }
}

/// Decides the get-firmware-description exchange from the read outcome: on
/// a valid reply, the zero-terminated description string of the 32-byte
/// window after the tag.
pub fn get_firmware_description_reply(read: Result<(usize, Vec<u8>), String>) -> (r: Result<
    String,
    AudioMothError,
>)
    requires
        read matches Ok(p) ==> p.1.len() == REPLY_FRAME_LEN,
    ensures
        read matches Err(e) ==> r == Err::<String, AudioMothError>(AudioMothError::Transport(e)),
        read matches Ok(p) ==> ((p.0 == 0 ==> r == Err::<String, AudioMothError>(AudioMothError::NoData))
            && (p.0 > 0 && p.1[0] != USB_MSG_TYPE_GET_FIRMWARE_DESCRIPTION
                ==> r == Err::<String, AudioMothError>(AudioMothError::ProtocolMismatch))
            && (p.0 > 0 && p.1[0] == USB_MSG_TYPE_GET_FIRMWARE_DESCRIPTION
                ==> (r matches Ok(s) && s@ == description_of(p.1@, 1)))),
{
    match read {
        Err(e) => Err(AudioMothError::Transport(e)),
        Ok((n, buf)) => {
            if n == 0 {
                Err(AudioMothError::NoData)
            } else {
                let codec = |b: Vec<u8>, o: usize| -> (s: String)
                    requires
                        o + 32 <= b.len(),
                    ensures
                        s@ == description_of(b@, o as int),
                    { convert_bytes_from_buffer_to_firmware_description(b.as_slice(), o) };
                make_response_handler(USB_MSG_TYPE_GET_FIRMWARE_DESCRIPTION, codec, None, Some(buf))
            }
        },
    }
}

/// Decides the query-bootloader exchange from the read outcome. The
/// bootloader codec judges the raw frame itself — tag byte included — and
/// yields false on every other input, a failed read among them, so this
/// decision never raises an error.
pub fn query_bootloader_reply(read: Result<(usize, Vec<u8>), String>) -> (r: bool)
    requires
        read matches Ok(p) ==> p.1.len() == REPLY_FRAME_LEN,
    ensures
        read matches Ok(p) ==> r == bootloader_state_of(p.1@),
        read is Err ==> r == false,
{
    match read {
        Err(_) => false,
        Ok((_, buf)) => convert_bytes_to_bootloader_state(buf.as_slice(), 1),
    }
}

/// Decides the switch-to-bootloader exchange from the read outcome: on a
/// valid tag echo, the number of bytes the read returned.
pub fn switch_to_bootloader_reply(read: Result<(usize, Vec<u8>), String>) -> (r: Result<
    usize,
    AudioMothError,
>)
    requires
        read matches Ok(p) ==> p.1.len() == REPLY_FRAME_LEN,
    ensures
        read matches Err(e) ==> r == Err::<usize, AudioMothError>(AudioMothError::Transport(e)),
        read matches Ok(p) ==> ((p.0 == 0 ==> r == Err::<usize, AudioMothError>(AudioMothError::NoData))
            && (p.0 > 0 && p.1[0] != USB_MSG_TYPE_SWITCH_TO_BOOTLOADER
                ==> r == Err::<usize, AudioMothError>(AudioMothError::ProtocolMismatch))
            && (p.0 > 0 && p.1[0] == USB_MSG_TYPE_SWITCH_TO_BOOTLOADER
                ==> r == Ok::<usize, AudioMothError>(p.0))),
{
    match read {
        Err(e) => Err(AudioMothError::Transport(e)),
        Ok((n, buf)) => {
            if n == 0 {
                Err(AudioMothError::NoData)
            } else {
                let echo = |_b: Vec<u8>, _o: usize| -> (s: usize)
                    ensures
                        s == n,
                    { n };
                make_response_handler(USB_MSG_TYPE_SWITCH_TO_BOOTLOADER, echo, None, Some(buf))
            }
        },
    }
}

} // verus!
