//! Field codecs: pure functions between raw frame bytes and typed values.
//!
//! Each codec reads (or writes) a fixed-layout payload at a given offset of a
//! frame buffer. The spec functions beside them state, byte for byte, what
//! each codec computes, and the proof functions at the end state the laws
//! that hold of them: the timestamp round trip and the shape of a rendered
//! identifier.

use vstd::prelude::*;
use vstd::arithmetic::div_mod::{
    lemma_div_denominator, lemma_fundamental_div_mod, lemma_mod_multiples_vanish, lemma_small_mod,
};
use crate::errors::AudioMothError;
use crate::protocol::USB_MSG_TYPE_QUERY_BOOTLOADER;

verus! {

/// The four bytes starting at `off`, read little-endian as an unsigned
/// 32-bit value.
pub open spec fn le_u32_of(b: Seq<u8>, off: int) -> int {
    b[off] + b[off + 1] * 0x100 + b[off + 2] * 0x1_0000 + b[off + 3] * 0x100_0000
}

/// The four bytes starting at `off`, read little-endian as a signed 32-bit
/// Unix epoch second count, widened to 64 bits.
pub open spec fn timestamp_of(b: Seq<u8>, off: int) -> int {
    if le_u32_of(b, off) < 0x8000_0000 {
        le_u32_of(b, off)
    } else {
        le_u32_of(b, off) - 0x1_0000_0000
    }
}

/// The low 32 bits of a 64-bit epoch second count, as a value in
/// `[0, 2^32)`.
pub open spec fn low_u32(t: i64) -> int {
    (t as int) % 0x1_0000_0000
}

/// Byte `k` (0 = least significant) of a value `u` in `[0, 2^32)`, as
/// written little-endian.
pub open spec fn le_byte_of(u: int, k: int) -> int {
    if k == 0 {
        u % 0x100
    } else if k == 1 {
        (u / 0x100) % 0x100
    } else if k == 2 {
        (u / 0x1_0000) % 0x100
    } else {
        (u / 0x100_0000) % 0x100
    }
}

/// The uppercase hexadecimal digit for a value in `[0, 16)`.
pub open spec fn hex_digit(n: int) -> char {
    if n == 0 { '0' }
    else if n == 1 { '1' }
    else if n == 2 { '2' }
    else if n == 3 { '3' }
    else if n == 4 { '4' }
    else if n == 5 { '5' }
    else if n == 6 { '6' }
    else if n == 7 { '7' }
    else if n == 8 { '8' }
    else if n == 9 { '9' }
    else if n == 10 { 'A' }
    else if n == 11 { 'B' }
    else if n == 12 { 'C' }
    else if n == 13 { 'D' }
    else if n == 14 { 'E' }
    else { 'F' }
}

/// Whether `c` is one of the sixteen uppercase hexadecimal characters.
pub open spec fn is_upper_hex_digit(c: char) -> bool {
    ||| c == '0' ||| c == '1' ||| c == '2' ||| c == '3'
    ||| c == '4' ||| c == '5' ||| c == '6' ||| c == '7'
    ||| c == '8' ||| c == '9' ||| c == 'A' ||| c == 'B'
    ||| c == 'C' ||| c == 'D' ||| c == 'E' ||| c == 'F'
}

/// The rendering of the eight identifier bytes starting at `off`: byte order
/// reversed, two uppercase hexadecimal digits per byte.
pub open spec fn id_of(b: Seq<u8>, off: int) -> Seq<char> {
    Seq::new(16, |i: int|
        if i % 2 == 0 {
            hex_digit((b[off + 7 - i / 2] as int) / 16)
        } else {
            hex_digit((b[off + 7 - i / 2] as int) % 16)
        })
}

/// The battery label for a raw battery byte: 0 and 1..=15 are the saturated
/// categories, anything above is `3.5 + value / 10` volts rendered with one
/// decimal digit.
pub open spec fn battery_label_of(v: u8) -> Seq<char> {
    if v == 0 {
        seq!['<', ' ', '3', '.', '6', 'V']
    } else if v <= 15 {
        seq!['>', ' ', '4', '.', '9', 'V']
    } else {
        let tenths = 35 + v as int;
        if tenths < 100 {
            seq![hex_digit(tenths / 10), '.', hex_digit(tenths % 10), 'V']
        } else {
            seq![
                hex_digit(tenths / 100),
                hex_digit((tenths / 10) % 10),
                '.',
                hex_digit(tenths % 10),
                'V',
            ]
        }
    }
}

/// The number of description bytes before the terminating zero, counted from
/// position `i` of the 32-byte window at `off`; 32 if no zero byte occurs.
pub open spec fn desc_len_from(b: Seq<u8>, off: int, i: int) -> int
    decreases 32 - i,
{
    if i < 0 || i >= 32 {
        32
    } else if b[off + i] == 0 {
        i
    } else {
        desc_len_from(b, off, i + 1)
    }
}

/// The description string in the 32-byte window at `off`: every byte before
/// the first zero byte, read as a Latin-1 code point.
pub open spec fn description_of(b: Seq<u8>, off: int) -> Seq<char> {
    Seq::new(desc_len_from(b, off, 0) as nat, |j: int| b[off + j] as char)
}

/// Whether a raw reply frame reports bootloader mode: byte 0 must carry the
/// query-bootloader command code and byte 1 the value one.
pub open spec fn bootloader_state_of(b: Seq<u8>) -> bool {
    b[0] == USB_MSG_TYPE_QUERY_BOOTLOADER && b[1] == 0x01
}

/// Relies on `String::push`: appends exactly one character at the end of the
/// string.
#[verifier::external_body]
fn push_char(s: &mut String, c: char)
    ensures
        final(s)@ == old(s)@.push(c),
{
    s.push(c);
}

/// The uppercase hexadecimal character for a value below 16.
fn hex_char(n: u8) -> (c: char)
    requires
        n < 16,
    ensures
        c == hex_digit(n as int),
{
    match n {
        0 => '0',
        1 => '1',
        2 => '2',
        3 => '3',
        4 => '4',
        5 => '5',
        6 => '6',
        7 => '7',
        8 => '8',
        9 => '9',
        10 => 'A',
        11 => 'B',
        12 => 'C',
        13 => 'D',
        14 => 'E',
        _ => 'F',
    }
}

/// Reads 4 bytes little-endian starting at `offset` and interprets them as a
/// signed 32-bit Unix epoch second count widened to 64 bits.
pub fn convert_four_bytes_from_buffer_to_date(buffer: &[u8], offset: usize) -> (r: i64)
    requires
        offset + 4 <= buffer@.len(),
    ensures
        r == timestamp_of(buffer@, offset as int),
{
    let b0 = buffer[offset] as i64;
    let b1 = buffer[offset + 1] as i64;
    let b2 = buffer[offset + 2] as i64;
    let b3 = buffer[offset + 3] as i64;
    let u: i64 = b0 + b1 * 0x100 + b2 * 0x1_0000 + b3 * 0x100_0000;
    if u < 0x8000_0000 {
        u
    } else {
        u - 0x1_0000_0000
    }
}

/// Writes the low 32 bits of a 64-bit epoch second count into 4 bytes
/// little-endian at `offset`. A value outside signed 32-bit range is
/// truncated to its low 32 bits; nothing outside the four bytes is touched.
pub fn convert_date_to_four_bytes_in_buffer(buffer: &mut Vec<u8>, offset: usize, unix_time_stamp: i64)
    requires
        offset + 4 <= old(buffer).len(),
    ensures
        final(buffer).len() == old(buffer).len(),
        forall|k: int| 0 <= k < 4 ==>
            (final(buffer)@[offset + k] as int) == le_byte_of(low_u32(unix_time_stamp), k),
        forall|i: int|
            0 <= i < old(buffer).len() && !(offset <= i < offset + 4)
                ==> final(buffer)@[i] == old(buffer)@[i],
{
    let u: u64 = if unix_time_stamp >= 0 {
        (unix_time_stamp as u64) % 0x1_0000_0000
    } else {
        let neg: u64 = (-(unix_time_stamp + 1)) as u64;
        0xFFFF_FFFF - (neg % 0x1_0000_0000)
    };
    proof {
        let ti = unix_time_stamp as int;
        let m: int = 0x1_0000_0000;
        if unix_time_stamp >= 0 {
            assert(u == ti % m);
        } else {
            let n = (-(unix_time_stamp + 1)) as u64 as int;
            let q = n / m;
            let r = n % m;
            lemma_fundamental_div_mod(n, m);
            assert(ti == m * (-q - 1) + (m - 1 - r)) by {
                assert(m * (-q - 1) == -(m * q) - m) by (nonlinear_arith);
            }
            lemma_mod_multiples_vanish(-q - 1, m - 1 - r, m);
            lemma_small_mod((m - 1 - r) as nat, m as nat);
            assert(u == ti % m);
        }
        assert(u == low_u32(unix_time_stamp));
    }
    buffer.set(offset, (u % 0x100) as u8);
    buffer.set(offset + 1, ((u / 0x100) % 0x100) as u8);
    buffer.set(offset + 2, ((u / 0x1_0000) % 0x100) as u8);
    proof {
        assert(u / 0x100_0000 < 0x100) by {
            lemma_fundamental_div_mod(u as int, 0x100_0000);
        }
    }
    buffer.set(offset + 3, (u / 0x100_0000) as u8);
    proof {
        assert((u / 0x100_0000) % 0x100 == u as int / 0x100_0000) by {
            lemma_small_mod((u as int / 0x100_0000) as nat, 0x100);
        }
    }
}

/// Reads the 8 identifier bytes starting at `offset`, reverses their order,
/// and renders them as 16 uppercase hexadecimal characters.
pub fn convert_four_bytes_from_buffer_to_id(buffer: &[u8], offset: usize) -> (r: String)
    requires
        offset + 8 <= buffer@.len(),
    ensures
        r@ == id_of(buffer@, offset as int),
{
    let len = buffer.len();
    let mut s = String::new();
    let mut k: usize = 0;
    while k < 8
        invariant
            k <= 8,
            offset + 8 <= len,
            len == buffer@.len(),
            s@.len() == 2 * k,
            forall|i: int| 0 <= i < 2 * k ==> s@[i] == id_of(buffer@, offset as int)[i],
        decreases 8 - k,
    {
        let byte = buffer[offset + 7 - k];
        push_char(&mut s, hex_char(byte / 16));
        push_char(&mut s, hex_char(byte % 16));
        k += 1;
    }
    proof {
        assert(s@ =~= id_of(buffer@, offset as int));
    }
    s
}

/// Reads the battery byte at `offset` and renders the battery label: the two
/// saturated categories for 0 and 1..=15, otherwise `3.5 + value / 10` volts
/// with one decimal digit.
pub fn convert_one_byte_from_buffer_to_battery_state(buffer: &[u8], offset: usize) -> (r: String)
    requires
        offset < buffer@.len(),
    ensures
        r@ == battery_label_of(buffer@[offset as int]),
{
    let battery_state = buffer[offset];
    if battery_state == 0 {
        let s = "< 3.6V".to_owned();
        proof {
            reveal_strlit("< 3.6V");
            assert(s@ =~= battery_label_of(buffer@[offset as int]));
        }
        return s;
    }
    if battery_state <= 15 {
        let s = "> 4.9V".to_owned();
        proof {
            reveal_strlit("> 4.9V");
            assert(s@ =~= battery_label_of(buffer@[offset as int]));
        }
        return s;
    }
    let tenths: u16 = 35 + battery_state as u16;
    let mut s = String::new();
    if tenths >= 100 {
        push_char(&mut s, hex_char((tenths / 100) as u8));
        push_char(&mut s, hex_char(((tenths / 10) % 10) as u8));
    } else {
        push_char(&mut s, hex_char((tenths / 10) as u8));
    }
    push_char(&mut s, '.');
    push_char(&mut s, hex_char((tenths % 10) as u8));
    push_char(&mut s, 'V');
    proof {
        assert(s@ =~= battery_label_of(buffer@[offset as int]));
    }
    s
}

/// Reads exactly 3 bytes at `offset` and returns them as the ordered triple
/// (major, minor, patch), in transmitted byte order.
pub fn convert_three_bytes_from_buffer_to_firmware_version(buffer: &[u8], offset: usize) -> (r: [u8; 3])
    requires
        offset + 3 <= buffer@.len(),
    ensures
        r@ =~= seq![
            buffer@[offset as int],
            buffer@[offset as int + 1],
            buffer@[offset as int + 2],
        ],
{
    let r = [buffer[offset], buffer[offset + 1], buffer[offset + 2]];
    proof {
        assert(r@ =~= seq![
            buffer@[offset as int],
            buffer@[offset as int + 1],
            buffer@[offset as int + 2],
        ]);
    }
    r
}

/// Reads up to 32 bytes at `offset`, stops at the first zero byte, and
/// returns the bytes before it as a string of Latin-1 code points. Never
/// reads past `offset + 32`.
pub fn convert_bytes_from_buffer_to_firmware_description(buffer: &[u8], offset: usize) -> (r: String)
    requires
        offset + 32 <= buffer@.len(),
    ensures
        r@ == description_of(buffer@, offset as int),
{
    let len = buffer.len();
    let mut n: usize = 0;
    while n < 32 && buffer[offset + n] != 0
        invariant
            n <= 32,
            offset + 32 <= len,
            len == buffer@.len(),
            desc_len_from(buffer@, offset as int, n as int)
                == desc_len_from(buffer@, offset as int, 0),
        decreases 32 - n,
    {
        n += 1;
    }
    proof {
        assert(n as int == desc_len_from(buffer@, offset as int, 0));
    }
    let mut s = String::new();
    let mut j: usize = 0;
    while j < n
        invariant
            j <= n,
            n <= 32,
            offset + 32 <= len,
            len == buffer@.len(),
            s@.len() == j,
            forall|i: int| 0 <= i < j ==> s@[i] == (buffer@[offset + i] as char),
        decreases n - j,
    {
        push_char(&mut s, buffer[offset + j] as char);
        j += 1;
    }
    proof {
        assert(s@ =~= description_of(buffer@, offset as int));
    }
    s
}

/// Decides from a raw, untrimmed reply frame whether the device reports
/// bootloader mode. This codec inspects bytes 0 and 1 of the whole frame —
/// the reply tag itself and the flag byte — and yields false on every other
/// input, so the `offset` parameter that its sibling codecs use plays no
/// part in the result.
#[allow(unused_variables)]
pub fn convert_bytes_to_bootloader_state(buffer: &[u8], offset: usize) -> (r: bool)
    requires
        buffer@.len() >= 2,
    ensures
        r == bootloader_state_of(buffer@),
{
    buffer[0] == USB_MSG_TYPE_QUERY_BOOTLOADER && buffer[1] == 0x01
}

/// Validates a raw reply against the command code that was sent, then
/// applies a codec to its payload.
///
/// Exactly one of a transport error and a reply buffer is handed in, the
/// transport's contract ruling out the empty call shape. A transport error
/// wins unconditionally and is carried verbatim; a reply whose tag byte
/// differs from `message_type` is rejected without the codec ever running;
/// only a matching reply is decoded, from offset 1, right after the tag.
pub fn make_response_handler<T, F: Fn(Vec<u8>, usize) -> T>(
    message_type: u8,
    convert: F,
    err: Option<String>,
    data: Option<Vec<u8>>,
) -> (r: Result<T, AudioMothError>)
    requires
        err is Some || data is Some,
        data is Some ==> data->0.len() >= 1,
        (err is None && data is Some && data->0[0] == message_type)
            ==> call_requires(convert, (data->0, 1usize)),
    ensures
        err is Some ==> r == Err::<T, AudioMothError>(AudioMothError::Transport(err->0)),
        (err is None && data is Some && data->0[0] != message_type)
            ==> r == Err::<T, AudioMothError>(AudioMothError::ProtocolMismatch),
        (err is None && data is Some && data->0[0] == message_type)
            ==> (r is Ok && call_ensures(convert, (data->0, 1usize), r->Ok_0)),
{
    match err {
        Some(e) => Err(AudioMothError::Transport(e)),
        None => match data {
            Some(d) => {
                if d[0] == message_type {
                    Ok(convert(d, 1))
                } else {
                    Err(AudioMothError::ProtocolMismatch)
                }
            },
            None => vstd::pervasive::unreached(),
        },
    }
}

/// Law: a value in `[0, 2^32)` is recomposed exactly from its four
/// little-endian bytes.
proof fn lemma_le_byte_recompose(u: int)
    requires
        0 <= u < 0x1_0000_0000,
    ensures
        le_byte_of(u, 0) + le_byte_of(u, 1) * 0x100 + le_byte_of(u, 2) * 0x1_0000
            + le_byte_of(u, 3) * 0x100_0000 == u,
{
    let q1 = u / 0x100;
    let q2 = u / 0x1_0000;
    let q3 = u / 0x100_0000;
    lemma_fundamental_div_mod(u, 0x100);
    lemma_div_denominator(u, 0x100, 0x100);
    lemma_fundamental_div_mod(q1, 0x100);
    lemma_div_denominator(u, 0x1_0000, 0x100);
    lemma_fundamental_div_mod(q2, 0x100);
    lemma_fundamental_div_mod(u, 0x100_0000);
    lemma_small_mod(q3 as nat, 0x100);
}

/// Law: encoding a timestamp within signed 32-bit range into four
/// little-endian bytes and decoding those bytes yields the timestamp again.
pub proof fn lemma_timestamp_round_trip(b: Seq<u8>, off: int, t: i64)
    requires
        -0x8000_0000 <= t < 0x8000_0000,
        0 <= off,
        off + 4 <= b.len(),
        forall|k: int| 0 <= k < 4 ==> (b[off + k] as int) == le_byte_of(low_u32(t), k),
    ensures
        timestamp_of(b, off) == t,
{
    let ti = t as int;
    let m: int = 0x1_0000_0000;
    let u = low_u32(t);
    if ti >= 0 {
        lemma_small_mod(ti as nat, m as nat);
        assert(u == ti);
    } else {
        lemma_mod_multiples_vanish(1, ti, m);
        lemma_small_mod((ti + m) as nat, m as nat);
        assert(u == ti + m);
    }
    lemma_le_byte_recompose(u);
    assert(le_u32_of(b, off) == u);
}

/// Law: the identifier rendering of any eight bytes is exactly 16 uppercase
/// hexadecimal characters, and its first two characters render the last of
/// the eight bytes.
pub proof fn lemma_identifier_shape(b: Seq<u8>, off: int)
    requires
        0 <= off,
        off + 8 <= b.len(),
    ensures
        id_of(b, off).len() == 16,
        forall|i: int| 0 <= i < 16 ==> is_upper_hex_digit(#[trigger] id_of(b, off)[i]),
        id_of(b, off)[0] == hex_digit((b[off + 7] as int) / 16),
        id_of(b, off)[1] == hex_digit((b[off + 7] as int) % 16),
{
    assert forall|i: int| 0 <= i < 16 implies is_upper_hex_digit(id_of(b, off)[i]) by {
        if i % 2 == 0 {
            assert(is_upper_hex_digit(hex_digit((b[off + 7 - i / 2] as int) / 16)));
        } else {
            assert(is_upper_hex_digit(hex_digit((b[off + 7 - i / 2] as int) % 16)));
        }
    }
}

} // verus!
