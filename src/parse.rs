use vstd::arithmetic::power2::{lemma2_to64, pow2};
use vstd::prelude::*;
use vstd::utf8::{decode_utf8, valid_utf8};

use crate::element::{
    BinaryValue, Block, Body, Date, Element, FloatBits, Header, Lacing, SimpleBlock, Unsigned,
};
use crate::elements::{Id, Type};
use crate::enumerations::{is_member, Enumeration};
use crate::error::Error;
use crate::text::{as_hex, binary_summary, trim_nul_end, trim_trailing_nul, utf8_string};
use crate::vint::{be_value, id_spec, is_rest_after, parse_id, parse_varint, varint_spec};

verus! {

// ---------------------------------------------------------------------------
// Header
/// Decoding an element header at the start of `s`.
pub open spec fn header_spec(s: Seq<u8>) -> Result<Header, Error> {
    match id_spec(s) {
        Err(e) => Err(e),
        Ok((n1, id)) => match varint_spec(s.subrange(n1 as int, s.len() as int)) {
            Err(e) => Err(e),
            Ok((n2, size)) => {
                let hs = n1 + n2;
                match size {
                    None => if id == Id::Segment || id == Id::Cluster {
                        Ok(
                            Header {
                                id,
                                header_size: hs as usize,
                                body_size: None,
                                size: None,
                                position: None,
                            },
                        )
                    } else {
                        Err(Error::ForbiddenUnknownSize)
                    },
                    Some(b) => if hs + b > usize::MAX {
                        Err(Error::Overflow)
                    } else {
                        Ok(
                            Header {
                                id,
                                header_size: hs as usize,
                                body_size: Some(b as usize),
                                size: Some((hs + b) as usize),
                                position: None,
                            },
                        )
                    },
                }
            },
        },
    }
}

/// A header decoded from the start of `s` is decoded the same from any `t`
/// that `s` begins.
pub proof fn lemma_header_prefix(s: Seq<u8>, t: Seq<u8>)
    requires
        s.len() <= t.len(),
        s == t.subrange(0, s.len() as int),
        header_spec(s) is Ok,
    ensures
        header_spec(t) == header_spec(s),
{
    assert(s[0] == t[0]);
    let w1 = crate::vint::vint_width(s[0]);
    assert(s.subrange(0, w1 as int) =~= t.subrange(0, w1 as int));
    let s2 = s.subrange(w1 as int, s.len() as int);
    let t2 = t.subrange(w1 as int, t.len() as int);
    assert(s2 =~= t2.subrange(0, s2.len() as int));
    assert(s2[0] == t2[0]);
    let w2 = crate::vint::vint_width(s2[0]);
    assert(s2.subrange(0, w2 as int) =~= t2.subrange(0, w2 as int));
}

/// Decodes the header of the element at the start of `input`.
pub fn parse_header(input: &[u8]) -> (r: Result<(&[u8], Header), Error>)
    ensures
        match r {
            Ok((rest, h)) => {
                &&& header_spec(input@) == Ok::<Header, Error>(h)
                &&& is_rest_after(input@, rest@, h.header_size as nat)
                &&& h.wf()
            },
            Err(e) => header_spec(input@) == Err::<Header, Error>(e),
        },
{
    let (after_id, id) = match parse_id(input) {
        Ok(p) => p,
        Err(e) => return Err(e),
    };
    let n1 = input.len() - after_id.len();
    let (rest, size) = match parse_varint(after_id) {
        Ok(p) => p,
        Err(e) => return Err(e),
    };
    let header_size = input.len() - rest.len();
    assert(after_id@ == input@.subrange(n1 as int, input@.len() as int));
    match size {
        None => {
            if !matches!(id, Id::Segment | Id::Cluster) {
                return Err(Error::ForbiddenUnknownSize);
            }
            assert(rest@ =~= input@.subrange(header_size as int, input@.len() as int));
            Ok((rest, Header::with_unknown_size(id, header_size)))
        },
        Some(body_size) => {
            if body_size > usize::MAX - header_size {
                return Err(Error::Overflow);
            }
            assert(rest@ =~= input@.subrange(header_size as int, input@.len() as int));
            Ok((rest, Header::new(id, header_size, body_size)))
        },
    }
}

// ---------------------------------------------------------------------------
// Integer bodies
/// The two's complement reading of a 64-bit pattern.
pub open spec fn to_signed64(v: nat) -> int {
    if v >= 0x8000_0000_0000_0000 {
        v - 0x1_0000_0000_0000_0000
    } else {
        v as int
    }
}

/// An integer type that a body of up to eight bytes is read into: the bytes
/// are padded to eight on the left with zeros and read big-endian.
pub trait Integer64FromBigEndianBytes: Sized {
    /// The value read from a 64-bit big-endian pattern `v`.
    spec fn from_pattern(v: nat) -> Self;

    /// Reads the value of a 64-bit pattern.
    fn from_be_u64(v: u64) -> (r: Self)
        ensures
            r == Self::from_pattern(v as nat),
    ;
}

impl Integer64FromBigEndianBytes for u64 {
    open spec fn from_pattern(v: nat) -> u64 {
        v as u64
    }

    fn from_be_u64(v: u64) -> (r: u64) {
        v
    }
}

impl Integer64FromBigEndianBytes for i64 {
    open spec fn from_pattern(v: nat) -> i64 {
        to_signed64(v) as i64
    }

    fn from_be_u64(v: u64) -> (r: i64) {
        if v >= 0x8000_0000_0000_0000 {
            -((u64::MAX - v) as i64) - 1
        } else {
            v as i64
        }
    }
}

/// The error that reading an integer body of `h` from `s` gives, if any.
pub open spec fn int_error(h: Header, s: Seq<u8>) -> Option<Error> {
    match h.body_size {
        None => Some(Error::ForbiddenUnknownSize),
        Some(b) => if b > 8 {
            Some(Error::ForbiddenIntegerSize)
        } else if s.len() < b {
            Some(Error::NeedData)
        } else {
            None
        },
    }
}

proof fn lemma_be_value_bound(s: Seq<u8>)
    ensures
        be_value(s) < pow2(8 * s.len()),
    decreases s.len(),
{
    if s.len() > 0 {
        lemma_be_value_bound(s.drop_last());
        let e = (8 * (s.len() - 1)) as nat;
        vstd::arithmetic::power2::lemma_pow2_adds(e, 8);
        lemma2_to64();
        let v = be_value(s.drop_last());
        let p = pow2(e);
        let b = s.last();
        assert(v * 256 + b < p * 256) by (nonlinear_arith)
            requires
                v < p,
                b < 256,
        ;
        assert(8 * s.len() == e + 8);
    } else {
        lemma2_to64();
    }
}

/// Reads the big-endian value of up to eight bytes.
fn be_u64(bytes: &[u8]) -> (r: u64)
    requires
        bytes@.len() <= 8,
    ensures
        r == be_value(bytes@),
{
    let mut value: u64 = 0;
    let mut i: usize = 0;
    assert(bytes@.subrange(0, 0).len() == 0);
    while i < bytes.len()
        invariant
            i <= bytes@.len() <= 8,
            value == be_value(bytes@.subrange(0, i as int)),
        decreases bytes@.len() - i,
    {
        let ghost p = bytes@.subrange(0, i as int + 1);
        proof {
            assert(p.drop_last() =~= bytes@.subrange(0, i as int));
            lemma_be_value_bound(p);
            lemma2_to64();
            if i + 1 < 8 {
                vstd::arithmetic::power2::lemma_pow2_strictly_increases(8 * (i + 1) as nat, 64);
            }
        }
        value = value * 256 + bytes[i] as u64;
        i = i + 1;
    }
    assert(bytes@.subrange(0, bytes@.len() as int) =~= bytes@);
    value
}

/// Takes the first `n` bytes of `input`.
pub fn take(input: &[u8], n: usize) -> (r: Result<(&[u8], &[u8]), Error>)
    ensures
        match r {
            Ok((rest, taken)) => n <= input@.len() && taken@ == input@.subrange(0, n as int)
                && is_rest_after(input@, rest@, n as nat),
            Err(e) => n > input@.len() && e == Error::NeedData,
        },
{
    if n > input.len() {
        return Err(Error::NeedData);
    }
    Ok((&input[n..input.len()], &input[0..n]))
}

/// Reads an integer body: up to eight bytes, padded on the left with zeros.
pub fn parse_int<'a, T: Integer64FromBigEndianBytes>(header: &Header, input: &'a [u8]) -> (r:
    Result<(&'a [u8], T), Error>)
    ensures
        match r {
            Ok((rest, v)) => {
                let b = header.body_size.unwrap() as nat;
                &&& int_error(*header, input@) is None
                &&& is_rest_after(input@, rest@, b)
                &&& v == T::from_pattern(be_value(input@.subrange(0, b as int)))
            },
            Err(e) => int_error(*header, input@) == Some(e),
        },
{
    let body_size = match header.body_size {
        Some(b) => b,
        None => return Err(Error::ForbiddenUnknownSize),
    };
    if body_size > 8 {
        return Err(Error::ForbiddenIntegerSize);
    }
    let (rest, bytes) = match take(input, body_size) {
        Ok(p) => p,
        Err(e) => return Err(e),
    };
    Ok((rest, T::from_be_u64(be_u64(bytes))))
}

// ---------------------------------------------------------------------------
// Float bodies
/// The error that reading a float body of `h` from `s` gives, if any.
pub open spec fn float_error(h: Header, s: Seq<u8>) -> Option<Error> {
    match h.body_size {
        None => Some(Error::ForbiddenUnknownSize),
        Some(b) => if b == 4 || b == 8 {
            if s.len() < b {
                Some(Error::NeedData)
            } else {
                None
            }
        } else if b == 0 {
            None
        } else {
            Some(Error::ForbiddenFloatSize)
        },
    }
}

/// The float that a body of 0, 4 or 8 bytes holds; an empty body holds zero.
pub open spec fn float_of(bytes: Seq<u8>) -> FloatBits {
    if bytes.len() == 4 {
        FloatBits::Binary32(be_value(bytes) as u32)
    } else if bytes.len() == 8 {
        FloatBits::Binary64(be_value(bytes) as u64)
    } else {
        FloatBits::Binary64(0)
    }
}

/// Reads a float body of 0, 4 or 8 bytes.
pub fn parse_float<'a>(header: &Header, input: &'a [u8]) -> (r: Result<(&'a [u8], FloatBits), Error>)
    ensures
        match r {
            Ok((rest, f)) => {
                let b = header.body_size.unwrap() as nat;
                &&& float_error(*header, input@) is None
                &&& is_rest_after(input@, rest@, b)
                &&& f == float_of(input@.subrange(0, b as int))
            },
            Err(e) => float_error(*header, input@) == Some(e),
        },
{
    let body_size = match header.body_size {
        Some(b) => b,
        None => return Err(Error::ForbiddenUnknownSize),
    };
    if body_size == 4 {
        let (rest, bytes) = match take(input, 4) {
            Ok(p) => p,
            Err(e) => return Err(e),
        };
        proof {
            lemma_be_value_bound(bytes@);
            lemma2_to64();
        }
        Ok((rest, FloatBits::Binary32(be_u64(bytes) as u32)))
    } else if body_size == 8 {
        let (rest, bytes) = match take(input, 8) {
            Ok(p) => p,
            Err(e) => return Err(e),
        };
        Ok((rest, FloatBits::Binary64(be_u64(bytes))))
    } else if body_size == 0 {
        assert(input@.subrange(0, 0).len() == 0);
        assert(input@.subrange(0, input@.len() as int) =~= input@);
        Ok((input, FloatBits::Binary64(0)))
    } else {
        Err(Error::ForbiddenFloatSize)
    }
}

// ---------------------------------------------------------------------------
// String bodies
/// The error that reading a string body of `h` from `s` gives, if any.
pub open spec fn string_error(h: Header, s: Seq<u8>) -> Option<Error> {
    match h.body_size {
        None => Some(Error::ForbiddenUnknownSize),
        Some(b) => if s.len() < b {
            Some(Error::NeedData)
        } else if !valid_utf8(s.subrange(0, b as int)) {
            Some(Error::InvalidUtf8)
        } else {
            None
        },
    }
}

/// Reads a UTF-8 body, keeping it whole.
pub fn parse_utf8<'a>(header: &Header, input: &'a [u8]) -> (r: Result<(&'a [u8], String), Error>)
    ensures
        match r {
            Ok((rest, v)) => {
                let b = header.body_size.unwrap() as nat;
                &&& string_error(*header, input@) is None
                &&& is_rest_after(input@, rest@, b)
                &&& v@ == decode_utf8(input@.subrange(0, b as int))
            },
            Err(e) => string_error(*header, input@) == Some(e),
        },
{
    let body_size = match header.body_size {
        Some(b) => b,
        None => return Err(Error::ForbiddenUnknownSize),
    };
    let (rest, bytes) = match take(input, body_size) {
        Ok(p) => p,
        Err(e) => return Err(e),
    };
    match utf8_string(bytes) {
        Some(v) => Ok((rest, v)),
        None => Err(Error::InvalidUtf8),
    }
}

/// Reads a string body and removes its trailing NUL characters.
pub fn parse_string<'a>(header: &Header, input: &'a [u8]) -> (r: Result<(&'a [u8], String), Error>)
    ensures
        match r {
            Ok((rest, v)) => {
                let b = header.body_size.unwrap() as nat;
                &&& string_error(*header, input@) is None
                &&& is_rest_after(input@, rest@, b)
                &&& v@ == trim_trailing_nul(decode_utf8(input@.subrange(0, b as int)))
            },
            Err(e) => string_error(*header, input@) == Some(e),
        },
{
    match parse_utf8(header, input) {
        Ok((rest, v)) => Ok((rest, trim_nul_end(&v))),
        Err(e) => Err(e),
    }
}

// ---------------------------------------------------------------------------
// Date bodies
/// Nanoseconds from 1970-01-01T00:00:00Z to 2001-01-01T00:00:00Z, the EBML epoch.
pub const EBML_EPOCH_UNIX_NANOS: i64 = 978_307_200_000_000_000;

/// Whether `secs` seconds after 1970-01-01T00:00:00Z is an instant that the
/// date library represents: a day from January 1 of year -262143 to December
/// 31 of year 262142 of the proleptic Gregorian calendar.
pub open spec fn utc_timestamp_valid(secs: i64) -> bool {
    -8_334_601_228_800 <= secs <= 8_210_266_876_799
}

/// Relies on chrono's `DateTime::<Utc>::from_timestamp`, which returns `Some`
/// exactly when the day of `secs` lies between `NaiveDate::MIN` (January 1 of
/// year `(i32::MIN >> 13) + 1`) and `NaiveDate::MAX` (December 31 of year
/// `(i32::MAX >> 13) - 1`).
#[verifier::external_body]
fn utc_timestamp_is_valid(secs: i64) -> (r: bool)
    ensures
        r == utc_timestamp_valid(secs),
{
    chrono::DateTime::<chrono::Utc>::from_timestamp(secs, 0).is_some()
}

/// Division rounded toward zero.
pub open spec fn trunc_div(a: int, d: int) -> int {
    if a >= 0 {
        a / d
    } else {
        -((-a) / d)
    }
}

/// The whole seconds since 1970-01-01T00:00:00Z of a date body: a signed
/// count of nanoseconds since the EBML epoch. `None` when out of range.
pub open spec fn date_seconds(bytes: Seq<u8>) -> Option<i64> {
    let total = to_signed64(be_value(bytes)) + EBML_EPOCH_UNIX_NANOS;
    if total > i64::MAX {
        None
    } else {
        let secs = trunc_div(total, 1_000_000_000) as i64;
        if utc_timestamp_valid(secs) {
            Some(secs)
        } else {
            None
        }
    }
}

/// The error that reading a date body of `h` from `s` gives, if any.
pub open spec fn date_error(h: Header, s: Seq<u8>) -> Option<Error> {
    match int_error(h, s) {
        Some(e) => Some(e),
        None => if date_seconds(s.subrange(0, h.body_size.unwrap() as int)) is None {
            Some(Error::InvalidDate)
        } else {
            None
        },
    }
}

/// Reads a date body.
pub fn parse_date<'a>(header: &Header, input: &'a [u8]) -> (r: Result<(&'a [u8], Date), Error>)
    ensures
        match r {
            Ok((rest, d)) => {
                let b = header.body_size.unwrap() as nat;
                &&& date_error(*header, input@) is None
                &&& is_rest_after(input@, rest@, b)
                &&& date_seconds(input@.subrange(0, b as int)) == Some(d.timestamp)
            },
            Err(e) => date_error(*header, input@) == Some(e),
        },
{
    let (rest, nanos) = match parse_int::<i64>(header, input) {
        Ok(p) => p,
        Err(e) => return Err(e),
    };
    if nanos > i64::MAX - EBML_EPOCH_UNIX_NANOS {
        return Err(Error::InvalidDate);
    }
    let total = nanos + EBML_EPOCH_UNIX_NANOS;
    let secs: i64 = if total >= 0 {
        ((total as u64) / 1_000_000_000) as i64
    } else {
        -((((-total) as u64) / 1_000_000_000) as i64)
    };
    proof {
        let b = header.body_size.unwrap() as nat;
        let v = be_value(input@.subrange(0, b as int));
        lemma_be_value_bound(input@.subrange(0, b as int));
        assert(i64::MIN <= to_signed64(v) <= i64::MAX) by {
            lemma2_to64();
            if b < 8 {
                vstd::arithmetic::power2::lemma_pow2_strictly_increases(8 * b, 64);
            }
        }
        assert(nanos as int == to_signed64(v));
        assert(secs as int == trunc_div(total as int, 1_000_000_000));
    }
    if !utc_timestamp_is_valid(secs) {
        return Err(Error::InvalidDate);
    }
    Ok((rest, Date { timestamp: secs }))
}

// ---------------------------------------------------------------------------
// Binary bodies and blocks
/// Takes the payload of a binary body.
pub fn parse_binary<'a>(header: &Header, input: &'a [u8]) -> (r: Result<(&'a [u8], &'a [u8]), Error>)
    ensures
        match r {
            Ok((rest, payload)) => header.body_size matches Some(b) && b <= input@.len()
                && payload@ == input@.subrange(0, b as int) && is_rest_after(
                input@,
                rest@,
                b as nat,
            ),
            Err(e) => match header.body_size {
                None => e == Error::ForbiddenUnknownSize,
                Some(b) => b > input@.len() && e == Error::NeedData,
            },
        },
{
    let body_size = match header.body_size {
        Some(b) => b,
        None => return Err(Error::ForbiddenUnknownSize),
    };
    take(input, body_size)
}

/// The two's complement reading of two big-endian bytes.
pub open spec fn i16_of(hi: u8, lo: u8) -> i16 {
    let u = hi * 256 + lo;
    (if u >= 32768 {
        u - 65536
    } else {
        u as int
    }) as i16
}

/// Reads a big-endian signed 16-bit integer.
pub fn parse_i16(input: &[u8]) -> (r: Result<(&[u8], i16), Error>)
    ensures
        match r {
            Ok((rest, v)) => input@.len() >= 2 && v == i16_of(input@[0], input@[1])
                && is_rest_after(input@, rest@, 2),
            Err(e) => input@.len() < 2 && e == Error::NeedData,
        },
{
    let (rest, bytes) = match take(input, 2) {
        Ok(p) => p,
        Err(e) => return Err(e),
    };
    let u: u16 = bytes[0] as u16 * 256 + bytes[1] as u16;
    let v: i16 = if u >= 32768 {
        (u as i32 - 65536) as i16
    } else {
        u as i16
    };
    Ok((rest, v))
}

/// Whether the invisible flag (bit 3) of a block is set.
pub open spec fn spec_is_invisible(flags: u8) -> bool {
    flags & 0x08u8 != 0
}

/// The lacing that bits 2 and 1 of a block's flags announce.
pub open spec fn lacing_of(flags: u8) -> Option<Lacing> {
    let bits = (flags & 0x06u8) >> 1u8;
    if bits == 1 {
        Some(Lacing::Xiph)
    } else if bits == 3 {
        Some(Lacing::Ebml)
    } else if bits == 2 {
        Some(Lacing::FixedSize)
    } else {
        None
    }
}

/// Reads the invisible flag of a block.
pub fn is_invisible(flags: u8) -> (r: bool)
    ensures
        r == spec_is_invisible(flags),
{
    flags & 0x08u8 != 0
}

/// Reads the lacing of a block.
pub fn get_lacing(flags: u8) -> (r: Option<Lacing>)
    ensures
        r == lacing_of(flags),
{
    let bits = (flags & 0x06u8) >> 1u8;
    if bits == 1 {
        Some(Lacing::Xiph)
    } else if bits == 3 {
        Some(Lacing::Ebml)
    } else if bits == 2 {
        Some(Lacing::FixedSize)
    } else {
        None
    }
}

/// The fields common to Block and SimpleBlock headers, read from the start of a
/// payload: bytes taken, track number, timestamp, flags and frame count.
pub open spec fn block_fields_spec(p: Seq<u8>) -> Result<(nat, usize, i16, u8, Option<u16>), Error> {
    match varint_spec(p) {
        Err(e) => Err(e),
        Ok((n, None)) => Err(Error::MissingTrackNumber),
        Ok((n, Some(t))) => if p.len() < n + 3 {
            Err(Error::NeedData)
        } else {
            let ts = i16_of(p[n as int], p[n + 1int]);
            let flags = p[n + 2int];
            if lacing_of(flags) is Some {
                if p.len() < n + 4 {
                    Err(Error::NeedData)
                } else {
                    Ok((n + 4, t as usize, ts, flags, Some((p[n + 3int] + 1) as u16)))
                }
            } else {
                Ok((n + 3, t as usize, ts, flags, None))
            }
        },
    }
}

/// The Block header made of its fields.
pub open spec fn block_of(t: usize, ts: i16, flags: u8, frames: Option<u16>) -> Block {
    Block {
        track_number: t,
        timestamp: ts,
        invisible: spec_is_invisible(flags),
        lacing: lacing_of(flags),
        num_frames: frames,
    }
}

/// The SimpleBlock header made of its fields: keyframe is bit 7, discardable bit 0.
pub open spec fn simple_block_of(t: usize, ts: i16, flags: u8, frames: Option<u16>) -> SimpleBlock {
    SimpleBlock {
        track_number: t,
        timestamp: ts,
        keyframe: flags & 0x80u8 != 0,
        invisible: spec_is_invisible(flags),
        lacing: lacing_of(flags),
        discardable: flags & 0x01u8 != 0,
        num_frames: frames,
    }
}

fn parse_block_fields(input: &[u8]) -> (r: Result<(&[u8], (usize, i16, u8, Option<u16>)), Error>)
    ensures
        match r {
            Ok((rest, (t, ts, flags, frames))) => {
                let n = (input@.len() - rest@.len()) as nat;
                &&& is_rest_after(input@, rest@, n)
                &&& block_fields_spec(input@) == Ok::<
                    (nat, usize, i16, u8, Option<u16>),
                    Error,
                >((n, t, ts, flags, frames))
            },
            Err(e) => block_fields_spec(input@) == Err::<(nat, usize, i16, u8, Option<u16>), Error>(
                e,
            ),
        },
{
    let (after_track, track) = match parse_varint(input) {
        Ok(p) => p,
        Err(e) => return Err(e),
    };
    let track_number = match track {
        Some(t) => t,
        None => return Err(Error::MissingTrackNumber),
    };
    let n = input.len() - after_track.len();
    let (after_ts, timestamp) = match parse_i16(after_track) {
        Ok(p) => p,
        Err(e) => return Err(e),
    };
    let (after_flags, flag_bytes) = match take(after_ts, 1) {
        Ok(p) => p,
        Err(e) => return Err(e),
    };
    let flags = flag_bytes[0];
    let lacing = get_lacing(flags);
    if lacing.is_some() {
        let (rest, count) = match take(after_flags, 1) {
            Ok(p) => p,
            Err(e) => return Err(e),
        };
        assert(rest@ =~= input@.subrange(n + 4, input@.len() as int));
        Ok((rest, (track_number, timestamp, flags, Some(count[0] as u16 + 1))))
    } else {
        assert(after_flags@ =~= input@.subrange(n + 3, input@.len() as int));
        Ok((after_flags, (track_number, timestamp, flags, None)))
    }
}

/// Reads the header of a Block payload.
pub fn parse_block(input: &[u8]) -> (r: Result<(&[u8], Block), Error>)
    ensures
        match r {
            Ok((rest, b)) => match block_fields_spec(input@) {
                Ok((n, t, ts, flags, frames)) => is_rest_after(input@, rest@, n) && b == block_of(
                    t,
                    ts,
                    flags,
                    frames,
                ),
                Err(_) => false,
            },
            Err(e) => block_fields_spec(input@) == Err::<(nat, usize, i16, u8, Option<u16>), Error>(
                e,
            ),
        },
{
    let (rest, (track_number, timestamp, flags, num_frames)) = match parse_block_fields(input) {
        Ok(p) => p,
        Err(e) => return Err(e),
    };
    Ok(
        (
            rest,
            Block {
                track_number,
                timestamp,
                invisible: is_invisible(flags),
                lacing: get_lacing(flags),
                num_frames,
            },
        ),
    )
}

/// Reads the header of a SimpleBlock payload.
pub fn parse_simple_block(input: &[u8]) -> (r: Result<(&[u8], SimpleBlock), Error>)
    ensures
        match r {
            Ok((rest, b)) => match block_fields_spec(input@) {
                Ok((n, t, ts, flags, frames)) => is_rest_after(input@, rest@, n) && b
                    == simple_block_of(t, ts, flags, frames),
                Err(_) => false,
            },
            Err(e) => block_fields_spec(input@) == Err::<(nat, usize, i16, u8, Option<u16>), Error>(
                e,
            ),
        },
{
    let (rest, (track_number, timestamp, flags, num_frames)) = match parse_block_fields(input) {
        Ok(p) => p,
        Err(e) => return Err(e),
    };
    Ok(
        (
            rest,
            SimpleBlock {
                track_number,
                timestamp,
                keyframe: flags & 0x80u8 != 0,
                invisible: is_invisible(flags),
                lacing: get_lacing(flags),
                discardable: flags & 0x01u8 != 0,
                num_frames,
            },
        ),
    )
}

// ---------------------------------------------------------------------------
// Bodies
/// The unsigned value `v` of element `id`: a member of its enumeration when it is one.
pub open spec fn unsigned_of(id: Id, v: u64) -> Unsigned {
    if is_member(id, v) {
        Unsigned::Enumeration(Enumeration { id, value: v })
    } else {
        Unsigned::Standard(v)
    }
}

impl Unsigned {
    /// The unsigned value `value` of element `id`.
    pub fn new(id: &Id, value: u64) -> (r: Unsigned)
        ensures
            r == unsigned_of(*id, value),
    {
        match Enumeration::new(id, value) {
            Some(e) => Unsigned::Enumeration(e),
            None => Unsigned::Standard(value),
        }
    }
}

/// The error that decoding the payload `p` of a binary element `id` gives, if any.
pub open spec fn binary_error(id: Id, p: Seq<u8>) -> Option<Error> {
    if id == Id::SeekId {
        match id_spec(p) {
            Err(e) => Some(e),
            Ok(_) => None,
        }
    } else if id == Id::SimpleBlock || id == Id::Block {
        match block_fields_spec(p) {
            Err(e) => Some(e),
            Ok(_) => None,
        }
    } else {
        None
    }
}

/// `v` is what the payload `p` of a binary element `id` holds.
pub open spec fn binary_decodes(id: Id, p: Seq<u8>, v: BinaryValue) -> bool {
    if id == Id::SeekId {
        match id_spec(p) {
            Ok((_, i)) => v == BinaryValue::SeekId(i),
            Err(_) => false,
        }
    } else if id == Id::SimpleBlock {
        match block_fields_spec(p) {
            Ok((_, t, ts, flags, frames)) => v == BinaryValue::SimpleBlock(
                simple_block_of(t, ts, flags, frames),
            ),
            Err(_) => false,
        }
    } else if id == Id::Block {
        match block_fields_spec(p) {
            Ok((_, t, ts, flags, frames)) => v == BinaryValue::Block(block_of(t, ts, flags, frames)),
            Err(_) => false,
        }
    } else if id == Id::Void {
        v == BinaryValue::Void
    } else {
        v matches BinaryValue::Standard(t) && t@ == binary_summary(p)
    }
}

impl BinaryValue {
    /// Decodes the payload of a binary element.
    pub fn new(id: &Id, value: &[u8]) -> (r: Result<BinaryValue, Error>)
        ensures
            match r {
                Ok(v) => binary_error(*id, value@) is None && binary_decodes(*id, value@, v),
                Err(e) => binary_error(*id, value@) == Some(e),
            },
    {
        match id {
            Id::SeekId => match parse_id(value) {
                Ok((_, i)) => Ok(BinaryValue::SeekId(i)),
                Err(e) => Err(e),
            },
            Id::SimpleBlock => match parse_simple_block(value) {
                Ok((_, b)) => Ok(BinaryValue::SimpleBlock(b)),
                Err(e) => Err(e),
            },
            Id::Block => match parse_block(value) {
                Ok((_, b)) => Ok(BinaryValue::Block(b)),
                Err(e) => Err(e),
            },
            Id::Void => Ok(BinaryValue::Void),
            _ => Ok(BinaryValue::Standard(as_hex(value))),
        }
    }
}

/// The number of bytes that the body of `h` takes from the input: none for a
/// master, whose children follow, else its body size.
pub open spec fn body_taken(h: Header) -> nat {
    if h.id.value_type() == Type::Master {
        0
    } else {
        match h.body_size {
            Some(b) => b as nat,
            None => 0,
        }
    }
}

/// The error that decoding the body of `h` from `s` gives, if any.
pub open spec fn body_error(h: Header, s: Seq<u8>) -> Option<Error> {
    match h.id.value_type() {
        Type::Master => None,
        Type::Unsigned => int_error(h, s),
        Type::Signed => int_error(h, s),
        Type::Float => float_error(h, s),
        Type::String => string_error(h, s),
        Type::Utf8 => string_error(h, s),
        Type::Date => date_error(h, s),
        Type::Binary => match h.body_size {
            None => Some(Error::ForbiddenUnknownSize),
            Some(b) => if s.len() < b {
                Some(Error::NeedData)
            } else {
                binary_error(h.id, s.subrange(0, b as int))
            },
        },
    }
}

/// `b` is the body of `h` decoded from `bytes`, the bytes that the body takes.
pub open spec fn body_decodes(h: Header, bytes: Seq<u8>, b: Body) -> bool {
    match h.id.value_type() {
        Type::Master => b == Body::Master,
        Type::Unsigned => b == Body::Unsigned(unsigned_of(h.id, be_value(bytes) as u64)),
        Type::Signed => b == Body::Signed(to_signed64(be_value(bytes)) as i64),
        Type::Float => b == Body::Float(float_of(bytes)),
        Type::String => b matches Body::String(t) && t@ == trim_trailing_nul(decode_utf8(bytes)),
        Type::Utf8 => b matches Body::Utf8(t) && t@ == decode_utf8(bytes),
        Type::Date => date_seconds(bytes) matches Some(secs) && b == Body::Date(
            Date { timestamp: secs },
        ),
        Type::Binary => b matches Body::Binary(v) && binary_decodes(h.id, bytes, v),
    }
}

/// Decodes the body of the element whose header is `header`.
pub fn parse_body<'a>(input: &'a [u8], header: &Header) -> (r: Result<(&'a [u8], Body), Error>)
    ensures
        match r {
            Ok((rest, b)) => {
                let n = body_taken(*header);
                &&& body_error(*header, input@) is None
                &&& is_rest_after(input@, rest@, n)
                &&& body_decodes(*header, input@.subrange(0, n as int), b)
            },
            Err(e) => body_error(*header, input@) == Some(e),
        },
{
    match header.id.get_type() {
        Type::Master => {
            assert(input@.subrange(0, input@.len() as int) =~= input@);
            Ok((input, Body::Master))
        },
        Type::Unsigned => match parse_int::<u64>(header, input) {
            Ok((rest, v)) => Ok((rest, Body::Unsigned(Unsigned::new(&header.id, v)))),
            Err(e) => Err(e),
        },
        Type::Signed => match parse_int::<i64>(header, input) {
            Ok((rest, v)) => Ok((rest, Body::Signed(v))),
            Err(e) => Err(e),
        },
        Type::Float => match parse_float(header, input) {
            Ok((rest, v)) => Ok((rest, Body::Float(v))),
            Err(e) => Err(e),
        },
        Type::String => match parse_string(header, input) {
            Ok((rest, v)) => Ok((rest, Body::String(v))),
            Err(e) => Err(e),
        },
        Type::Utf8 => match parse_utf8(header, input) {
            Ok((rest, v)) => Ok((rest, Body::Utf8(v))),
            Err(e) => Err(e),
        },
        Type::Date => match parse_date(header, input) {
            Ok((rest, v)) => Ok((rest, Body::Date(v))),
            Err(e) => Err(e),
        },
        Type::Binary => {
            let (rest, payload) = match parse_binary(header, input) {
                Ok(p) => p,
                Err(e) => return Err(e),
            };
            match BinaryValue::new(&header.id, payload) {
                Ok(v) => Ok((rest, Body::Binary(v))),
                Err(e) => Err(e),
            }
        },
    }
}

// ---------------------------------------------------------------------------
// Elements
/// The error that decoding the element at the start of `s` gives, if any.
pub open spec fn element_error(s: Seq<u8>) -> Option<Error> {
    match header_spec(s) {
        Err(e) => Some(e),
        Ok(h) => body_error(h, s.subrange(h.header_size as int, s.len() as int)),
    }
}

/// The number of bytes that decoding element `e` takes from the input.
pub open spec fn element_taken(h: Header) -> nat {
    (h.header_size + body_taken(h)) as nat
}

/// `e` is the element decoded from the start of `s`.
pub open spec fn element_decodes(s: Seq<u8>, e: Element) -> bool {
    &&& header_spec(s) == Ok::<Header, Error>(e.header)
    &&& body_error(e.header, s.subrange(e.header.header_size as int, s.len() as int)) is None
    &&& element_taken(e.header) <= s.len()
    &&& body_decodes(
        e.header,
        s.subrange(e.header.header_size as int, element_taken(e.header) as int),
        e.body,
    )
}

/// An element decoded from the start of `s` is decoded the same from any `t`
/// that `s` begins.
pub proof fn lemma_element_prefix(s: Seq<u8>, t: Seq<u8>, e: Element)
    requires
        s.len() <= t.len(),
        s == t.subrange(0, s.len() as int),
        element_decodes(s, e),
    ensures
        element_decodes(t, e),
{
    lemma_header_prefix(s, t);
    let hs = e.header.header_size as int;
    let after_s = s.subrange(hs, s.len() as int);
    let after_t = t.subrange(hs, t.len() as int);
    assert(after_s =~= after_t.subrange(0, after_s.len() as int));
    match e.header.body_size {
        Some(b) => {
            if b <= after_s.len() {
                assert(after_s.subrange(0, b as int) =~= after_t.subrange(0, b as int));
            }
        },
        None => {},
    }
    let n = element_taken(e.header) as int;
    assert(s.subrange(hs, n) =~= t.subrange(hs, n));
}

/// Decodes the element at the start of `input`.
pub fn parse_element(input: &[u8]) -> (r: Result<(&[u8], Element), Error>)
    ensures
        match r {
            Ok((rest, e)) => element_decodes(input@, e) && is_rest_after(
                input@,
                rest@,
                element_taken(e.header),
            ),
            Err(e) => element_error(input@) == Some(e),
        },
{
    let (after_header, header) = match parse_header(input) {
        Ok(p) => p,
        Err(e) => return Err(e),
    };
    let (rest, body) = match parse_body(after_header, &header) {
        Ok(p) => p,
        Err(e) => return Err(e),
    };
    proof {
        let s = input@;
        let hs = header.header_size as int;
        let n = body_taken(header) as int;
        assert(after_header@.subrange(0, n) =~= s.subrange(hs, hs + n));
        assert(rest@ =~= s.subrange(hs + n, s.len() as int));
    }
    Ok((rest, Element { header, body }))
}

// ---------------------------------------------------------------------------
// Resynchronisation
/// The identifiers whose four-byte encodings mark a place to resume decoding.
pub open spec fn is_sync_id(id: Id) -> bool {
    id == Id::Cluster || id == Id::Ebml || id == Id::Segment || id == Id::SeekHead || id
        == Id::Info || id == Id::Tracks || id == Id::Cues || id == Id::Attachments || id
        == Id::Chapters || id == Id::Tags
}

/// Whether the four bytes at offset `o` of `s` encode a resynchronisation identifier.
pub open spec fn sync_at(s: Seq<u8>, o: int) -> bool {
    &&& 0 <= o
    &&& o + 4 <= s.len()
    &&& is_sync_id(crate::elements::id_of_wire(be_value(s.subrange(o, o + 4)) as u32))
}

/// The element that stands for `n` skipped bytes.
pub open spec fn corrupted_element(n: nat) -> Element {
    Element {
        header: Header {
            id: Id::Corrupted,
            header_size: 0,
            body_size: Some(n as usize),
            size: Some(n as usize),
            position: None,
        },
        body: Body::Binary(BinaryValue::Corrupted),
    }
}

fn sync_id_check(id: Id) -> (r: bool)
    ensures
        r == is_sync_id(id),
{
    matches!(
        id,
        Id::Cluster | Id::Ebml | Id::Segment | Id::SeekHead | Id::Info | Id::Tracks | Id::Cues
            | Id::Attachments | Id::Chapters | Id::Tags
    )
}

/// Finds the first offset where a resynchronisation identifier starts, and
/// returns an element that stands for the bytes before it.
pub fn find_valid_element(input: &[u8]) -> (r: Result<(&[u8], Element), Error>)
    ensures
        match r {
            Ok((rest, e)) => {
                let o = input@.len() - rest@.len();
                &&& is_rest_after(input@, rest@, o as nat)
                &&& sync_at(input@, o)
                &&& forall|j: int| 0 <= j < o ==> !sync_at(input@, j)
                &&& e == corrupted_element(o as nat)
            },
            Err(e) => e == Error::ValidElementNotFound && forall|j: int| !sync_at(input@, j),
        },
{
    let mut offset: usize = 0;
    while input.len() >= 4 && offset <= input.len() - 4
        invariant
            offset <= input@.len(),
            forall|j: int| 0 <= j < offset ==> !sync_at(input@, j),
        decreases input@.len() - offset,
    {
        let window = &input[offset..offset + 4];
        let value = be_u64(window);
        proof {
            lemma_be_value_bound(window@);
            lemma2_to64();
        }
        if sync_id_check(Id::new(value as u32)) {
            return Ok(
                (
                    &input[offset..input.len()],
                    Element {
                        header: Header::new(Id::corrupted(), 0, offset),
                        body: Body::Binary(BinaryValue::Corrupted),
                    },
                ),
            );
        }
        offset = offset + 1;
    }
    Err(Error::ValidElementNotFound)
}

/// Decodes the element at the start of `input`, or, where that fails, skips
/// to the next resynchronisation identifier.
pub fn parse_element_or_skip_corrupted(input: &[u8]) -> (r: Result<(&[u8], Element), Error>)
    ensures
        element_error(input@) is None ==> match r {
            Ok((rest, e)) => element_decodes(input@, e) && is_rest_after(
                input@,
                rest@,
                element_taken(e.header),
            ),
            Err(_) => false,
        },
        element_error(input@) is Some ==> match r {
            Ok((rest, e)) => {
                let o = input@.len() - rest@.len();
                &&& is_rest_after(input@, rest@, o as nat)
                &&& sync_at(input@, o)
                &&& forall|j: int| 0 <= j < o ==> !sync_at(input@, j)
                &&& e == corrupted_element(o as nat)
            },
            Err(e) => e == Error::ValidElementNotFound && forall|j: int| !sync_at(input@, j),
        },
{
    match parse_element(input) {
        Ok(p) => Ok(p),
        Err(_) => find_valid_element(input),
    }
}

} // verus!
