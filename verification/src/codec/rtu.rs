//! The serial-transport codecs: frames carry no length field, so the
//! frame boundary is derived from the function code's body-length rule,
//! and a trailing 16-bit checksum closes every frame.
//!
//! The serial wire has no delimiter either: a stretch of garbage before
//! a valid frame cannot be told from a truncated frame by length alone.
//! These codecs inherit that weakness from the protocol and do not
//! attempt byte-level resynchronization.

use vstd::prelude::*;

use crate::codec::buffer::{bytes_mut_advance, bytes_mut_len, bytes_mut_to_vec, bytes_view};
use crate::codec::{
    parse_request, parse_response, request_to_bytesmut, response_to_bytesmut, spec_parse_request,
    spec_parse_response, FrameScan, ModbusError,
};
use crate::frame::request::{spec_request_bytes, Request};
use crate::frame::response::{spec_response_bytes, Response};
use crate::frame::{spec_function_from_code, Function, Version};
use crate::util::vec_range;

verus! {

/// Where the next serial response frame ends.  The function byte picks
/// the body-length rule: an exception body is one byte, write-style
/// bodies are four, and read-style bodies declare their own length in
/// the byte right after the function byte.  Two checksum bytes close the
/// frame.  A function byte outside the closed set bounds no frame at
/// all.
pub open spec fn spec_rtu_response_scan(s: Seq<u8>) -> FrameScan {
    if s.len() < 2 {
        FrameScan::NeedMore
    } else if s[1] >= 0x80 {
        if s.len() < 5 {
            FrameScan::NeedMore
        } else {
            FrameScan::Frame(5)
        }
    } else {
        match spec_function_from_code(s[1]) {
            None => FrameScan::Bad(ModbusError::UnknownFunctionCode),
            Some(f) => match f {
                Function::ReadCoils
                | Function::ReadDiscreteInputs
                | Function::ReadMultipleHoldingRegisters
                | Function::ReadInputRegisters => {
                    if s.len() < 3 {
                        FrameScan::NeedMore
                    } else if s.len() < 5 + s[2] {
                        FrameScan::NeedMore
                    } else {
                        FrameScan::Frame(5 + s[2])
                    }
                },
                _ => {
                    if s.len() < 8 {
                        FrameScan::NeedMore
                    } else {
                        FrameScan::Frame(8)
                    }
                },
            },
        }
    }
}

/// Where the next serial request frame ends.  Requests never carry the
/// exception flag; multiple-write bodies declare their value-byte count
/// in the seventh byte, every other body is four bytes.
pub open spec fn spec_rtu_request_scan(s: Seq<u8>) -> FrameScan {
    if s.len() < 2 {
        FrameScan::NeedMore
    } else if s[1] >= 0x80 {
        FrameScan::Bad(ModbusError::MalformedFrame)
    } else {
        match spec_function_from_code(s[1]) {
            None => FrameScan::Bad(ModbusError::UnknownFunctionCode),
            Some(f) => match f {
                Function::WriteMultipleCoils | Function::WriteMultipleHoldingRegisters => {
                    if s.len() < 7 {
                        FrameScan::NeedMore
                    } else if s.len() < 9 + s[6] {
                        FrameScan::NeedMore
                    } else {
                        FrameScan::Frame(9 + s[6])
                    }
                },
                _ => {
                    if s.len() < 8 {
                        FrameScan::NeedMore
                    } else {
                        FrameScan::Frame(8)
                    }
                },
            },
        }
    }
}

/// Decodes at most one serial-framed response off the front of `src`.
///
/// Returns `Ok(None)` and consumes nothing while the buffered bytes do
/// not yet bound a frame; once they do, returns what the parser makes of
/// exactly that window (checksum included), consuming it only on success
/// and leaving any trailing bytes untouched.
pub fn decode_rtu_response(src: &mut bytes::BytesMut) -> (r: Result<Option<Response>, ModbusError>)
    ensures
        ({
            let s = bytes_view(*old(src));
            match spec_rtu_response_scan(s) {
                FrameScan::NeedMore => r == Ok::<Option<Response>, ModbusError>(None)
                    && bytes_view(*final(src)) == s,
                FrameScan::Frame(flen) => match spec_parse_response(
                    Version::Rtu,
                    s.subrange(0, flen),
                ) {
                    Ok(mv) => match r {
                        Ok(Some(m)) => m@ == mv && bytes_view(*final(src)) == s.skip(flen),
                        _ => false,
                    },
                    Err(e) => r == Err::<Option<Response>, ModbusError>(e) && bytes_view(
                        *final(src),
                    ) == s,
                },
                FrameScan::Bad(e) => r == Err::<Option<Response>, ModbusError>(e) && bytes_view(
                    *final(src),
                ) == s,
            }
        }),
{
    let n = bytes_mut_len(src);
    if n < 2 {
        return Ok(None);
    }
    let v = bytes_mut_to_vec(src);
    let flen: usize;
    if v[1] >= 0x80 {
        flen = 5;
    } else {
        let f = match Function::from_code(v[1]) {
            Some(f) => f,
            None => {
                return Err(ModbusError::UnknownFunctionCode);
            },
        };
        match f {
            Function::ReadCoils
            | Function::ReadDiscreteInputs
            | Function::ReadMultipleHoldingRegisters
            | Function::ReadInputRegisters => {
                if n < 3 {
                    return Ok(None);
                }
                flen = 5 + v[2] as usize;
            },
            _ => {
                flen = 8;
            },
        }
    }
    if n < flen {
        return Ok(None);
    }
    let window = vec_range(&v, 0, flen);
    match parse_response(Version::Rtu, &window) {
        Ok(m) => {
            bytes_mut_advance(src, flen);
            Ok(Some(m))
        },
        Err(e) => Err(e),
    }
}

/// Decodes at most one serial-framed request off the front of `src`,
/// under the same consumption discipline as `decode_rtu_response`.
pub fn decode_rtu_request(src: &mut bytes::BytesMut) -> (r: Result<Option<Request>, ModbusError>)
    ensures
        ({
            let s = bytes_view(*old(src));
            match spec_rtu_request_scan(s) {
                FrameScan::NeedMore => r == Ok::<Option<Request>, ModbusError>(None) && bytes_view(
                    *final(src),
                ) == s,
                FrameScan::Frame(flen) => match spec_parse_request(
                    Version::Rtu,
                    s.subrange(0, flen),
                ) {
                    Ok(mv) => match r {
                        Ok(Some(m)) => m@ == mv && bytes_view(*final(src)) == s.skip(flen),
                        _ => false,
                    },
                    Err(e) => r == Err::<Option<Request>, ModbusError>(e) && bytes_view(
                        *final(src),
                    ) == s,
                },
                FrameScan::Bad(e) => r == Err::<Option<Request>, ModbusError>(e) && bytes_view(
                    *final(src),
                ) == s,
            }
        }),
{
    let n = bytes_mut_len(src);
    if n < 2 {
        return Ok(None);
    }
    let v = bytes_mut_to_vec(src);
    if v[1] >= 0x80 {
        return Err(ModbusError::MalformedFrame);
    }
    let f = match Function::from_code(v[1]) {
        Some(f) => f,
        None => {
            return Err(ModbusError::UnknownFunctionCode);
        },
    };
    let flen: usize;
    match f {
        Function::WriteMultipleCoils | Function::WriteMultipleHoldingRegisters => {
            if n < 7 {
                return Ok(None);
            }
            flen = 9 + v[6] as usize;
        },
        _ => {
            flen = 8;
        },
    }
    if n < flen {
        return Ok(None);
    }
    let window = vec_range(&v, 0, flen);
    match parse_request(Version::Rtu, &window) {
        Ok(m) => {
            bytes_mut_advance(src, flen);
            Ok(Some(m))
        },
        Err(e) => Err(e),
    }
}

/// The serial-transport initiator: encodes requests, decodes responses.
pub struct RtuClientCodec;

impl RtuClientCodec {
    /// Appends the full wire frame of `item` at the end of `dst`.
    pub fn encode(&self, item: &Request, dst: &mut bytes::BytesMut)
        requires
            bytes_view(*old(dst)).len() + spec_request_bytes(item@).len() <= 0x7FFF_FFFF,
        ensures
            bytes_view(*final(dst)) == bytes_view(*old(dst)) + spec_request_bytes(item@),
    {
        request_to_bytesmut(item, dst)
    }

    /// Decodes at most one response off the front of `src`; see
    /// `decode_rtu_response`.
    pub fn decode(&self, src: &mut bytes::BytesMut) -> (r: Result<Option<Response>, ModbusError>)
        ensures
            ({
                let s = bytes_view(*old(src));
                match spec_rtu_response_scan(s) {
                    FrameScan::NeedMore => r == Ok::<Option<Response>, ModbusError>(None)
                        && bytes_view(*final(src)) == s,
                    FrameScan::Frame(flen) => match spec_parse_response(
                        Version::Rtu,
                        s.subrange(0, flen),
                    ) {
                        Ok(mv) => match r {
                            Ok(Some(m)) => m@ == mv && bytes_view(*final(src)) == s.skip(flen),
                            _ => false,
                        },
                        Err(e) => r == Err::<Option<Response>, ModbusError>(e) && bytes_view(
                            *final(src),
                        ) == s,
                    },
                    FrameScan::Bad(e) => r == Err::<Option<Response>, ModbusError>(e)
                        && bytes_view(*final(src)) == s,
                }
            }),
    {
        decode_rtu_response(src)
    }
}

/// The serial-transport responder: decodes requests, encodes responses.
pub struct RtuServerCodec;

impl RtuServerCodec {
    /// Appends the full wire frame of `item` at the end of `dst`.
    pub fn encode(&self, item: &Response, dst: &mut bytes::BytesMut)
        requires
            bytes_view(*old(dst)).len() + spec_response_bytes(item@).len() <= 0x7FFF_FFFF,
        ensures
            bytes_view(*final(dst)) == bytes_view(*old(dst)) + spec_response_bytes(item@),
    {
        response_to_bytesmut(item, dst)
    }

    /// Decodes at most one request off the front of `src`; see
    /// `decode_rtu_request`.
    pub fn decode(&self, src: &mut bytes::BytesMut) -> (r: Result<Option<Request>, ModbusError>)
        ensures
            ({
                let s = bytes_view(*old(src));
                match spec_rtu_request_scan(s) {
                    FrameScan::NeedMore => r == Ok::<Option<Request>, ModbusError>(None)
                        && bytes_view(*final(src)) == s,
                    FrameScan::Frame(flen) => match spec_parse_request(
                        Version::Rtu,
                        s.subrange(0, flen),
                    ) {
                        Ok(mv) => match r {
                            Ok(Some(m)) => m@ == mv && bytes_view(*final(src)) == s.skip(flen),
                            _ => false,
                        },
                        Err(e) => r == Err::<Option<Request>, ModbusError>(e) && bytes_view(
                            *final(src),
                        ) == s,
                    },
                    FrameScan::Bad(e) => r == Err::<Option<Request>, ModbusError>(e) && bytes_view(
                        *final(src),
                    ) == s,
                }
            }),
    {
        decode_rtu_request(src)
    }
}

} // verus!
