//! The stream-transport codecs: frames carry an explicit six-byte
//! envelope whose declared length bounds the frame, and no checksum.

use vstd::prelude::*;

use crate::codec::buffer::{bytes_mut_advance, bytes_mut_len, bytes_mut_to_vec, bytes_view};
use crate::codec::{
    parse_request, parse_response, request_to_bytesmut, response_to_bytesmut, spec_parse_request,
    spec_parse_response, FrameScan, ModbusError,
};
use crate::frame::request::{spec_request_bytes, Request};
use crate::frame::response::{spec_response_bytes, Response};
use crate::frame::Version;
use crate::util::{be16, read_be16, vec_range};

verus! {

/// Where the next stream frame ends: the six envelope bytes give the
/// declared length, and the frame is complete at `6 + 1 + length` bytes.
/// Nothing short of that bounds a frame, so nothing else is a scan
/// failure here.
pub open spec fn spec_tcp_scan(s: Seq<u8>) -> FrameScan {
    if s.len() < 6 {
        FrameScan::NeedMore
    } else {
        let flen = 7 + be16(s[4], s[5]) as int;
        if s.len() < flen {
            FrameScan::NeedMore
        } else {
            FrameScan::Frame(flen)
        }
    }
}

/// Decodes at most one stream-framed response off the front of `src`.
///
/// Returns `Ok(None)` and consumes nothing while the buffer holds less
/// than one whole frame; on a complete frame, returns what the parser
/// makes of exactly that window, consuming it only on success and
/// leaving any trailing bytes untouched.
pub fn decode_tcp_response(src: &mut bytes::BytesMut) -> (r: Result<Option<Response>, ModbusError>)
    ensures
        ({
            let s = bytes_view(*old(src));
            match spec_tcp_scan(s) {
                FrameScan::NeedMore => r == Ok::<Option<Response>, ModbusError>(None)
                    && bytes_view(*final(src)) == s,
                FrameScan::Frame(flen) => match spec_parse_response(
                    Version::Tcp,
                    s.subrange(0, flen),
                ) {
                    Ok(mv) => match r {
                        Ok(Some(m)) => m@ == mv && bytes_view(*final(src)) == s.skip(flen),
                        _ => false,
                    },
                    Err(e) => r == Err::<Option<Response>, ModbusError>(e) && bytes_view(
                        *final(src),
                    ) == s,
                },
                FrameScan::Bad(e) => r == Err::<Option<Response>, ModbusError>(e) && bytes_view(
                    *final(src),
                ) == s,
            }
        }),
{
    let n = bytes_mut_len(src);
    if n < 6 {
        return Ok(None);
    }
    let v = bytes_mut_to_vec(src);
    let flen = 7 + read_be16(v[4], v[5]) as usize;
    if n < flen {
        return Ok(None);
    }
    let window = vec_range(&v, 0, flen);
    match parse_response(Version::Tcp, &window) {
        Ok(m) => {
            bytes_mut_advance(src, flen);
            Ok(Some(m))
        },
        Err(e) => Err(e),
    }
}

/// Decodes at most one stream-framed request off the front of `src`,
/// under the same consumption discipline as `decode_tcp_response`.
pub fn decode_tcp_request(src: &mut bytes::BytesMut) -> (r: Result<Option<Request>, ModbusError>)
    ensures
        ({
            let s = bytes_view(*old(src));
            match spec_tcp_scan(s) {
                FrameScan::NeedMore => r == Ok::<Option<Request>, ModbusError>(None) && bytes_view(
                    *final(src),
                ) == s,
                FrameScan::Frame(flen) => match spec_parse_request(
                    Version::Tcp,
                    s.subrange(0, flen),
                ) {
                    Ok(mv) => match r {
                        Ok(Some(m)) => m@ == mv && bytes_view(*final(src)) == s.skip(flen),
                        _ => false,
                    },
                    Err(e) => r == Err::<Option<Request>, ModbusError>(e) && bytes_view(
                        *final(src),
                    ) == s,
                },
                FrameScan::Bad(e) => r == Err::<Option<Request>, ModbusError>(e) && bytes_view(
                    *final(src),
                ) == s,
            }
        }),
{
    let n = bytes_mut_len(src);
    if n < 6 {
        return Ok(None);
    }
    let v = bytes_mut_to_vec(src);
    let flen = 7 + read_be16(v[4], v[5]) as usize;
    if n < flen {
        return Ok(None);
    }
    let window = vec_range(&v, 0, flen);
    match parse_request(Version::Tcp, &window) {
        Ok(m) => {
            bytes_mut_advance(src, flen);
            Ok(Some(m))
        },
        Err(e) => Err(e),
    }
}

/// The stream-transport initiator: encodes requests, decodes responses.
pub struct TcpClientCodec;

impl TcpClientCodec {
    /// Appends the full wire frame of `item` at the end of `dst`.
    pub fn encode(&self, item: &Request, dst: &mut bytes::BytesMut)
        requires
            bytes_view(*old(dst)).len() + spec_request_bytes(item@).len() <= 0x7FFF_FFFF,
        ensures
            bytes_view(*final(dst)) == bytes_view(*old(dst)) + spec_request_bytes(item@),
    {
        request_to_bytesmut(item, dst)
    }

    /// Decodes at most one response off the front of `src`; see
    /// `decode_tcp_response`.
    pub fn decode(&self, src: &mut bytes::BytesMut) -> (r: Result<Option<Response>, ModbusError>)
        ensures
            ({
                let s = bytes_view(*old(src));
                match spec_tcp_scan(s) {
                    FrameScan::NeedMore => r == Ok::<Option<Response>, ModbusError>(None)
                        && bytes_view(*final(src)) == s,
                    FrameScan::Frame(flen) => match spec_parse_response(
                        Version::Tcp,
                        s.subrange(0, flen),
                    ) {
                        Ok(mv) => match r {
                            Ok(Some(m)) => m@ == mv && bytes_view(*final(src)) == s.skip(flen),
                            _ => false,
                        },
                        Err(e) => r == Err::<Option<Response>, ModbusError>(e) && bytes_view(
                            *final(src),
                        ) == s,
                    },
                    FrameScan::Bad(e) => r == Err::<Option<Response>, ModbusError>(e)
                        && bytes_view(*final(src)) == s,
                }
            }),
    {
        decode_tcp_response(src)
    }
}

/// The stream-transport responder: decodes requests, encodes responses.
pub struct TcpServerCodec;

impl TcpServerCodec {
    /// Appends the full wire frame of `item` at the end of `dst`.
    pub fn encode(&self, item: &Response, dst: &mut bytes::BytesMut)
        requires
            bytes_view(*old(dst)).len() + spec_response_bytes(item@).len() <= 0x7FFF_FFFF,
        ensures
            bytes_view(*final(dst)) == bytes_view(*old(dst)) + spec_response_bytes(item@),
    {
        response_to_bytesmut(item, dst)
    }

    /// Decodes at most one request off the front of `src`; see
    /// `decode_tcp_request`.
    pub fn decode(&self, src: &mut bytes::BytesMut) -> (r: Result<Option<Request>, ModbusError>)
        ensures
            ({
                let s = bytes_view(*old(src));
                match spec_tcp_scan(s) {
                    FrameScan::NeedMore => r == Ok::<Option<Request>, ModbusError>(None)
                        && bytes_view(*final(src)) == s,
                    FrameScan::Frame(flen) => match spec_parse_request(
                        Version::Tcp,
                        s.subrange(0, flen),
                    ) {
                        Ok(mv) => match r {
                            Ok(Some(m)) => m@ == mv && bytes_view(*final(src)) == s.skip(flen),
                            _ => false,
                        },
                        Err(e) => r == Err::<Option<Request>, ModbusError>(e) && bytes_view(
                            *final(src),
                        ) == s,
                    },
                    FrameScan::Bad(e) => r == Err::<Option<Request>, ModbusError>(e) && bytes_view(
                        *final(src),
                    ) == s,
                }
            }),
    {
        decode_tcp_request(src)
    }
}

} // verus!
