//! The wire serializer, the frame parser, and the four streaming codecs.

use vstd::prelude::*;

pub mod buffer;
pub mod rtu;
pub mod tcp;

use crate::codec::buffer::{bytes_mut_put_slice, bytes_view};
use crate::frame::request::{
    spec_request_body_bytes, spec_request_bytes, spec_request_head, spec_request_pdu,
    spec_request_wf,
    spec_write_multiple_body_bytes, spec_write_multiple_body_wf, ReadCoilsRequest,
    ReadDiscreteInputsRequest,
    ReadInputRegistersRequest, ReadMultipleHoldingRegistersRequest, Request, RequestView,
    WriteMultipleBodyView, WriteMultipleCoilsRequest, WriteMultipleHoldingRegistersRequest,
    WriteSingleCoilRequest, WriteSingleHoldingRegisterRequest,
};
use crate::frame::response::{
    spec_head_bytes, spec_read_body_bytes, spec_read_body_wf, spec_response_body_bytes,
    spec_response_bytes, spec_response_head, spec_response_pdu, spec_response_wf,
    spec_wire_function, ExceptionResponse, ReadBodyView,
    ReadCoilsResponse, ReadDiscreteInputsResponse, ReadInputRegistersResponse,
    ReadMultipleHoldingRegistersResponse, Response, ResponseView, WriteMultipleCoilsResponse,
    WriteMultipleHoldingRegistersResponse, WriteSingleCoilResponse,
    WriteSingleHoldingRegisterResponse,
};
use crate::frame::{
    lemma_exception_code_round_trip, lemma_function_code_bound, lemma_function_code_round_trip,
    spec_exception_code, spec_exception_from_code, spec_function_code, spec_function_from_code,
    Exception, Function, Head, Version,
};
use crate::util::crc;
use crate::util::crc::spec_crc;
use crate::util::{
    append_bytes, be16, hi16, lo16, lemma_be16_round_trip, read_be16, split_hi16, split_lo16,
    vec_range,
};

verus! {

/// The terminal outcomes of a failed decode or parse attempt.
///
/// "Need more bytes" is not an error: the streaming codecs signal it
/// through their result value instead.
#[derive(Clone, Copy, Debug, PartialEq, Eq, Structural)]
pub enum ModbusError {
    /// A function or exception byte outside the closed code sets.
    UnknownFunctionCode,
    /// A declared length inconsistent with the bytes at hand, or a
    /// checksum mismatch.
    MalformedFrame,
}

/// Writes the wire bytes of a head at the end of `out`.
fn write_head(out: &mut Vec<u8>, h: &Head)
    ensures
        final(out)@ == old(out)@ + spec_head_bytes(*h),
{
    let mut wire_fn = h.function.to_code();
    if h.is_exception {
        wire_fn = wire_fn + 0x80;
    }
    if h.version == Version::Tcp {
        out.push(split_hi16(h.tid));
        out.push(split_lo16(h.tid));
        out.push(split_hi16(h.pid));
        out.push(split_lo16(h.pid));
        out.push(split_hi16(h.length));
        out.push(split_lo16(h.length));
    }
    out.push(h.uid);
    out.push(wire_fn);
    proof {
        assert(out@ =~= old(out)@ + spec_head_bytes(*h));
    }
}

/// Serializes one response into its full wire frame: head, body, and —
/// for `Rtu` heads — the checksum of everything before it, low byte
/// first.
#[verifier::rlimit(60)]
pub fn serialize_response(item: &Response) -> (r: Vec<u8>)
    ensures
        r@ == spec_response_bytes(item@),
{
    let mut out: Vec<u8> = Vec::new();
    let version: Version;
    match item {
        Response::ReadCoils(h, b) => {
            version = h.version;
            write_head(&mut out, h);
            out.push(b.bytes_number);
            append_bytes(&mut out, &b.values);
            proof {
                assert(out@ =~= spec_response_pdu(item@));
            }
        },
        Response::ReadDiscreteInputs(h, b) => {
            version = h.version;
            write_head(&mut out, h);
            out.push(b.bytes_number);
            append_bytes(&mut out, &b.values);
            proof {
                assert(out@ =~= spec_response_pdu(item@));
            }
        },
        Response::ReadMultipleHoldingRegisters(h, b) => {
            version = h.version;
            write_head(&mut out, h);
            out.push(b.bytes_number);
            append_bytes(&mut out, &b.values);
            proof {
                assert(out@ =~= spec_response_pdu(item@));
            }
        },
        Response::ReadInputRegisters(h, b) => {
            version = h.version;
            write_head(&mut out, h);
            out.push(b.bytes_number);
            append_bytes(&mut out, &b.values);
            proof {
                assert(out@ =~= spec_response_pdu(item@));
            }
        },
        Response::WriteSingleCoil(h, b) => {
            version = h.version;
            write_head(&mut out, h);
            out.push(split_hi16(b.coil_address));
            out.push(split_lo16(b.coil_address));
            out.push(split_hi16(b.value));
            out.push(split_lo16(b.value));
            proof {
                assert(out@ =~= spec_response_pdu(item@));
            }
        },
        Response::WriteSingleHoldingRegister(h, b) => {
            version = h.version;
            write_head(&mut out, h);
            out.push(split_hi16(b.register_address));
            out.push(split_lo16(b.register_address));
            out.push(split_hi16(b.value));
            out.push(split_lo16(b.value));
            proof {
                assert(out@ =~= spec_response_pdu(item@));
            }
        },
        Response::WriteMultipleCoils(h, b) => {
            version = h.version;
            write_head(&mut out, h);
            out.push(split_hi16(b.first_address));
            out.push(split_lo16(b.first_address));
            out.push(split_hi16(b.coils_number));
            out.push(split_lo16(b.coils_number));
            proof {
                assert(out@ =~= spec_response_pdu(item@));
            }
        },
        Response::WriteMultipleHoldingRegisters(h, b) => {
            version = h.version;
            write_head(&mut out, h);
            out.push(split_hi16(b.first_address));
            out.push(split_lo16(b.first_address));
            out.push(split_hi16(b.registers_number));
            out.push(split_lo16(b.registers_number));
            proof {
                assert(out@ =~= spec_response_pdu(item@));
            }
        },
        Response::Exception(h, b) => {
            version = h.version;
            write_head(&mut out, h);
            out.push(b.exception.to_code());
            proof {
                assert(out@ =~= spec_response_pdu(item@));
            }
        },
    }
    if version == Version::Rtu {
        let c = crc::compute(&out);
        out.push(split_lo16(c));
        out.push(split_hi16(c));
        proof {
            assert(out@ =~= spec_response_bytes(item@));
        }
    }
    out
}

/// Serializes one request into its full wire frame: head, body, and —
/// for `Rtu` heads — the checksum of everything before it, low byte
/// first.
#[verifier::rlimit(60)]
pub fn serialize_request(item: &Request) -> (r: Vec<u8>)
    ensures
        r@ == spec_request_bytes(item@),
{
    let mut out: Vec<u8> = Vec::new();
    let version: Version;
    match item {
        Request::ReadCoils(h, b) => {
            version = h.version;
            write_head(&mut out, h);
            out.push(split_hi16(b.first_address));
            out.push(split_lo16(b.first_address));
            out.push(split_hi16(b.coils_number));
            out.push(split_lo16(b.coils_number));
            proof {
                assert(out@ =~= spec_request_pdu(item@));
            }
        },
        Request::ReadDiscreteInputs(h, b) => {
            version = h.version;
            write_head(&mut out, h);
            out.push(split_hi16(b.first_address));
            out.push(split_lo16(b.first_address));
            out.push(split_hi16(b.discrete_inputs_number));
            out.push(split_lo16(b.discrete_inputs_number));
            proof {
                assert(out@ =~= spec_request_pdu(item@));
            }
        },
        Request::ReadMultipleHoldingRegisters(h, b) => {
            version = h.version;
            write_head(&mut out, h);
            out.push(split_hi16(b.first_address));
            out.push(split_lo16(b.first_address));
            out.push(split_hi16(b.registers_number));
            out.push(split_lo16(b.registers_number));
            proof {
                assert(out@ =~= spec_request_pdu(item@));
            }
        },
        Request::ReadInputRegisters(h, b) => {
            version = h.version;
            write_head(&mut out, h);
            out.push(split_hi16(b.first_address));
            out.push(split_lo16(b.first_address));
            out.push(split_hi16(b.registers_number));
            out.push(split_lo16(b.registers_number));
            proof {
                assert(out@ =~= spec_request_pdu(item@));
            }
        },
        Request::WriteSingleCoil(h, b) => {
            version = h.version;
            write_head(&mut out, h);
            out.push(split_hi16(b.coil_address));
            out.push(split_lo16(b.coil_address));
            out.push(split_hi16(b.value));
            out.push(split_lo16(b.value));
            proof {
                assert(out@ =~= spec_request_pdu(item@));
            }
        },
        Request::WriteSingleHoldingRegister(h, b) => {
            version = h.version;
            write_head(&mut out, h);
            out.push(split_hi16(b.register_address));
            out.push(split_lo16(b.register_address));
            out.push(split_hi16(b.value));
            out.push(split_lo16(b.value));
            proof {
                assert(out@ =~= spec_request_pdu(item@));
            }
        },
        Request::WriteMultipleCoils(h, b) => {
            version = h.version;
            write_head(&mut out, h);
            out.push(split_hi16(b.first_address));
            out.push(split_lo16(b.first_address));
            out.push(split_hi16(b.coils_number));
            out.push(split_lo16(b.coils_number));
            out.push(b.bytes_number);
            append_bytes(&mut out, &b.values);
            proof {
                assert(out@ =~= spec_request_pdu(item@));
            }
        },
        Request::WriteMultipleHoldingRegisters(h, b) => {
            version = h.version;
            write_head(&mut out, h);
            out.push(split_hi16(b.first_address));
            out.push(split_lo16(b.first_address));
            out.push(split_hi16(b.registers_number));
            out.push(split_lo16(b.registers_number));
            out.push(b.bytes_number);
            append_bytes(&mut out, &b.values);
            proof {
                assert(out@ =~= spec_request_pdu(item@));
            }
        },
    }
    if version == Version::Rtu {
        let c = crc::compute(&out);
        out.push(split_lo16(c));
        out.push(split_hi16(c));
        proof {
            assert(out@ =~= spec_request_bytes(item@));
        }
    }
    out
}

/// The meaning of a read-style response body: a count byte followed by
/// exactly that many value bytes.
pub open spec fn spec_parse_read_body(body: Seq<u8>) -> Result<ReadBodyView, ModbusError> {
    if body.len() >= 1 && body.len() == 1 + body[0] {
        Ok(ReadBodyView { bytes_number: body[0], values: body.subrange(1, body.len() as int) })
    } else {
        Err(ModbusError::MalformedFrame)
    }
}

/// The meaning of a multiple-write request body: an address range, a
/// count byte, and exactly that many value bytes.
pub open spec fn spec_parse_write_multiple_body(body: Seq<u8>) -> Result<
    WriteMultipleBodyView,
    ModbusError,
> {
    if body.len() >= 5 && body.len() == 5 + body[4] {
        Ok(WriteMultipleBodyView {
            first_address: be16(body[0], body[1]),
            quantity: be16(body[2], body[3]),
            bytes_number: body[4],
            values: body.subrange(5, body.len() as int),
        })
    } else {
        Err(ModbusError::MalformedFrame)
    }
}

/// The meaning of a response once the envelope is off: the function byte
/// (with its error flag) dispatches the body parse.  The head's declared
/// length is reconstructed as the function byte plus the body bytes.
pub open spec fn spec_parse_response_pdu(
    version: Version,
    tid: u16,
    pid: u16,
    uid: u8,
    wire_fn: u8,
    body: Seq<u8>,
) -> Result<ResponseView, ModbusError> {
    let is_exc = wire_fn >= 0x80;
    let base: u8 = if is_exc {
        (wire_fn - 0x80) as u8
    } else {
        wire_fn
    };
    match spec_function_from_code(base) {
        None => Err(ModbusError::UnknownFunctionCode),
        Some(f) => {
            let h = Head {
                tid,
                pid,
                length: (body.len() + 1) as u16,
                uid,
                function: f,
                is_exception: is_exc,
                version,
            };
            if is_exc {
                if body.len() == 1 {
                    match spec_exception_from_code(body[0]) {
                        Some(e) => Ok(
                            ResponseView::Exception(h, ExceptionResponse { exception: e }),
                        ),
                        None => Err(ModbusError::UnknownFunctionCode),
                    }
                } else {
                    Err(ModbusError::MalformedFrame)
                }
            } else {
                match f {
                    Function::ReadCoils => match spec_parse_read_body(body) {
                        Ok(b) => Ok(ResponseView::ReadCoils(h, b)),
                        Err(e) => Err(e),
                    },
                    Function::ReadDiscreteInputs => match spec_parse_read_body(body) {
                        Ok(b) => Ok(ResponseView::ReadDiscreteInputs(h, b)),
                        Err(e) => Err(e),
                    },
                    Function::ReadMultipleHoldingRegisters => match spec_parse_read_body(body) {
                        Ok(b) => Ok(ResponseView::ReadMultipleHoldingRegisters(h, b)),
                        Err(e) => Err(e),
                    },
                    Function::ReadInputRegisters => match spec_parse_read_body(body) {
                        Ok(b) => Ok(ResponseView::ReadInputRegisters(h, b)),
                        Err(e) => Err(e),
                    },
                    Function::WriteSingleCoil => {
                        if body.len() == 4 {
                            Ok(
                                ResponseView::WriteSingleCoil(
                                    h,
                                    WriteSingleCoilResponse {
                                        coil_address: be16(body[0], body[1]),
                                        value: be16(body[2], body[3]),
                                    },
                                ),
                            )
                        } else {
                            Err(ModbusError::MalformedFrame)
                        }
                    },
                    Function::WriteSingleHoldingRegister => {
                        if body.len() == 4 {
                            Ok(
                                ResponseView::WriteSingleHoldingRegister(
                                    h,
                                    WriteSingleHoldingRegisterResponse {
                                        register_address: be16(body[0], body[1]),
                                        value: be16(body[2], body[3]),
                                    },
                                ),
                            )
                        } else {
                            Err(ModbusError::MalformedFrame)
                        }
                    },
                    Function::WriteMultipleCoils => {
                        if body.len() == 4 {
                            Ok(
                                ResponseView::WriteMultipleCoils(
                                    h,
                                    WriteMultipleCoilsResponse {
                                        first_address: be16(body[0], body[1]),
                                        coils_number: be16(body[2], body[3]),
                                    },
                                ),
                            )
                        } else {
                            Err(ModbusError::MalformedFrame)
                        }
                    },
                    Function::WriteMultipleHoldingRegisters => {
                        if body.len() == 4 {
                            Ok(
                                ResponseView::WriteMultipleHoldingRegisters(
                                    h,
                                    WriteMultipleHoldingRegistersResponse {
                                        first_address: be16(body[0], body[1]),
                                        registers_number: be16(body[2], body[3]),
                                    },
                                ),
                            )
                        } else {
                            Err(ModbusError::MalformedFrame)
                        }
                    },
                }
            }
        },
    }
}

/// The meaning of one whole response frame.
///
/// A `Tcp` frame must be at least eight bytes and its declared length
/// must equal the function byte plus the body.  An `Rtu` frame has no
/// length field; the window must be at least four bytes and no longer
/// than the largest legal frame (a 260-byte body), and the trailing
/// checksum, low byte first, must match the checksum of everything
/// before it.  The checksum is compared only once the body itself
/// parses.
pub open spec fn spec_parse_response(version: Version, s: Seq<u8>) -> Result<
    ResponseView,
    ModbusError,
> {
    if version == Version::Tcp {
        if s.len() < 8 {
            Err(ModbusError::MalformedFrame)
        } else if be16(s[4], s[5]) as int != s.len() - 7 {
            Err(ModbusError::MalformedFrame)
        } else {
            spec_parse_response_pdu(
                version,
                be16(s[0], s[1]),
                be16(s[2], s[3]),
                s[6],
                s[7],
                s.subrange(8, s.len() as int),
            )
        }
    } else {
        if s.len() < 4 || s.len() > 264 {
            Err(ModbusError::MalformedFrame)
        } else {
            let pdu = s.subrange(0, s.len() - 2);
            let body = s.subrange(2, s.len() - 2);
            match spec_parse_response_pdu(version, 0, 0, s[0], s[1], body) {
                Ok(m) => {
                    if s[s.len() - 2] == lo16(spec_crc(pdu)) && s[s.len() - 1] == hi16(
                        spec_crc(pdu),
                    ) {
                        Ok(m)
                    } else {
                        Err(ModbusError::MalformedFrame)
                    }
                },
                Err(e) => Err(e),
            }
        }
    }
}

/// The meaning of a request once the envelope is off.  A request never
/// carries the error flag.
pub open spec fn spec_parse_request_pdu(
    version: Version,
    tid: u16,
    pid: u16,
    uid: u8,
    wire_fn: u8,
    body: Seq<u8>,
) -> Result<RequestView, ModbusError> {
    if wire_fn >= 0x80 {
        Err(ModbusError::MalformedFrame)
    } else {
        match spec_function_from_code(wire_fn) {
            None => Err(ModbusError::UnknownFunctionCode),
            Some(f) => {
                let h = Head {
                    tid,
                    pid,
                    length: (body.len() + 1) as u16,
                    uid,
                    function: f,
                    is_exception: false,
                    version,
                };
                match f {
                    Function::ReadCoils => {
                        if body.len() == 4 {
                            Ok(
                                RequestView::ReadCoils(
                                    h,
                                    ReadCoilsRequest {
                                        first_address: be16(body[0], body[1]),
                                        coils_number: be16(body[2], body[3]),
                                    },
                                ),
                            )
                        } else {
                            Err(ModbusError::MalformedFrame)
                        }
                    },
                    Function::ReadDiscreteInputs => {
                        if body.len() == 4 {
                            Ok(
                                RequestView::ReadDiscreteInputs(
                                    h,
                                    ReadDiscreteInputsRequest {
                                        first_address: be16(body[0], body[1]),
                                        discrete_inputs_number: be16(body[2], body[3]),
                                    },
                                ),
                            )
                        } else {
                            Err(ModbusError::MalformedFrame)
                        }
                    },
                    Function::ReadMultipleHoldingRegisters => {
                        if body.len() == 4 {
                            Ok(
                                RequestView::ReadMultipleHoldingRegisters(
                                    h,
                                    ReadMultipleHoldingRegistersRequest {
                                        first_address: be16(body[0], body[1]),
                                        registers_number: be16(body[2], body[3]),
                                    },
                                ),
                            )
                        } else {
                            Err(ModbusError::MalformedFrame)
                        }
                    },
                    Function::ReadInputRegisters => {
                        if body.len() == 4 {
                            Ok(
                                RequestView::ReadInputRegisters(
                                    h,
                                    ReadInputRegistersRequest {
                                        first_address: be16(body[0], body[1]),
                                        registers_number: be16(body[2], body[3]),
                                    },
                                ),
                            )
                        } else {
                            Err(ModbusError::MalformedFrame)
                        }
                    },
                    Function::WriteSingleCoil => {
                        if body.len() == 4 {
                            Ok(
                                RequestView::WriteSingleCoil(
                                    h,
                                    WriteSingleCoilRequest {
                                        coil_address: be16(body[0], body[1]),
                                        value: be16(body[2], body[3]),
                                    },
                                ),
                            )
                        } else {
                            Err(ModbusError::MalformedFrame)
                        }
                    },
                    Function::WriteSingleHoldingRegister => {
                        if body.len() == 4 {
                            Ok(
                                RequestView::WriteSingleHoldingRegister(
                                    h,
                                    WriteSingleHoldingRegisterRequest {
                                        register_address: be16(body[0], body[1]),
                                        value: be16(body[2], body[3]),
                                    },
                                ),
                            )
                        } else {
                            Err(ModbusError::MalformedFrame)
                        }
                    },
                    Function::WriteMultipleCoils => match spec_parse_write_multiple_body(body) {
                        Ok(b) => Ok(RequestView::WriteMultipleCoils(h, b)),
                        Err(e) => Err(e),
                    },
                    Function::WriteMultipleHoldingRegisters => match spec_parse_write_multiple_body(
                        body,
                    ) {
                        Ok(b) => Ok(RequestView::WriteMultipleHoldingRegisters(h, b)),
                        Err(e) => Err(e),
                    },
                }
            },
        }
    }
}

/// The meaning of one whole request frame, under the same framing rules
/// as `spec_parse_response`.
pub open spec fn spec_parse_request(version: Version, s: Seq<u8>) -> Result<
    RequestView,
    ModbusError,
> {
    if version == Version::Tcp {
        if s.len() < 8 {
            Err(ModbusError::MalformedFrame)
        } else if be16(s[4], s[5]) as int != s.len() - 7 {
            Err(ModbusError::MalformedFrame)
        } else {
            spec_parse_request_pdu(
                version,
                be16(s[0], s[1]),
                be16(s[2], s[3]),
                s[6],
                s[7],
                s.subrange(8, s.len() as int),
            )
        }
    } else {
        if s.len() < 4 || s.len() > 264 {
            Err(ModbusError::MalformedFrame)
        } else {
            let pdu = s.subrange(0, s.len() - 2);
            let body = s.subrange(2, s.len() - 2);
            match spec_parse_request_pdu(version, 0, 0, s[0], s[1], body) {
                Ok(m) => {
                    if s[s.len() - 2] == lo16(spec_crc(pdu)) && s[s.len() - 1] == hi16(
                        spec_crc(pdu),
                    ) {
                        Ok(m)
                    } else {
                        Err(ModbusError::MalformedFrame)
                    }
                },
                Err(e) => Err(e),
            }
        }
    }
}

/// Parses a read-style response body: a count byte followed by exactly
/// that many value bytes.
fn parse_read_body(body: &Vec<u8>) -> (r: Result<(u8, Vec<u8>), ModbusError>)
    ensures
        match r {
            Ok(p) => spec_parse_read_body(body@) == Ok::<ReadBodyView, ModbusError>(
                ReadBodyView { bytes_number: p.0, values: p.1@ },
            ),
            Err(e) => spec_parse_read_body(body@) == Err::<ReadBodyView, ModbusError>(e),
        },
{
    if body.len() < 1 {
        return Err(ModbusError::MalformedFrame);
    }
    let count = body[0];
    if body.len() != 1 + count as usize {
        return Err(ModbusError::MalformedFrame);
    }
    let values = vec_range(body, 1, body.len());
    Ok((count, values))
}

/// Parses a multiple-write request body: an address range, a count byte,
/// and exactly that many value bytes.
fn parse_write_multiple_body(body: &Vec<u8>) -> (r: Result<(u16, u16, u8, Vec<u8>), ModbusError>)
    ensures
        match r {
            Ok(p) => spec_parse_write_multiple_body(body@) == Ok::<
                WriteMultipleBodyView,
                ModbusError,
            >(
                WriteMultipleBodyView {
                    first_address: p.0,
                    quantity: p.1,
                    bytes_number: p.2,
                    values: p.3@,
                },
            ),
            Err(e) => spec_parse_write_multiple_body(body@) == Err::<
                WriteMultipleBodyView,
                ModbusError,
            >(e),
        },
{
    if body.len() < 5 {
        return Err(ModbusError::MalformedFrame);
    }
    let count = body[4];
    if body.len() != 5 + count as usize {
        return Err(ModbusError::MalformedFrame);
    }
    let first_address = read_be16(body[0], body[1]);
    let quantity = read_be16(body[2], body[3]);
    let values = vec_range(body, 5, body.len());
    Ok((first_address, quantity, count, values))
}

/// Parses a response once the envelope is off.
#[verifier::rlimit(60)]
fn parse_response_pdu(
    version: Version,
    tid: u16,
    pid: u16,
    uid: u8,
    wire_fn: u8,
    body: &Vec<u8>,
) -> (r: Result<Response, ModbusError>)
    requires
        body@.len() <= 0xFFFE,
    ensures
        match r {
            Ok(m) => spec_parse_response_pdu(version, tid, pid, uid, wire_fn, body@) == Ok::<
                ResponseView,
                ModbusError,
            >(m@),
            Err(e) => spec_parse_response_pdu(version, tid, pid, uid, wire_fn, body@) == Err::<
                ResponseView,
                ModbusError,
            >(e),
        },
{
    let is_exc = wire_fn >= 0x80;
    let base = if is_exc {
        wire_fn - 0x80
    } else {
        wire_fn
    };
    let f = match Function::from_code(base) {
        Some(f) => f,
        None => {
            return Err(ModbusError::UnknownFunctionCode);
        },
    };
    let length = body.len() as u16 + 1;
    let head = Head { tid, pid, length, uid, function: f, is_exception: is_exc, version };
    if is_exc {
        if body.len() != 1 {
            return Err(ModbusError::MalformedFrame);
        }
        match Exception::from_code(body[0]) {
            Some(e) => Ok(Response::Exception(head, ExceptionResponse { exception: e })),
            None => Err(ModbusError::UnknownFunctionCode),
        }
    } else {
        match f {
            Function::ReadCoils => match parse_read_body(body) {
                Ok(p) => Ok(
                    Response::ReadCoils(
                        head,
                        ReadCoilsResponse { bytes_number: p.0, values: p.1 },
                    ),
                ),
                Err(e) => Err(e),
            },
            Function::ReadDiscreteInputs => match parse_read_body(body) {
                Ok(p) => Ok(
                    Response::ReadDiscreteInputs(
                        head,
                        ReadDiscreteInputsResponse { bytes_number: p.0, values: p.1 },
                    ),
                ),
                Err(e) => Err(e),
            },
            Function::ReadMultipleHoldingRegisters => match parse_read_body(body) {
                Ok(p) => Ok(
                    Response::ReadMultipleHoldingRegisters(
                        head,
                        ReadMultipleHoldingRegistersResponse { bytes_number: p.0, values: p.1 },
                    ),
                ),
                Err(e) => Err(e),
            },
            Function::ReadInputRegisters => match parse_read_body(body) {
                Ok(p) => Ok(
                    Response::ReadInputRegisters(
                        head,
                        ReadInputRegistersResponse { bytes_number: p.0, values: p.1 },
                    ),
                ),
                Err(e) => Err(e),
            },
            Function::WriteSingleCoil => {
                if body.len() != 4 {
                    return Err(ModbusError::MalformedFrame);
                }
                Ok(
                    Response::WriteSingleCoil(
                        head,
                        WriteSingleCoilResponse {
                            coil_address: read_be16(body[0], body[1]),
                            value: read_be16(body[2], body[3]),
                        },
                    ),
                )
            },
            Function::WriteSingleHoldingRegister => {
                if body.len() != 4 {
                    return Err(ModbusError::MalformedFrame);
                }
                Ok(
                    Response::WriteSingleHoldingRegister(
                        head,
                        WriteSingleHoldingRegisterResponse {
                            register_address: read_be16(body[0], body[1]),
                            value: read_be16(body[2], body[3]),
                        },
                    ),
                )
            },
            Function::WriteMultipleCoils => {
                if body.len() != 4 {
                    return Err(ModbusError::MalformedFrame);
                }
                Ok(
                    Response::WriteMultipleCoils(
                        head,
                        WriteMultipleCoilsResponse {
                            first_address: read_be16(body[0], body[1]),
                            coils_number: read_be16(body[2], body[3]),
                        },
                    ),
                )
            },
            Function::WriteMultipleHoldingRegisters => {
                if body.len() != 4 {
                    return Err(ModbusError::MalformedFrame);
                }
                Ok(
                    Response::WriteMultipleHoldingRegisters(
                        head,
                        WriteMultipleHoldingRegistersResponse {
                            first_address: read_be16(body[0], body[1]),
                            registers_number: read_be16(body[2], body[3]),
                        },
                    ),
                )
            },
        }
    }
}

/// Parses one whole response frame out of `data`, which must hold the
/// frame and nothing else.  The result is exactly what
/// `spec_parse_response` gives of the bytes.
pub fn parse_response(version: Version, data: &Vec<u8>) -> (r: Result<Response, ModbusError>)
    ensures
        match r {
            Ok(m) => spec_parse_response(version, data@) == Ok::<ResponseView, ModbusError>(m@),
            Err(e) => spec_parse_response(version, data@) == Err::<ResponseView, ModbusError>(e),
        },
{
    match version {
        Version::Tcp => {
            if data.len() < 8 {
                return Err(ModbusError::MalformedFrame);
            }
            let length = read_be16(data[4], data[5]);
            if length as usize != data.len() - 7 {
                return Err(ModbusError::MalformedFrame);
            }
            let tid = read_be16(data[0], data[1]);
            let pid = read_be16(data[2], data[3]);
            let uid = data[6];
            let wire_fn = data[7];
            let body = vec_range(data, 8, data.len());
            parse_response_pdu(version, tid, pid, uid, wire_fn, &body)
        },
        Version::Rtu => {
            let n = data.len();
            if n < 4 || n > 264 {
                return Err(ModbusError::MalformedFrame);
            }
            let uid = data[0];
            let wire_fn = data[1];
            let body = vec_range(data, 2, n - 2);
            match parse_response_pdu(version, 0, 0, uid, wire_fn, &body) {
                Ok(m) => {
                    let pdu = vec_range(data, 0, n - 2);
                    let c = crc::compute(&pdu);
                    if data[n - 2] == split_lo16(c) && data[n - 1] == split_hi16(c) {
                        Ok(m)
                    } else {
                        Err(ModbusError::MalformedFrame)
                    }
                },
                Err(e) => Err(e),
            }
        },
    }
}

/// Parses a request once the envelope is off.
#[verifier::rlimit(60)]
fn parse_request_pdu(
    version: Version,
    tid: u16,
    pid: u16,
    uid: u8,
    wire_fn: u8,
    body: &Vec<u8>,
) -> (r: Result<Request, ModbusError>)
    requires
        body@.len() <= 0xFFFE,
    ensures
        match r {
            Ok(m) => spec_parse_request_pdu(version, tid, pid, uid, wire_fn, body@) == Ok::<
                RequestView,
                ModbusError,
            >(m@),
            Err(e) => spec_parse_request_pdu(version, tid, pid, uid, wire_fn, body@) == Err::<
                RequestView,
                ModbusError,
            >(e),
        },
{
    if wire_fn >= 0x80 {
        return Err(ModbusError::MalformedFrame);
    }
    let f = match Function::from_code(wire_fn) {
        Some(f) => f,
        None => {
            return Err(ModbusError::UnknownFunctionCode);
        },
    };
    let length = body.len() as u16 + 1;
    let head = Head { tid, pid, length, uid, function: f, is_exception: false, version };
    match f {
        Function::ReadCoils => {
            if body.len() != 4 {
                return Err(ModbusError::MalformedFrame);
            }
            Ok(
                Request::ReadCoils(
                    head,
                    ReadCoilsRequest {
                        first_address: read_be16(body[0], body[1]),
                        coils_number: read_be16(body[2], body[3]),
                    },
                ),
            )
        },
        Function::ReadDiscreteInputs => {
            if body.len() != 4 {
                return Err(ModbusError::MalformedFrame);
            }
            Ok(
                Request::ReadDiscreteInputs(
                    head,
                    ReadDiscreteInputsRequest {
                        first_address: read_be16(body[0], body[1]),
                        discrete_inputs_number: read_be16(body[2], body[3]),
                    },
                ),
            )
        },
        Function::ReadMultipleHoldingRegisters => {
            if body.len() != 4 {
                return Err(ModbusError::MalformedFrame);
            }
            Ok(
                Request::ReadMultipleHoldingRegisters(
                    head,
                    ReadMultipleHoldingRegistersRequest {
                        first_address: read_be16(body[0], body[1]),
                        registers_number: read_be16(body[2], body[3]),
                    },
                ),
            )
        },
        Function::ReadInputRegisters => {
            if body.len() != 4 {
                return Err(ModbusError::MalformedFrame);
            }
            Ok(
                Request::ReadInputRegisters(
                    head,
                    ReadInputRegistersRequest {
                        first_address: read_be16(body[0], body[1]),
                        registers_number: read_be16(body[2], body[3]),
                    },
                ),
            )
        },
        Function::WriteSingleCoil => {
            if body.len() != 4 {
                return Err(ModbusError::MalformedFrame);
            }
            Ok(
                Request::WriteSingleCoil(
                    head,
                    WriteSingleCoilRequest {
                        coil_address: read_be16(body[0], body[1]),
                        value: read_be16(body[2], body[3]),
                    },
                ),
            )
        },
        Function::WriteSingleHoldingRegister => {
            if body.len() != 4 {
                return Err(ModbusError::MalformedFrame);
            }
            Ok(
                Request::WriteSingleHoldingRegister(
                    head,
                    WriteSingleHoldingRegisterRequest {
                        register_address: read_be16(body[0], body[1]),
                        value: read_be16(body[2], body[3]),
                    },
                ),
            )
        },
        Function::WriteMultipleCoils => match parse_write_multiple_body(body) {
            Ok(p) => Ok(
                Request::WriteMultipleCoils(
                    head,
                    WriteMultipleCoilsRequest {
                        first_address: p.0,
                        coils_number: p.1,
                        bytes_number: p.2,
                        values: p.3,
                    },
                ),
            ),
            Err(e) => Err(e),
        },
        Function::WriteMultipleHoldingRegisters => match parse_write_multiple_body(body) {
            Ok(p) => Ok(
                Request::WriteMultipleHoldingRegisters(
                    head,
                    WriteMultipleHoldingRegistersRequest {
                        first_address: p.0,
                        registers_number: p.1,
                        bytes_number: p.2,
                        values: p.3,
                    },
                ),
            ),
            Err(e) => Err(e),
        },
    }
}

/// Parses one whole request frame out of `data`, which must hold the
/// frame and nothing else.  The result is exactly what
/// `spec_parse_request` gives of the bytes.
pub fn parse_request(version: Version, data: &Vec<u8>) -> (r: Result<Request, ModbusError>)
    ensures
        match r {
            Ok(m) => spec_parse_request(version, data@) == Ok::<RequestView, ModbusError>(m@),
            Err(e) => spec_parse_request(version, data@) == Err::<RequestView, ModbusError>(e),
        },
{
    match version {
        Version::Tcp => {
            if data.len() < 8 {
                return Err(ModbusError::MalformedFrame);
            }
            let length = read_be16(data[4], data[5]);
            if length as usize != data.len() - 7 {
                return Err(ModbusError::MalformedFrame);
            }
            let tid = read_be16(data[0], data[1]);
            let pid = read_be16(data[2], data[3]);
            let uid = data[6];
            let wire_fn = data[7];
            let body = vec_range(data, 8, data.len());
            parse_request_pdu(version, tid, pid, uid, wire_fn, &body)
        },
        Version::Rtu => {
            let n = data.len();
            if n < 4 || n > 264 {
                return Err(ModbusError::MalformedFrame);
            }
            let uid = data[0];
            let wire_fn = data[1];
            let body = vec_range(data, 2, n - 2);
            match parse_request_pdu(version, 0, 0, uid, wire_fn, &body) {
                Ok(m) => {
                    let pdu = vec_range(data, 0, n - 2);
                    let c = crc::compute(&pdu);
                    if data[n - 2] == split_lo16(c) && data[n - 1] == split_hi16(c) {
                        Ok(m)
                    } else {
                        Err(ModbusError::MalformedFrame)
                    }
                },
                Err(e) => Err(e),
            }
        },
    }
}

/// A well-formed response body is at least one and at most 256 bytes.
proof fn lemma_response_body_bytes_len(rv: ResponseView)
    requires
        spec_response_wf(rv),
    ensures
        1 <= spec_response_body_bytes(rv).len() <= 256,
{
}

/// A well-formed request body is at least four and at most 260 bytes.
proof fn lemma_request_body_bytes_len(rv: RequestView)
    requires
        spec_request_wf(rv),
    ensures
        4 <= spec_request_body_bytes(rv).len() <= 260,
{
}

/// Parsing the body bytes a well-formed response serializes to, under
/// that response's own envelope fields, yields the response back.
proof fn lemma_parse_response_pdu_round_trip(rv: ResponseView)
    requires
        spec_response_wf(rv),
    ensures
        ({
            let h = spec_response_head(rv);
            spec_parse_response_pdu(
                h.version,
                h.tid,
                h.pid,
                h.uid,
                spec_wire_function(h),
                spec_response_body_bytes(rv),
            ) == Ok::<ResponseView, ModbusError>(rv)
        }),
{
    let h = spec_response_head(rv);
    let body = spec_response_body_bytes(rv);
    lemma_function_code_round_trip(h.function);
    lemma_function_code_bound(h.function);
    match rv {
        ResponseView::ReadCoils(h0, b) => {
            assert(body[0] == b.bytes_number);
            assert(body.subrange(1, body.len() as int) =~= b.values);
        },
        ResponseView::ReadDiscreteInputs(h0, b) => {
            assert(body[0] == b.bytes_number);
            assert(body.subrange(1, body.len() as int) =~= b.values);
        },
        ResponseView::ReadMultipleHoldingRegisters(h0, b) => {
            assert(body[0] == b.bytes_number);
            assert(body.subrange(1, body.len() as int) =~= b.values);
        },
        ResponseView::ReadInputRegisters(h0, b) => {
            assert(body[0] == b.bytes_number);
            assert(body.subrange(1, body.len() as int) =~= b.values);
        },
        ResponseView::WriteSingleCoil(h0, b) => {
            lemma_be16_round_trip(b.coil_address);
            lemma_be16_round_trip(b.value);
        },
        ResponseView::WriteSingleHoldingRegister(h0, b) => {
            lemma_be16_round_trip(b.register_address);
            lemma_be16_round_trip(b.value);
        },
        ResponseView::WriteMultipleCoils(h0, b) => {
            lemma_be16_round_trip(b.first_address);
            lemma_be16_round_trip(b.coils_number);
        },
        ResponseView::WriteMultipleHoldingRegisters(h0, b) => {
            lemma_be16_round_trip(b.first_address);
            lemma_be16_round_trip(b.registers_number);
        },
        ResponseView::Exception(h0, b) => {
            lemma_exception_code_round_trip(b.exception);
            assert(body[0] == spec_exception_code(b.exception));
        },
    }
}

/// Round trip for responses: parsing the full wire frame of a
/// well-formed response under its own transport version yields the
/// response back.  For serial frames the transaction and protocol
/// identifiers must be zero, since the serial wire never carries them.
pub proof fn lemma_response_round_trip(rv: ResponseView)
    requires
        spec_response_wf(rv),
        spec_response_head(rv).version == Version::Rtu ==> spec_response_head(rv).tid == 0
            && spec_response_head(rv).pid == 0,
    ensures
        spec_parse_response(spec_response_head(rv).version, spec_response_bytes(rv)) == Ok::<
            ResponseView,
            ModbusError,
        >(rv),
{
    let h = spec_response_head(rv);
    let body = spec_response_body_bytes(rv);
    let hb = spec_head_bytes(h);
    let pdu = spec_response_pdu(rv);
    let s = spec_response_bytes(rv);
    lemma_parse_response_pdu_round_trip(rv);
    lemma_response_body_bytes_len(rv);
    if h.version == Version::Tcp {
        assert(hb.len() == 8);
        assert(s == pdu);
        assert(s.len() == 8 + body.len());
        lemma_be16_round_trip(h.tid);
        lemma_be16_round_trip(h.pid);
        lemma_be16_round_trip(h.length);
        assert(s[0] == hi16(h.tid) && s[1] == lo16(h.tid));
        assert(s[2] == hi16(h.pid) && s[3] == lo16(h.pid));
        assert(s[4] == hi16(h.length) && s[5] == lo16(h.length));
        assert(be16(s[4], s[5]) as int == s.len() - 7);
        assert(s[6] == h.uid);
        assert(s[7] == spec_wire_function(h));
        assert(s.subrange(8, s.len() as int) =~= body);
    } else {
        assert(hb.len() == 2);
        let c = spec_crc(pdu);
        assert(s == pdu + seq![lo16(c), hi16(c)]);
        assert(4 <= s.len() <= 264);
        assert(s.subrange(0, s.len() - 2) =~= pdu);
        assert(s.subrange(2, s.len() - 2) =~= body);
        assert(s[0] == h.uid);
        assert(s[1] == spec_wire_function(h));
        assert(s[s.len() - 2] == lo16(c));
        assert(s[s.len() - 1] == hi16(c));
    }
}

/// Parsing the body bytes a well-formed request serializes to, under
/// that request's own envelope fields, yields the request back.
proof fn lemma_parse_request_pdu_round_trip(rv: RequestView)
    requires
        spec_request_wf(rv),
    ensures
        ({
            let h = spec_request_head(rv);
            spec_parse_request_pdu(
                h.version,
                h.tid,
                h.pid,
                h.uid,
                spec_wire_function(h),
                spec_request_body_bytes(rv),
            ) == Ok::<RequestView, ModbusError>(rv)
        }),
{
    let h = spec_request_head(rv);
    let body = spec_request_body_bytes(rv);
    lemma_function_code_round_trip(h.function);
    lemma_function_code_bound(h.function);
    match rv {
        RequestView::ReadCoils(h0, b) => {
            lemma_be16_round_trip(b.first_address);
            lemma_be16_round_trip(b.coils_number);
        },
        RequestView::ReadDiscreteInputs(h0, b) => {
            lemma_be16_round_trip(b.first_address);
            lemma_be16_round_trip(b.discrete_inputs_number);
        },
        RequestView::ReadMultipleHoldingRegisters(h0, b) => {
            lemma_be16_round_trip(b.first_address);
            lemma_be16_round_trip(b.registers_number);
        },
        RequestView::ReadInputRegisters(h0, b) => {
            lemma_be16_round_trip(b.first_address);
            lemma_be16_round_trip(b.registers_number);
        },
        RequestView::WriteSingleCoil(h0, b) => {
            lemma_be16_round_trip(b.coil_address);
            lemma_be16_round_trip(b.value);
        },
        RequestView::WriteSingleHoldingRegister(h0, b) => {
            lemma_be16_round_trip(b.register_address);
            lemma_be16_round_trip(b.value);
        },
        RequestView::WriteMultipleCoils(h0, b) => {
            lemma_be16_round_trip(b.first_address);
            lemma_be16_round_trip(b.quantity);
            assert(body[4] == b.bytes_number);
            assert(body.subrange(5, body.len() as int) =~= b.values);
        },
        RequestView::WriteMultipleHoldingRegisters(h0, b) => {
            lemma_be16_round_trip(b.first_address);
            lemma_be16_round_trip(b.quantity);
            assert(body[4] == b.bytes_number);
            assert(body.subrange(5, body.len() as int) =~= b.values);
        },
    }
}

/// Round trip for requests: parsing the full wire frame of a
/// well-formed request under its own transport version yields the
/// request back.  For serial frames the transaction and protocol
/// identifiers must be zero, since the serial wire never carries them.
pub proof fn lemma_request_round_trip(rv: RequestView)
    requires
        spec_request_wf(rv),
        spec_request_head(rv).version == Version::Rtu ==> spec_request_head(rv).tid == 0
            && spec_request_head(rv).pid == 0,
    ensures
        spec_parse_request(spec_request_head(rv).version, spec_request_bytes(rv)) == Ok::<
            RequestView,
            ModbusError,
        >(rv),
{
    let h = spec_request_head(rv);
    let body = spec_request_body_bytes(rv);
    let hb = spec_head_bytes(h);
    let pdu = spec_request_pdu(rv);
    let s = spec_request_bytes(rv);
    lemma_parse_request_pdu_round_trip(rv);
    lemma_request_body_bytes_len(rv);
    if h.version == Version::Tcp {
        assert(hb.len() == 8);
        assert(s == pdu);
        assert(s.len() == 8 + body.len());
        lemma_be16_round_trip(h.tid);
        lemma_be16_round_trip(h.pid);
        lemma_be16_round_trip(h.length);
        assert(s[0] == hi16(h.tid) && s[1] == lo16(h.tid));
        assert(s[2] == hi16(h.pid) && s[3] == lo16(h.pid));
        assert(s[4] == hi16(h.length) && s[5] == lo16(h.length));
        assert(be16(s[4], s[5]) as int == s.len() - 7);
        assert(s[6] == h.uid);
        assert(s[7] == spec_wire_function(h));
        assert(s.subrange(8, s.len() as int) =~= body);
    } else {
        assert(hb.len() == 2);
        let c = spec_crc(pdu);
        assert(s == pdu + seq![lo16(c), hi16(c)]);
        assert(4 <= s.len() <= 264);
        assert(s.subrange(0, s.len() - 2) =~= pdu);
        assert(s.subrange(2, s.len() - 2) =~= body);
        assert(s[0] == h.uid);
        assert(s[1] == spec_wire_function(h));
        assert(s[s.len() - 2] == lo16(c));
        assert(s[s.len() - 1] == hi16(c));
    }
}

/// What one look at a buffer's bytes yields: not enough bytes yet to
/// bound a frame, a complete frame of the given byte count at the front,
/// or a leading byte that rules any frame out.
pub enum FrameScan {
    NeedMore,
    Frame(int),
    Bad(ModbusError),
}

/// Appends the full wire frame of a response at the end of `dst`.
pub fn response_to_bytesmut(item: &Response, dst: &mut bytes::BytesMut)
    requires
        bytes_view(*old(dst)).len() + spec_response_bytes(item@).len() <= 0x7FFF_FFFF,
    ensures
        bytes_view(*final(dst)) == bytes_view(*old(dst)) + spec_response_bytes(item@),
{
    let frame = serialize_response(item);
    bytes_mut_put_slice(dst, &frame);
}

/// Appends the full wire frame of a request at the end of `dst`.
pub fn request_to_bytesmut(item: &Request, dst: &mut bytes::BytesMut)
    requires
        bytes_view(*old(dst)).len() + spec_request_bytes(item@).len() <= 0x7FFF_FFFF,
    ensures
        bytes_view(*final(dst)) == bytes_view(*old(dst)) + spec_request_bytes(item@),
{
    let frame = serialize_request(item);
    bytes_mut_put_slice(dst, &frame);
}

} // verus!
