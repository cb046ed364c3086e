//! The frame model: transport versions, function and exception codes, the
//! per-message head, and the `Frame` builder facade.

use vstd::prelude::*;

pub mod request;
pub mod response;

use crate::frame::request::{
    ReadCoilsRequest, ReadDiscreteInputsRequest, ReadInputRegistersRequest,
    ReadMultipleHoldingRegistersRequest, Request, RequestView, WriteMultipleBodyView,
    WriteMultipleCoilsRequest, WriteMultipleHoldingRegistersRequest, WriteSingleCoilRequest,
    WriteSingleHoldingRegisterRequest,
};
use crate::frame::response::{
    spec_response_wf, ExceptionResponse, ReadBodyView, ReadCoilsResponse,
    ReadDiscreteInputsResponse, ReadInputRegistersResponse, ReadMultipleHoldingRegistersResponse,
    Response, ResponseView, WriteMultipleCoilsResponse, WriteMultipleHoldingRegistersResponse,
    WriteSingleCoilResponse, WriteSingleHoldingRegisterResponse,
};
use crate::frame::request::spec_request_wf;

verus! {

/// The two framing disciplines a frame can be carried under.
///
/// `Tcp` frames carry an explicit six-byte envelope (transaction id,
/// protocol id, declared length) and no checksum; `Rtu` frames carry no
/// envelope and end with a 16-bit checksum.
#[derive(Clone, Copy, Debug, PartialEq, Eq, Structural)]
pub enum Version {
    Tcp,
    Rtu,
}

/// The closed set of supported operation codes.
#[derive(Clone, Copy, Debug, PartialEq, Eq, Structural)]
pub enum Function {
    ReadCoils,
    ReadDiscreteInputs,
    ReadMultipleHoldingRegisters,
    ReadInputRegisters,
    WriteSingleCoil,
    WriteSingleHoldingRegister,
    WriteMultipleCoils,
    WriteMultipleHoldingRegisters,
}

/// The one-byte wire code of a function.
pub open spec fn spec_function_code(f: Function) -> u8 {
    match f {
        Function::ReadCoils => 0x01,
        Function::ReadDiscreteInputs => 0x02,
        Function::ReadMultipleHoldingRegisters => 0x03,
        Function::ReadInputRegisters => 0x04,
        Function::WriteSingleCoil => 0x05,
        Function::WriteSingleHoldingRegister => 0x06,
        Function::WriteMultipleCoils => 0x0F,
        Function::WriteMultipleHoldingRegisters => 0x10,
    }
}

/// The reverse lookup from a wire code to a function.
pub open spec fn spec_function_from_code(c: u8) -> Option<Function> {
    match c {
        0x01 => Some(Function::ReadCoils),
        0x02 => Some(Function::ReadDiscreteInputs),
        0x03 => Some(Function::ReadMultipleHoldingRegisters),
        0x04 => Some(Function::ReadInputRegisters),
        0x05 => Some(Function::WriteSingleCoil),
        0x06 => Some(Function::WriteSingleHoldingRegister),
        0x0F => Some(Function::WriteMultipleCoils),
        0x10 => Some(Function::WriteMultipleHoldingRegisters),
        _ => None,
    }
}

impl Function {
    /// The one-byte wire code of this function.
    pub fn to_code(&self) -> (r: u8)
        ensures
            r == spec_function_code(*self),
    {
        match self {
            Function::ReadCoils => 0x01,
            Function::ReadDiscreteInputs => 0x02,
            Function::ReadMultipleHoldingRegisters => 0x03,
            Function::ReadInputRegisters => 0x04,
            Function::WriteSingleCoil => 0x05,
            Function::WriteSingleHoldingRegister => 0x06,
            Function::WriteMultipleCoils => 0x0F,
            Function::WriteMultipleHoldingRegisters => 0x10,
        }
    }

    /// Looks a wire code up; `None` exactly for the bytes outside the
    /// closed function set.
    pub fn from_code(code: u8) -> (r: Option<Function>)
        ensures
            r == spec_function_from_code(code),
    {
        match code {
            0x01 => Some(Function::ReadCoils),
            0x02 => Some(Function::ReadDiscreteInputs),
            0x03 => Some(Function::ReadMultipleHoldingRegisters),
            0x04 => Some(Function::ReadInputRegisters),
            0x05 => Some(Function::WriteSingleCoil),
            0x06 => Some(Function::WriteSingleHoldingRegister),
            0x0F => Some(Function::WriteMultipleCoils),
            0x10 => Some(Function::WriteMultipleHoldingRegisters),
            _ => None,
        }
    }
}

/// Looking a function's own code up yields that function back: the
/// code/function mapping is a bijection onto its range.
pub proof fn lemma_function_code_round_trip(f: Function)
    ensures
        spec_function_from_code(spec_function_code(f)) == Some(f),
{
}

/// Every function code is a small positive byte, well below the `0x80`
/// exception flag.
pub proof fn lemma_function_code_bound(f: Function)
    ensures
        1 <= spec_function_code(f) <= 0x10,
{
}

/// The closed set of protocol-level error codes a responder can signal.
#[derive(Clone, Copy, Debug, PartialEq, Eq, Structural)]
pub enum Exception {
    IllegalFunction,
    IllegalDataAddress,
    IllegalDataValue,
    SlaveDeviceFailure,
    Acknowledge,
    SlaveDeviceBusy,
    NegativeAcknowledge,
    MemoryParityError,
    GatewayPathUnavailable,
    GatewayTargetDeviceFailedToResponse,
}

/// The one-byte wire code of an exception.
pub open spec fn spec_exception_code(e: Exception) -> u8 {
    match e {
        Exception::IllegalFunction => 0x01,
        Exception::IllegalDataAddress => 0x02,
        Exception::IllegalDataValue => 0x03,
        Exception::SlaveDeviceFailure => 0x04,
        Exception::Acknowledge => 0x05,
        Exception::SlaveDeviceBusy => 0x06,
        Exception::NegativeAcknowledge => 0x07,
        Exception::MemoryParityError => 0x08,
        Exception::GatewayPathUnavailable => 0x0A,
        Exception::GatewayTargetDeviceFailedToResponse => 0x0B,
    }
}

/// The reverse lookup from a wire code to an exception.
pub open spec fn spec_exception_from_code(c: u8) -> Option<Exception> {
    match c {
        0x01 => Some(Exception::IllegalFunction),
        0x02 => Some(Exception::IllegalDataAddress),
        0x03 => Some(Exception::IllegalDataValue),
        0x04 => Some(Exception::SlaveDeviceFailure),
        0x05 => Some(Exception::Acknowledge),
        0x06 => Some(Exception::SlaveDeviceBusy),
        0x07 => Some(Exception::NegativeAcknowledge),
        0x08 => Some(Exception::MemoryParityError),
        0x0A => Some(Exception::GatewayPathUnavailable),
        0x0B => Some(Exception::GatewayTargetDeviceFailedToResponse),
        _ => None,
    }
}

impl Exception {
    /// The one-byte wire code of this exception.
    pub fn to_code(&self) -> (r: u8)
        ensures
            r == spec_exception_code(*self),
    {
        match self {
            Exception::IllegalFunction => 0x01,
            Exception::IllegalDataAddress => 0x02,
            Exception::IllegalDataValue => 0x03,
            Exception::SlaveDeviceFailure => 0x04,
            Exception::Acknowledge => 0x05,
            Exception::SlaveDeviceBusy => 0x06,
            Exception::NegativeAcknowledge => 0x07,
            Exception::MemoryParityError => 0x08,
            Exception::GatewayPathUnavailable => 0x0A,
            Exception::GatewayTargetDeviceFailedToResponse => 0x0B,
        }
    }

    /// Looks a wire code up; `None` exactly for the bytes outside the
    /// closed exception set.
    pub fn from_code(code: u8) -> (r: Option<Exception>)
        ensures
            r == spec_exception_from_code(code),
    {
        match code {
            0x01 => Some(Exception::IllegalFunction),
            0x02 => Some(Exception::IllegalDataAddress),
            0x03 => Some(Exception::IllegalDataValue),
            0x04 => Some(Exception::SlaveDeviceFailure),
            0x05 => Some(Exception::Acknowledge),
            0x06 => Some(Exception::SlaveDeviceBusy),
            0x07 => Some(Exception::NegativeAcknowledge),
            0x08 => Some(Exception::MemoryParityError),
            0x0A => Some(Exception::GatewayPathUnavailable),
            0x0B => Some(Exception::GatewayTargetDeviceFailedToResponse),
            _ => None,
        }
    }
}

/// Looking an exception's own code up yields that exception back.
pub proof fn lemma_exception_code_round_trip(e: Exception)
    ensures
        spec_exception_from_code(spec_exception_code(e)) == Some(e),
{
}

/// The per-message envelope shared by every message kind.
///
/// For `Rtu` frames the `tid`, `pid` and `length` fields are never
/// materialized on the wire; for `Tcp` frames they always are.  The
/// `length` field counts the function byte plus the body bytes (the unit
/// id is not counted).  The function byte on the wire is
/// `function.to_code() + 0x80` when `is_exception` is set.
#[derive(Clone, Copy, Debug, PartialEq, Eq, Structural)]
pub struct Head {
    /// Transaction identifier, echoed from request to response (`Tcp` only).
    pub tid: u16,
    /// Protocol identifier, conventionally zero (`Tcp` only).
    pub pid: u16,
    /// Declared length: one function byte plus the body bytes (`Tcp` only).
    pub length: u16,
    /// Unit/slave identifier, always present.
    pub uid: u8,
    /// The operation the message is about.
    pub function: Function,
    /// Whether the function byte carries the `0x80` error flag.
    pub is_exception: bool,
    /// The framing discipline the message is meant for.
    pub version: Version,
}

impl Head {
    /// Builds a head for a body of `body_length` wire bytes: the declared
    /// length is the function byte plus the body.
    pub fn new(tid: u16, uid: u8, function: Function, body_length: u16, version: Version) -> (r:
        Head)
        requires
            body_length < 0xFFFF,
        ensures
            r == (Head {
                tid,
                pid: 0,
                length: (body_length + 1) as u16,
                uid,
                function,
                is_exception: false,
                version,
            }),
    {
        Head { tid, pid: 0, length: body_length + 1, uid, function, is_exception: false, version }
    }

    /// How many wire bytes precede the function byte: the six envelope
    /// bytes plus the unit id for `Tcp` frames, the unit id and the
    /// function byte for `Rtu` frames.  The function byte itself is
    /// counted with the body boundary on the stream transport, per the
    /// external protocol's length convention.
    pub fn encoded_length(&self) -> (r: u16)
        ensures
            self.version == Version::Tcp ==> r == 7,
            self.version == Version::Rtu ==> r == 2,
    {
        if self.version == Version::Tcp {
            7
        } else {
            2
        }
    }
}

/// The stateless frame-builder facade: it holds only the transport
/// version and mints fresh, well-formed messages per call.  Every head
/// it builds carries transaction and protocol identifier zero; a
/// dispatcher that must echo a request's transaction id replaces the
/// head afterwards through `Response::set_head`.
#[derive(Clone, Copy, Debug, PartialEq, Eq, Structural)]
pub struct Frame {
    pub version: Version,
}

impl Frame {
    /// A builder for stream-framed messages.
    pub fn tcp() -> (r: Frame)
        ensures
            r.version == Version::Tcp,
    {
        Frame { version: Version::Tcp }
    }

    /// A builder for serial, checksum-delimited messages.
    pub fn rtu() -> (r: Frame)
        ensures
            r.version == Version::Rtu,
    {
        Frame { version: Version::Rtu }
    }

    /// A well-formed head for a fixed four-byte body.
    fn four_byte_head(&self, uid: u8, function: Function) -> (r: Head)
        ensures
            r == (Head {
                tid: 0,
                pid: 0,
                length: 5,
                uid,
                function,
                is_exception: false,
                version: self.version,
            }),
    {
        Head::new(0, uid, function, 4, self.version)
    }

    pub fn read_coils_request(&self, uid: u8, first_address: u16, coils_number: u16) -> (r:
        Request)
        ensures
            r@ == RequestView::ReadCoils(
                self.four_byte_head_spec(uid, Function::ReadCoils),
                ReadCoilsRequest { first_address, coils_number },
            ),
            spec_request_wf(r@),
    {
        Request::ReadCoils(
            self.four_byte_head(uid, Function::ReadCoils),
            ReadCoilsRequest::new(first_address, coils_number),
        )
    }

    pub fn read_discrete_inputs_request(
        &self,
        uid: u8,
        first_address: u16,
        discrete_inputs_number: u16,
    ) -> (r: Request)
        ensures
            r@ == RequestView::ReadDiscreteInputs(
                self.four_byte_head_spec(uid, Function::ReadDiscreteInputs),
                ReadDiscreteInputsRequest { first_address, discrete_inputs_number },
            ),
            spec_request_wf(r@),
    {
        Request::ReadDiscreteInputs(
            self.four_byte_head(uid, Function::ReadDiscreteInputs),
            ReadDiscreteInputsRequest::new(first_address, discrete_inputs_number),
        )
    }

    pub fn read_multiple_holding_registers_request(
        &self,
        uid: u8,
        first_address: u16,
        registers_number: u16,
    ) -> (r: Request)
        ensures
            r@ == RequestView::ReadMultipleHoldingRegisters(
                self.four_byte_head_spec(uid, Function::ReadMultipleHoldingRegisters),
                ReadMultipleHoldingRegistersRequest { first_address, registers_number },
            ),
            spec_request_wf(r@),
    {
        Request::ReadMultipleHoldingRegisters(
            self.four_byte_head(uid, Function::ReadMultipleHoldingRegisters),
            ReadMultipleHoldingRegistersRequest::new(first_address, registers_number),
        )
    }

    pub fn read_input_registers_request(
        &self,
        uid: u8,
        first_address: u16,
        registers_number: u16,
    ) -> (r: Request)
        ensures
            r@ == RequestView::ReadInputRegisters(
                self.four_byte_head_spec(uid, Function::ReadInputRegisters),
                ReadInputRegistersRequest { first_address, registers_number },
            ),
            spec_request_wf(r@),
    {
        Request::ReadInputRegisters(
            self.four_byte_head(uid, Function::ReadInputRegisters),
            ReadInputRegistersRequest::new(first_address, registers_number),
        )
    }

    pub fn write_single_coil_request(&self, uid: u8, coil_address: u16, value: u16) -> (r: Request)
        ensures
            r@ == RequestView::WriteSingleCoil(
                self.four_byte_head_spec(uid, Function::WriteSingleCoil),
                WriteSingleCoilRequest { coil_address, value },
            ),
            spec_request_wf(r@),
    {
        Request::WriteSingleCoil(
            self.four_byte_head(uid, Function::WriteSingleCoil),
            WriteSingleCoilRequest::new(coil_address, value),
        )
    }

    pub fn write_single_holding_register_request(
        &self,
        uid: u8,
        register_address: u16,
        value: u16,
    ) -> (r: Request)
        ensures
            r@ == RequestView::WriteSingleHoldingRegister(
                self.four_byte_head_spec(uid, Function::WriteSingleHoldingRegister),
                WriteSingleHoldingRegisterRequest { register_address, value },
            ),
            spec_request_wf(r@),
    {
        Request::WriteSingleHoldingRegister(
            self.four_byte_head(uid, Function::WriteSingleHoldingRegister),
            WriteSingleHoldingRegisterRequest::new(register_address, value),
        )
    }

    pub fn write_multiple_coils_request(
        &self,
        uid: u8,
        first_address: u16,
        coils_number: u16,
        values: Vec<u8>,
    ) -> (r: Request)
        requires
            values@.len() <= 255,
        ensures
            r@ == RequestView::WriteMultipleCoils(
                Head {
                    tid: 0,
                    pid: 0,
                    length: (values@.len() + 6) as u16,
                    uid,
                    function: Function::WriteMultipleCoils,
                    is_exception: false,
                    version: self.version,
                },
                WriteMultipleBodyView {
                    first_address,
                    quantity: coils_number,
                    bytes_number: values@.len() as u8,
                    values: values@,
                },
            ),
            spec_request_wf(r@),
    {
        let body = WriteMultipleCoilsRequest::new(first_address, coils_number, values);
        let head = Head::new(0, uid, Function::WriteMultipleCoils, body.len(), self.version);
        Request::WriteMultipleCoils(head, body)
    }

    pub fn write_multiple_holding_registers_request(
        &self,
        uid: u8,
        first_address: u16,
        registers_number: u16,
        values: Vec<u8>,
    ) -> (r: Request)
        requires
            values@.len() <= 255,
        ensures
            r@ == RequestView::WriteMultipleHoldingRegisters(
                Head {
                    tid: 0,
                    pid: 0,
                    length: (values@.len() + 6) as u16,
                    uid,
                    function: Function::WriteMultipleHoldingRegisters,
                    is_exception: false,
                    version: self.version,
                },
                WriteMultipleBodyView {
                    first_address,
                    quantity: registers_number,
                    bytes_number: values@.len() as u8,
                    values: values@,
                },
            ),
            spec_request_wf(r@),
    {
        let body = WriteMultipleHoldingRegistersRequest::new(
            first_address,
            registers_number,
            values,
        );
        let head = Head::new(
            0,
            uid,
            Function::WriteMultipleHoldingRegisters,
            body.len(),
            self.version,
        );
        Request::WriteMultipleHoldingRegisters(head, body)
    }

    pub fn read_coils_response(&self, uid: u8, values: Vec<u8>) -> (r: Response)
        requires
            values@.len() <= 255,
        ensures
            r@ == ResponseView::ReadCoils(
                Head {
                    tid: 0,
                    pid: 0,
                    length: (values@.len() + 2) as u16,
                    uid,
                    function: Function::ReadCoils,
                    is_exception: false,
                    version: self.version,
                },
                ReadBodyView { bytes_number: values@.len() as u8, values: values@ },
            ),
            spec_response_wf(r@),
    {
        let body = ReadCoilsResponse::new(values);
        let head = Head::new(0, uid, Function::ReadCoils, body.len(), self.version);
        Response::ReadCoils(head, body)
    }

    pub fn read_discrete_inputs_response(&self, uid: u8, values: Vec<u8>) -> (r: Response)
        requires
            values@.len() <= 255,
        ensures
            r@ == ResponseView::ReadDiscreteInputs(
                Head {
                    tid: 0,
                    pid: 0,
                    length: (values@.len() + 2) as u16,
                    uid,
                    function: Function::ReadDiscreteInputs,
                    is_exception: false,
                    version: self.version,
                },
                ReadBodyView { bytes_number: values@.len() as u8, values: values@ },
            ),
            spec_response_wf(r@),
    {
        let body = ReadDiscreteInputsResponse::new(values);
        let head = Head::new(0, uid, Function::ReadDiscreteInputs, body.len(), self.version);
        Response::ReadDiscreteInputs(head, body)
    }

    pub fn read_multiple_holding_registers_response(&self, uid: u8, values: Vec<u8>) -> (r:
        Response)
        requires
            values@.len() <= 255,
        ensures
            r@ == ResponseView::ReadMultipleHoldingRegisters(
                Head {
                    tid: 0,
                    pid: 0,
                    length: (values@.len() + 2) as u16,
                    uid,
                    function: Function::ReadMultipleHoldingRegisters,
                    is_exception: false,
                    version: self.version,
                },
                ReadBodyView { bytes_number: values@.len() as u8, values: values@ },
            ),
            spec_response_wf(r@),
    {
        let body = ReadMultipleHoldingRegistersResponse::new(values);
        let head = Head::new(
            0,
            uid,
            Function::ReadMultipleHoldingRegisters,
            body.len(),
            self.version,
        );
        Response::ReadMultipleHoldingRegisters(head, body)
    }

    pub fn read_input_registers_response(&self, uid: u8, values: Vec<u8>) -> (r: Response)
        requires
            values@.len() <= 255,
        ensures
            r@ == ResponseView::ReadInputRegisters(
                Head {
                    tid: 0,
                    pid: 0,
                    length: (values@.len() + 2) as u16,
                    uid,
                    function: Function::ReadInputRegisters,
                    is_exception: false,
                    version: self.version,
                },
                ReadBodyView { bytes_number: values@.len() as u8, values: values@ },
            ),
            spec_response_wf(r@),
    {
        let body = ReadInputRegistersResponse::new(values);
        let head = Head::new(0, uid, Function::ReadInputRegisters, body.len(), self.version);
        Response::ReadInputRegisters(head, body)
    }

    pub fn write_single_coil_response(&self, uid: u8, coil_address: u16, value: u16) -> (r:
        Response)
        ensures
            r@ == ResponseView::WriteSingleCoil(
                self.four_byte_head_spec(uid, Function::WriteSingleCoil),
                WriteSingleCoilResponse { coil_address, value },
            ),
            spec_response_wf(r@),
    {
        Response::WriteSingleCoil(
            self.four_byte_head(uid, Function::WriteSingleCoil),
            WriteSingleCoilResponse::new(coil_address, value),
        )
    }

    pub fn write_single_holding_register_response(
        &self,
        uid: u8,
        register_address: u16,
        value: u16,
    ) -> (r: Response)
        ensures
            r@ == ResponseView::WriteSingleHoldingRegister(
                self.four_byte_head_spec(uid, Function::WriteSingleHoldingRegister),
                WriteSingleHoldingRegisterResponse { register_address, value },
            ),
            spec_response_wf(r@),
    {
        Response::WriteSingleHoldingRegister(
            self.four_byte_head(uid, Function::WriteSingleHoldingRegister),
            WriteSingleHoldingRegisterResponse::new(register_address, value),
        )
    }

    pub fn write_multiple_coils_response(&self, uid: u8, first_address: u16, coils_number: u16)
        -> (r: Response)
        ensures
            r@ == ResponseView::WriteMultipleCoils(
                self.four_byte_head_spec(uid, Function::WriteMultipleCoils),
                WriteMultipleCoilsResponse { first_address, coils_number },
            ),
            spec_response_wf(r@),
    {
        Response::WriteMultipleCoils(
            self.four_byte_head(uid, Function::WriteMultipleCoils),
            WriteMultipleCoilsResponse::new(first_address, coils_number),
        )
    }

    pub fn write_multiple_holding_registers_response(
        &self,
        uid: u8,
        first_address: u16,
        registers_number: u16,
    ) -> (r: Response)
        ensures
            r@ == ResponseView::WriteMultipleHoldingRegisters(
                self.four_byte_head_spec(uid, Function::WriteMultipleHoldingRegisters),
                WriteMultipleHoldingRegistersResponse { first_address, registers_number },
            ),
            spec_response_wf(r@),
    {
        Response::WriteMultipleHoldingRegisters(
            self.four_byte_head(uid, Function::WriteMultipleHoldingRegisters),
            WriteMultipleHoldingRegistersResponse::new(first_address, registers_number),
        )
    }

    /// An exception response: the head keeps the function the failure is
    /// about and carries the error flag; the body is the error code.
    pub fn exception_response(&self, uid: u8, function: Function, exception: Exception) -> (r:
        Response)
        ensures
            r@ == ResponseView::Exception(
                Head {
                    tid: 0,
                    pid: 0,
                    length: 2,
                    uid,
                    function,
                    is_exception: true,
                    version: self.version,
                },
                ExceptionResponse { exception },
            ),
            spec_response_wf(r@),
    {
        let head = Head {
            tid: 0,
            pid: 0,
            length: 2,
            uid,
            function,
            is_exception: true,
            version: self.version,
        };
        Response::Exception(head, ExceptionResponse::new(exception))
    }
}

impl Frame {
    /// The head every fixed four-byte-body builder mints.
    pub open spec fn four_byte_head_spec(&self, uid: u8, function: Function) -> Head {
        Head {
            tid: 0,
            pid: 0,
            length: 5,
            uid,
            function,
            is_exception: false,
            version: self.version,
        }
    }
}

} // verus!
