//! Response messages: one body type per function code plus the exception
//! body, the `Response` sum over them, and their byte-level encoding.

use vstd::prelude::*;

use crate::frame::{
    spec_exception_code, spec_function_code, Exception, Function, Head, Version,
};
use crate::util::crc::spec_crc;
use crate::util::{bytes_equal, hi16, lo16};

verus! {

/// The mathematical image of a read-style body: a byte count followed by
/// that many raw value bytes.
pub struct ReadBodyView {
    pub bytes_number: u8,
    pub values: Seq<u8>,
}

/// A read-style body is well formed when its count field equals the
/// number of value bytes it carries.
pub open spec fn spec_read_body_wf(b: ReadBodyView) -> bool {
    b.bytes_number as int == b.values.len()
}

/// The wire bytes of a read-style body.
pub open spec fn spec_read_body_bytes(b: ReadBodyView) -> Seq<u8> {
    seq![b.bytes_number] + b.values
}

/// Function Code `0x01`
#[derive(Clone, Debug)]
pub struct ReadCoilsResponse {
    /// Number of bytes of coil input values to follow
    pub bytes_number: u8,
    /// Coil input values, bit-packed least significant bit first; unused
    /// high bits of the last byte are stuffed zeros.
    pub values: Vec<u8>,
}

impl View for ReadCoilsResponse {
    type V = ReadBodyView;

    open spec fn view(&self) -> ReadBodyView {
        ReadBodyView { bytes_number: self.bytes_number, values: self.values@ }
    }
}

impl PartialEq for ReadCoilsResponse {
    fn eq(&self, other: &Self) -> bool {
        self.bytes_number == other.bytes_number && bytes_equal(&self.values, &other.values)
    }
}

impl vstd::std_specs::cmp::PartialEqSpecImpl for ReadCoilsResponse {
    open spec fn obeys_eq_spec() -> bool {
        true
    }

    open spec fn eq_spec(&self, other: &Self) -> bool {
        self@ == other@
    }
}

impl ReadCoilsResponse {
    /// Builds the body; the count field is derived from the data.
    pub fn new(values: Vec<u8>) -> (r: ReadCoilsResponse)
        requires
            values@.len() <= 255,
        ensures
            r@ == (ReadBodyView { bytes_number: values@.len() as u8, values: values@ }),
    {
        let bytes_number = values.len() as u8;
        ReadCoilsResponse { bytes_number, values }
    }

    /// The number of wire bytes of this body: the count byte plus the
    /// value bytes.
    pub fn len(&self) -> (r: u16)
        requires
            self.values@.len() <= 0xFFFE,
        ensures
            r == 1 + self@.values.len(),
    {
        1 + self.values.len() as u16
    }

    pub fn get_bytes_number(&self) -> (r: &u8)
        ensures
            *r == self@.bytes_number,
    {
        &self.bytes_number
    }

    pub fn get_values(&self) -> (r: &Vec<u8>)
        ensures
            r@ == self@.values,
    {
        &self.values
    }
}

/// Function Code `0x02`
#[derive(Clone, Debug)]
pub struct ReadDiscreteInputsResponse {
    /// Number of bytes of discrete input values to follow
    pub bytes_number: u8,
    /// Discrete input values, bit-packed least significant bit first;
    /// unused high bits of the last byte are stuffed zeros.
    pub values: Vec<u8>,
}

impl View for ReadDiscreteInputsResponse {
    type V = ReadBodyView;

    open spec fn view(&self) -> ReadBodyView {
        ReadBodyView { bytes_number: self.bytes_number, values: self.values@ }
    }
}

impl PartialEq for ReadDiscreteInputsResponse {
    fn eq(&self, other: &Self) -> bool {
        self.bytes_number == other.bytes_number && bytes_equal(&self.values, &other.values)
    }
}

impl vstd::std_specs::cmp::PartialEqSpecImpl for ReadDiscreteInputsResponse {
    open spec fn obeys_eq_spec() -> bool {
        true
    }

    open spec fn eq_spec(&self, other: &Self) -> bool {
        self@ == other@
    }
}

impl ReadDiscreteInputsResponse {
    /// Builds the body; the count field is derived from the data.
    pub fn new(values: Vec<u8>) -> (r: ReadDiscreteInputsResponse)
        requires
            values@.len() <= 255,
        ensures
            r@ == (ReadBodyView { bytes_number: values@.len() as u8, values: values@ }),
    {
        let bytes_number = values.len() as u8;
        ReadDiscreteInputsResponse { bytes_number, values }
    }

    /// The number of wire bytes of this body.
    pub fn len(&self) -> (r: u16)
        requires
            self.values@.len() <= 0xFFFE,
        ensures
            r == 1 + self@.values.len(),
    {
        1 + self.values.len() as u16
    }

    pub fn get_bytes_number(&self) -> (r: &u8)
        ensures
            *r == self@.bytes_number,
    {
        &self.bytes_number
    }

    pub fn get_values(&self) -> (r: &Vec<u8>)
        ensures
            r@ == self@.values,
    {
        &self.values
    }
}

/// Function Code `0x03`
#[derive(Clone, Debug)]
pub struct ReadMultipleHoldingRegistersResponse {
    /// Number of bytes of register values to follow
    pub bytes_number: u8,
    /// Register values, two big-endian bytes per register
    pub values: Vec<u8>,
}

impl View for ReadMultipleHoldingRegistersResponse {
    type V = ReadBodyView;

    open spec fn view(&self) -> ReadBodyView {
        ReadBodyView { bytes_number: self.bytes_number, values: self.values@ }
    }
}

impl PartialEq for ReadMultipleHoldingRegistersResponse {
    fn eq(&self, other: &Self) -> bool {
        self.bytes_number == other.bytes_number && bytes_equal(&self.values, &other.values)
    }
}

impl vstd::std_specs::cmp::PartialEqSpecImpl for ReadMultipleHoldingRegistersResponse {
    open spec fn obeys_eq_spec() -> bool {
        true
    }

    open spec fn eq_spec(&self, other: &Self) -> bool {
        self@ == other@
    }
}

impl ReadMultipleHoldingRegistersResponse {
    /// Builds the body; the count field is derived from the data.
    pub fn new(values: Vec<u8>) -> (r: ReadMultipleHoldingRegistersResponse)
        requires
            values@.len() <= 255,
        ensures
            r@ == (ReadBodyView { bytes_number: values@.len() as u8, values: values@ }),
    {
        let bytes_number = values.len() as u8;
        ReadMultipleHoldingRegistersResponse { bytes_number, values }
    }

    /// The number of wire bytes of this body.
    pub fn len(&self) -> (r: u16)
        requires
            self.values@.len() <= 0xFFFE,
        ensures
            r == 1 + self@.values.len(),
    {
        1 + self.values.len() as u16
    }

    pub fn get_bytes_number(&self) -> (r: &u8)
        ensures
            *r == self@.bytes_number,
    {
        &self.bytes_number
    }

    pub fn get_values(&self) -> (r: &Vec<u8>)
        ensures
            r@ == self@.values,
    {
        &self.values
    }
}

/// Function Code `0x04`
#[derive(Clone, Debug)]
pub struct ReadInputRegistersResponse {
    /// Number of bytes of register values to follow
    pub bytes_number: u8,
    /// Register values, two big-endian bytes per register
    pub values: Vec<u8>,
}

impl View for ReadInputRegistersResponse {
    type V = ReadBodyView;

    open spec fn view(&self) -> ReadBodyView {
        ReadBodyView { bytes_number: self.bytes_number, values: self.values@ }
    }
}

impl PartialEq for ReadInputRegistersResponse {
    fn eq(&self, other: &Self) -> bool {
        self.bytes_number == other.bytes_number && bytes_equal(&self.values, &other.values)
    }
}

impl vstd::std_specs::cmp::PartialEqSpecImpl for ReadInputRegistersResponse {
    open spec fn obeys_eq_spec() -> bool {
        true
    }

    open spec fn eq_spec(&self, other: &Self) -> bool {
        self@ == other@
    }
}

impl ReadInputRegistersResponse {
    /// Builds the body; the count field is derived from the data.
    pub fn new(values: Vec<u8>) -> (r: ReadInputRegistersResponse)
        requires
            values@.len() <= 255,
        ensures
            r@ == (ReadBodyView { bytes_number: values@.len() as u8, values: values@ }),
    {
        let bytes_number = values.len() as u8;
        ReadInputRegistersResponse { bytes_number, values }
    }

    /// The number of wire bytes of this body.
    pub fn len(&self) -> (r: u16)
        requires
            self.values@.len() <= 0xFFFE,
        ensures
            r == 1 + self@.values.len(),
    {
        1 + self.values.len() as u16
    }

    pub fn get_bytes_number(&self) -> (r: &u8)
        ensures
            *r == self@.bytes_number,
    {
        &self.bytes_number
    }

    pub fn get_values(&self) -> (r: &Vec<u8>)
        ensures
            r@ == self@.values,
    {
        &self.values
    }
}

/// Function Code `0x05`
#[derive(Clone, Copy, Debug, PartialEq, Eq, Structural)]
pub struct WriteSingleCoilResponse {
    /// Address of coil
    pub coil_address: u16,
    /// Value written: 0x0000 for off, 0xFF00 for on
    pub value: u16,
}

impl WriteSingleCoilResponse {
    pub fn new(coil_address: u16, value: u16) -> (r: WriteSingleCoilResponse)
        ensures
            r == (WriteSingleCoilResponse { coil_address, value }),
    {
        WriteSingleCoilResponse { coil_address, value }
    }

    /// The number of wire bytes of this body.
    pub fn len(&self) -> (r: u16)
        ensures
            r == 4,
    {
        4
    }

    pub fn get_coil_address(&self) -> (r: &u16)
        ensures
            *r == self.coil_address,
    {
        &self.coil_address
    }

    pub fn get_value(&self) -> (r: &u16)
        ensures
            *r == self.value,
    {
        &self.value
    }
}

/// Function Code `0x06`
#[derive(Clone, Copy, Debug, PartialEq, Eq, Structural)]
pub struct WriteSingleHoldingRegisterResponse {
    /// Address of the written holding register
    pub register_address: u16,
    /// Value written
    pub value: u16,
}

impl WriteSingleHoldingRegisterResponse {
    pub fn new(register_address: u16, value: u16) -> (r: WriteSingleHoldingRegisterResponse)
        ensures
            r == (WriteSingleHoldingRegisterResponse { register_address, value }),
    {
        WriteSingleHoldingRegisterResponse { register_address, value }
    }

    /// The number of wire bytes of this body.
    pub fn len(&self) -> (r: u16)
        ensures
            r == 4,
    {
        4
    }

    pub fn get_register_address(&self) -> (r: &u16)
        ensures
            *r == self.register_address,
    {
        &self.register_address
    }

    pub fn get_value(&self) -> (r: &u16)
        ensures
            *r == self.value,
    {
        &self.value
    }
}

/// Function Code `0x0F`
#[derive(Clone, Copy, Debug, PartialEq, Eq, Structural)]
pub struct WriteMultipleCoilsResponse {
    /// Address of the first coil
    pub first_address: u16,
    /// Number of coils written
    pub coils_number: u16,
}

impl WriteMultipleCoilsResponse {
    pub fn new(first_address: u16, coils_number: u16) -> (r: WriteMultipleCoilsResponse)
        ensures
            r == (WriteMultipleCoilsResponse { first_address, coils_number }),
    {
        WriteMultipleCoilsResponse { first_address, coils_number }
    }

    /// The number of wire bytes of this body.
    pub fn len(&self) -> (r: u16)
        ensures
            r == 4,
    {
        4
    }

    pub fn get_first_address(&self) -> (r: &u16)
        ensures
            *r == self.first_address,
    {
        &self.first_address
    }

    pub fn get_coils_number(&self) -> (r: &u16)
        ensures
            *r == self.coils_number,
    {
        &self.coils_number
    }
}

/// Function Code `0x10`
#[derive(Clone, Copy, Debug, PartialEq, Eq, Structural)]
pub struct WriteMultipleHoldingRegistersResponse {
    /// Address of the first written holding register
    pub first_address: u16,
    /// Number of written holding registers
    pub registers_number: u16,
}

impl WriteMultipleHoldingRegistersResponse {
    pub fn new(first_address: u16, registers_number: u16) -> (r:
        WriteMultipleHoldingRegistersResponse)
        ensures
            r == (WriteMultipleHoldingRegistersResponse { first_address, registers_number }),
    {
        WriteMultipleHoldingRegistersResponse { first_address, registers_number }
    }

    /// The number of wire bytes of this body.
    pub fn len(&self) -> (r: u16)
        ensures
            r == 4,
    {
        4
    }

    pub fn get_first_address(&self) -> (r: &u16)
        ensures
            *r == self.first_address,
    {
        &self.first_address
    }

    pub fn get_registers_number(&self) -> (r: &u16)
        ensures
            *r == self.registers_number,
    {
        &self.registers_number
    }
}

/// The body of an exception response: the one-byte error code.
#[derive(Clone, Copy, Debug, PartialEq, Eq, Structural)]
pub struct ExceptionResponse {
    pub exception: Exception,
}

impl ExceptionResponse {
    pub fn new(exception: Exception) -> (r: ExceptionResponse)
        ensures
            r == (ExceptionResponse { exception }),
    {
        ExceptionResponse { exception }
    }

    /// The number of wire bytes of this body.
    pub fn len(&self) -> (r: u16)
        ensures
            r == 1,
    {
        1
    }

    pub fn get_exception(&self) -> (r: &Exception)
        ensures
            *r == self.exception,
    {
        &self.exception
    }
}

/// A response message: a head paired with the body of its kind.
#[derive(Clone, Debug)]
pub enum Response {
    ReadCoils(Head, ReadCoilsResponse),
    ReadDiscreteInputs(Head, ReadDiscreteInputsResponse),
    ReadMultipleHoldingRegisters(Head, ReadMultipleHoldingRegistersResponse),
    ReadInputRegisters(Head, ReadInputRegistersResponse),
    WriteSingleCoil(Head, WriteSingleCoilResponse),
    WriteSingleHoldingRegister(Head, WriteSingleHoldingRegisterResponse),
    WriteMultipleCoils(Head, WriteMultipleCoilsResponse),
    WriteMultipleHoldingRegisters(Head, WriteMultipleHoldingRegistersResponse),
    Exception(Head, ExceptionResponse),
}

/// The mathematical image of a response message.
pub enum ResponseView {
    ReadCoils(Head, ReadBodyView),
    ReadDiscreteInputs(Head, ReadBodyView),
    ReadMultipleHoldingRegisters(Head, ReadBodyView),
    ReadInputRegisters(Head, ReadBodyView),
    WriteSingleCoil(Head, WriteSingleCoilResponse),
    WriteSingleHoldingRegister(Head, WriteSingleHoldingRegisterResponse),
    WriteMultipleCoils(Head, WriteMultipleCoilsResponse),
    WriteMultipleHoldingRegisters(Head, WriteMultipleHoldingRegistersResponse),
    Exception(Head, ExceptionResponse),
}

impl View for Response {
    type V = ResponseView;

    open spec fn view(&self) -> ResponseView {
        match self {
            Response::ReadCoils(h, b) => ResponseView::ReadCoils(*h, b@),
            Response::ReadDiscreteInputs(h, b) => ResponseView::ReadDiscreteInputs(*h, b@),
            Response::ReadMultipleHoldingRegisters(h, b) => {
                ResponseView::ReadMultipleHoldingRegisters(*h, b@)
            },
            Response::ReadInputRegisters(h, b) => ResponseView::ReadInputRegisters(*h, b@),
            Response::WriteSingleCoil(h, b) => ResponseView::WriteSingleCoil(*h, *b),
            Response::WriteSingleHoldingRegister(h, b) => {
                ResponseView::WriteSingleHoldingRegister(*h, *b)
            },
            Response::WriteMultipleCoils(h, b) => ResponseView::WriteMultipleCoils(*h, *b),
            Response::WriteMultipleHoldingRegisters(h, b) => {
                ResponseView::WriteMultipleHoldingRegisters(*h, *b)
            },
            Response::Exception(h, b) => ResponseView::Exception(*h, *b),
        }
    }
}

/// The head carried by a response.
pub open spec fn spec_response_head(rv: ResponseView) -> Head {
    match rv {
        ResponseView::ReadCoils(h, _) => h,
        ResponseView::ReadDiscreteInputs(h, _) => h,
        ResponseView::ReadMultipleHoldingRegisters(h, _) => h,
        ResponseView::ReadInputRegisters(h, _) => h,
        ResponseView::WriteSingleCoil(h, _) => h,
        ResponseView::WriteSingleHoldingRegister(h, _) => h,
        ResponseView::WriteMultipleCoils(h, _) => h,
        ResponseView::WriteMultipleHoldingRegisters(h, _) => h,
        ResponseView::Exception(h, _) => h,
    }
}

/// The same response with its head replaced.
pub open spec fn spec_response_with_head(rv: ResponseView, h: Head) -> ResponseView {
    match rv {
        ResponseView::ReadCoils(_, b) => ResponseView::ReadCoils(h, b),
        ResponseView::ReadDiscreteInputs(_, b) => ResponseView::ReadDiscreteInputs(h, b),
        ResponseView::ReadMultipleHoldingRegisters(_, b) => {
            ResponseView::ReadMultipleHoldingRegisters(h, b)
        },
        ResponseView::ReadInputRegisters(_, b) => ResponseView::ReadInputRegisters(h, b),
        ResponseView::WriteSingleCoil(_, b) => ResponseView::WriteSingleCoil(h, b),
        ResponseView::WriteSingleHoldingRegister(_, b) => {
            ResponseView::WriteSingleHoldingRegister(h, b)
        },
        ResponseView::WriteMultipleCoils(_, b) => ResponseView::WriteMultipleCoils(h, b),
        ResponseView::WriteMultipleHoldingRegisters(_, b) => {
            ResponseView::WriteMultipleHoldingRegisters(h, b)
        },
        ResponseView::Exception(_, b) => ResponseView::Exception(h, b),
    }
}

impl PartialEq for Response {
    fn eq(&self, other: &Self) -> bool {
        match (self, other) {
            (Response::ReadCoils(h1, b1), Response::ReadCoils(h2, b2)) => h1 == h2 && b1 == b2,
            (Response::ReadDiscreteInputs(h1, b1), Response::ReadDiscreteInputs(h2, b2)) => {
                h1 == h2 && b1 == b2
            },
            (
                Response::ReadMultipleHoldingRegisters(h1, b1),
                Response::ReadMultipleHoldingRegisters(h2, b2),
            ) => h1 == h2 && b1 == b2,
            (Response::ReadInputRegisters(h1, b1), Response::ReadInputRegisters(h2, b2)) => {
                h1 == h2 && b1 == b2
            },
            (Response::WriteSingleCoil(h1, b1), Response::WriteSingleCoil(h2, b2)) => {
                h1 == h2 && b1 == b2
            },
            (
                Response::WriteSingleHoldingRegister(h1, b1),
                Response::WriteSingleHoldingRegister(h2, b2),
            ) => h1 == h2 && b1 == b2,
            (Response::WriteMultipleCoils(h1, b1), Response::WriteMultipleCoils(h2, b2)) => {
                h1 == h2 && b1 == b2
            },
            (
                Response::WriteMultipleHoldingRegisters(h1, b1),
                Response::WriteMultipleHoldingRegisters(h2, b2),
            ) => h1 == h2 && b1 == b2,
            (Response::Exception(h1, b1), Response::Exception(h2, b2)) => h1 == h2 && b1 == b2,
            _ => false,
        }
    }
}

impl vstd::std_specs::cmp::PartialEqSpecImpl for Response {
    open spec fn obeys_eq_spec() -> bool {
        true
    }

    open spec fn eq_spec(&self, other: &Self) -> bool {
        self@ == other@
    }
}

impl Response {
    /// Replaces the head of the message, leaving the body untouched.
    ///
    /// A dispatcher uses this to retarget a templated response to the
    /// transaction id and unit of a specific request.
    pub fn set_head(&mut self, new_head: Head)
        ensures
            final(self)@ == spec_response_with_head(old(self)@, new_head),
    {
        match self {
            Response::ReadCoils(head, _) => *head = new_head,
            Response::ReadDiscreteInputs(head, _) => *head = new_head,
            Response::ReadMultipleHoldingRegisters(head, _) => *head = new_head,
            Response::ReadInputRegisters(head, _) => *head = new_head,
            Response::WriteSingleCoil(head, _) => *head = new_head,
            Response::WriteSingleHoldingRegister(head, _) => *head = new_head,
            Response::WriteMultipleCoils(head, _) => *head = new_head,
            Response::WriteMultipleHoldingRegisters(head, _) => *head = new_head,
            Response::Exception(head, _) => *head = new_head,
        }
    }
}

/// The function byte as it goes on the wire: the function's code, with
/// `0x80` added when the head marks an exception.
pub open spec fn spec_wire_function(h: Head) -> u8 {
    if h.is_exception {
        (spec_function_code(h.function) + 0x80) as u8
    } else {
        spec_function_code(h.function)
    }
}

/// The wire bytes of a head: `[tid][pid][length]` big-endian for `Tcp`
/// frames, then the unit id and the function byte (with the `0x80` flag
/// folded in when the head marks an exception).
pub open spec fn spec_head_bytes(h: Head) -> Seq<u8> {
    let wire_fn: u8 = spec_wire_function(h);
    if h.version == Version::Tcp {
        seq![
            hi16(h.tid),
            lo16(h.tid),
            hi16(h.pid),
            lo16(h.pid),
            hi16(h.length),
            lo16(h.length),
            h.uid,
            wire_fn,
        ]
    } else {
        seq![h.uid, wire_fn]
    }
}

/// The wire bytes of a response body alone.
pub open spec fn spec_response_body_bytes(rv: ResponseView) -> Seq<u8> {
    match rv {
        ResponseView::ReadCoils(_, b) => spec_read_body_bytes(b),
        ResponseView::ReadDiscreteInputs(_, b) => spec_read_body_bytes(b),
        ResponseView::ReadMultipleHoldingRegisters(_, b) => spec_read_body_bytes(b),
        ResponseView::ReadInputRegisters(_, b) => spec_read_body_bytes(b),
        ResponseView::WriteSingleCoil(_, b) => {
            seq![hi16(b.coil_address), lo16(b.coil_address), hi16(b.value), lo16(b.value)]
        },
        ResponseView::WriteSingleHoldingRegister(_, b) => {
            seq![hi16(b.register_address), lo16(b.register_address), hi16(b.value), lo16(b.value)]
        },
        ResponseView::WriteMultipleCoils(_, b) => {
            seq![
                hi16(b.first_address),
                lo16(b.first_address),
                hi16(b.coils_number),
                lo16(b.coils_number),
            ]
        },
        ResponseView::WriteMultipleHoldingRegisters(_, b) => {
            seq![
                hi16(b.first_address),
                lo16(b.first_address),
                hi16(b.registers_number),
                lo16(b.registers_number),
            ]
        },
        ResponseView::Exception(_, b) => seq![spec_exception_code(b.exception)],
    }
}

/// Head plus body: the whole frame but for the serial checksum.
pub open spec fn spec_response_pdu(rv: ResponseView) -> Seq<u8> {
    spec_head_bytes(spec_response_head(rv)) + spec_response_body_bytes(rv)
}

/// The full wire frame of a response: for `Rtu` frames the checksum of
/// everything before it is appended low byte first.
pub open spec fn spec_response_bytes(rv: ResponseView) -> Seq<u8> {
    let pdu = spec_response_pdu(rv);
    if spec_response_head(rv).version == Version::Rtu {
        pdu + seq![lo16(spec_crc(pdu)), hi16(spec_crc(pdu))]
    } else {
        pdu
    }
}

/// Structural consistency of a response: the head's function matches the
/// variant, the exception flag is set exactly on the exception variant,
/// the head's declared length is the function byte plus the body bytes,
/// and read-style bodies carry the count their count field declares.
pub open spec fn spec_response_wf(rv: ResponseView) -> bool {
    let h = spec_response_head(rv);
    &&& h.length as int == 1 + spec_response_body_bytes(rv).len()
    &&& match rv {
        ResponseView::ReadCoils(h, b) => {
            h.function == Function::ReadCoils && !h.is_exception && spec_read_body_wf(b)
        },
        ResponseView::ReadDiscreteInputs(h, b) => {
            h.function == Function::ReadDiscreteInputs && !h.is_exception && spec_read_body_wf(b)
        },
        ResponseView::ReadMultipleHoldingRegisters(h, b) => {
            h.function == Function::ReadMultipleHoldingRegisters && !h.is_exception
                && spec_read_body_wf(b)
        },
        ResponseView::ReadInputRegisters(h, b) => {
            h.function == Function::ReadInputRegisters && !h.is_exception && spec_read_body_wf(b)
        },
        ResponseView::WriteSingleCoil(h, _) => {
            h.function == Function::WriteSingleCoil && !h.is_exception
        },
        ResponseView::WriteSingleHoldingRegister(h, _) => {
            h.function == Function::WriteSingleHoldingRegister && !h.is_exception
        },
        ResponseView::WriteMultipleCoils(h, _) => {
            h.function == Function::WriteMultipleCoils && !h.is_exception
        },
        ResponseView::WriteMultipleHoldingRegisters(h, _) => {
            h.function == Function::WriteMultipleHoldingRegisters && !h.is_exception
        },
        ResponseView::Exception(h, _) => h.is_exception,
    }
}

} // verus!
