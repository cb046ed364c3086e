//! Request messages: one body type per function code, the `Request` sum
//! over them, and their byte-level encoding.

use vstd::prelude::*;

use crate::frame::{Function, Head, Version};
use crate::frame::response::spec_head_bytes;
use crate::util::{bytes_equal, hi16, lo16};
use crate::util::crc::spec_crc;

verus! {

/// The mathematical image of a multiple-write body: an address range
/// followed by a byte count and that many raw value bytes.
pub struct WriteMultipleBodyView {
    pub first_address: u16,
    pub quantity: u16,
    pub bytes_number: u8,
    pub values: Seq<u8>,
}

/// A multiple-write body is well formed when its count field equals the
/// number of value bytes it carries.
pub open spec fn spec_write_multiple_body_wf(b: WriteMultipleBodyView) -> bool {
    b.bytes_number as int == b.values.len()
}

/// The wire bytes of a multiple-write body.
pub open spec fn spec_write_multiple_body_bytes(b: WriteMultipleBodyView) -> Seq<u8> {
    seq![
        hi16(b.first_address),
        lo16(b.first_address),
        hi16(b.quantity),
        lo16(b.quantity),
        b.bytes_number,
    ] + b.values
}

/// Function Code `0x01`
#[derive(Clone, Copy, Debug, PartialEq, Eq, Structural)]
pub struct ReadCoilsRequest {
    /// Address of the first coil to read
    pub first_address: u16,
    /// Number of coils to read
    pub coils_number: u16,
}

impl ReadCoilsRequest {
    pub fn new(first_address: u16, coils_number: u16) -> (r: ReadCoilsRequest)
        ensures
            r == (ReadCoilsRequest { first_address, coils_number }),
    {
        ReadCoilsRequest { first_address, coils_number }
    }

    /// The number of wire bytes of this body.
    pub fn len(&self) -> (r: u16)
        ensures
            r == 4,
    {
        4
    }
}

/// Function Code `0x02`
#[derive(Clone, Copy, Debug, PartialEq, Eq, Structural)]
pub struct ReadDiscreteInputsRequest {
    /// Address of the first discrete input to read
    pub first_address: u16,
    /// Number of discrete inputs to read
    pub discrete_inputs_number: u16,
}

impl ReadDiscreteInputsRequest {
    pub fn new(first_address: u16, discrete_inputs_number: u16) -> (r: ReadDiscreteInputsRequest)
        ensures
            r == (ReadDiscreteInputsRequest { first_address, discrete_inputs_number }),
    {
        ReadDiscreteInputsRequest { first_address, discrete_inputs_number }
    }

    /// The number of wire bytes of this body.
    pub fn len(&self) -> (r: u16)
        ensures
            r == 4,
    {
        4
    }
}

/// Function Code `0x03`
#[derive(Clone, Copy, Debug, PartialEq, Eq, Structural)]
pub struct ReadMultipleHoldingRegistersRequest {
    /// Address of the first holding register to read
    pub first_address: u16,
    /// Number of holding registers to read
    pub registers_number: u16,
}

impl ReadMultipleHoldingRegistersRequest {
    pub fn new(first_address: u16, registers_number: u16) -> (r:
        ReadMultipleHoldingRegistersRequest)
        ensures
            r == (ReadMultipleHoldingRegistersRequest { first_address, registers_number }),
    {
        ReadMultipleHoldingRegistersRequest { first_address, registers_number }
    }

    /// The number of wire bytes of this body.
    pub fn len(&self) -> (r: u16)
        ensures
            r == 4,
    {
        4
    }
}

/// Function Code `0x04`
#[derive(Clone, Copy, Debug, PartialEq, Eq, Structural)]
pub struct ReadInputRegistersRequest {
    /// Address of the first input register to read
    pub first_address: u16,
    /// Number of input registers to read
    pub registers_number: u16,
}

impl ReadInputRegistersRequest {
    pub fn new(first_address: u16, registers_number: u16) -> (r: ReadInputRegistersRequest)
        ensures
            r == (ReadInputRegistersRequest { first_address, registers_number }),
    {
        ReadInputRegistersRequest { first_address, registers_number }
    }

    /// The number of wire bytes of this body.
    pub fn len(&self) -> (r: u16)
        ensures
            r == 4,
    {
        4
    }
}

/// Function Code `0x05`
#[derive(Clone, Copy, Debug, PartialEq, Eq, Structural)]
pub struct WriteSingleCoilRequest {
    /// Address of the coil to write
    pub coil_address: u16,
    /// Value to write: 0x0000 for off, 0xFF00 for on
    pub value: u16,
}

impl WriteSingleCoilRequest {
    pub fn new(coil_address: u16, value: u16) -> (r: WriteSingleCoilRequest)
        ensures
            r == (WriteSingleCoilRequest { coil_address, value }),
    {
        WriteSingleCoilRequest { coil_address, value }
    }

    /// The number of wire bytes of this body.
    pub fn len(&self) -> (r: u16)
        ensures
            r == 4,
    {
        4
    }
}

/// Function Code `0x06`
#[derive(Clone, Copy, Debug, PartialEq, Eq, Structural)]
pub struct WriteSingleHoldingRegisterRequest {
    /// Address of the holding register to write
    pub register_address: u16,
    /// Value to write
    pub value: u16,
}

impl WriteSingleHoldingRegisterRequest {
    pub fn new(register_address: u16, value: u16) -> (r: WriteSingleHoldingRegisterRequest)
        ensures
            r == (WriteSingleHoldingRegisterRequest { register_address, value }),
    {
        WriteSingleHoldingRegisterRequest { register_address, value }
    }

    /// The number of wire bytes of this body.
    pub fn len(&self) -> (r: u16)
        ensures
            r == 4,
    {
        4
    }
}

/// Function Code `0x0F`
#[derive(Clone, Debug)]
pub struct WriteMultipleCoilsRequest {
    /// Address of the first coil to write
    pub first_address: u16,
    /// Number of coils to write
    pub coils_number: u16,
    /// Number of value bytes to follow
    pub bytes_number: u8,
    /// Coil values, bit-packed least significant bit first
    pub values: Vec<u8>,
}

impl View for WriteMultipleCoilsRequest {
    type V = WriteMultipleBodyView;

    open spec fn view(&self) -> WriteMultipleBodyView {
        WriteMultipleBodyView {
            first_address: self.first_address,
            quantity: self.coils_number,
            bytes_number: self.bytes_number,
            values: self.values@,
        }
    }
}

impl PartialEq for WriteMultipleCoilsRequest {
    fn eq(&self, other: &Self) -> bool {
        self.first_address == other.first_address && self.coils_number == other.coils_number
            && self.bytes_number == other.bytes_number && bytes_equal(&self.values, &other.values)
    }
}

impl vstd::std_specs::cmp::PartialEqSpecImpl for WriteMultipleCoilsRequest {
    open spec fn obeys_eq_spec() -> bool {
        true
    }

    open spec fn eq_spec(&self, other: &Self) -> bool {
        self@ == other@
    }
}

impl WriteMultipleCoilsRequest {
    /// Builds the body; the count field is derived from the data.
    pub fn new(first_address: u16, coils_number: u16, values: Vec<u8>) -> (r:
        WriteMultipleCoilsRequest)
        requires
            values@.len() <= 255,
        ensures
            r@ == (WriteMultipleBodyView {
                first_address,
                quantity: coils_number,
                bytes_number: values@.len() as u8,
                values: values@,
            }),
    {
        let bytes_number = values.len() as u8;
        WriteMultipleCoilsRequest { first_address, coils_number, bytes_number, values }
    }

    /// The number of wire bytes of this body: address, quantity, count
    /// byte and the value bytes.
    pub fn len(&self) -> (r: u16)
        requires
            self.values@.len() <= 0xFFFA,
        ensures
            r == 5 + self@.values.len(),
    {
        5 + self.values.len() as u16
    }
}

/// Function Code `0x10`
#[derive(Clone, Debug)]
pub struct WriteMultipleHoldingRegistersRequest {
    /// Address of the first holding register to write
    pub first_address: u16,
    /// Number of holding registers to write
    pub registers_number: u16,
    /// Number of value bytes to follow
    pub bytes_number: u8,
    /// Register values, two big-endian bytes per register
    pub values: Vec<u8>,
}

impl View for WriteMultipleHoldingRegistersRequest {
    type V = WriteMultipleBodyView;

    open spec fn view(&self) -> WriteMultipleBodyView {
        WriteMultipleBodyView {
            first_address: self.first_address,
            quantity: self.registers_number,
            bytes_number: self.bytes_number,
            values: self.values@,
        }
    }
}

impl PartialEq for WriteMultipleHoldingRegistersRequest {
    fn eq(&self, other: &Self) -> bool {
        self.first_address == other.first_address && self.registers_number
            == other.registers_number && self.bytes_number == other.bytes_number && bytes_equal(
            &self.values,
            &other.values,
        )
    }
}

impl vstd::std_specs::cmp::PartialEqSpecImpl for WriteMultipleHoldingRegistersRequest {
    open spec fn obeys_eq_spec() -> bool {
        true
    }

    open spec fn eq_spec(&self, other: &Self) -> bool {
        self@ == other@
    }
}

impl WriteMultipleHoldingRegistersRequest {
    /// Builds the body; the count field is derived from the data.
    pub fn new(first_address: u16, registers_number: u16, values: Vec<u8>) -> (r:
        WriteMultipleHoldingRegistersRequest)
        requires
            values@.len() <= 255,
        ensures
            r@ == (WriteMultipleBodyView {
                first_address,
                quantity: registers_number,
                bytes_number: values@.len() as u8,
                values: values@,
            }),
    {
        let bytes_number = values.len() as u8;
        WriteMultipleHoldingRegistersRequest { first_address, registers_number, bytes_number, values }
    }

    /// The number of wire bytes of this body: address, quantity, count
    /// byte and the value bytes.
    pub fn len(&self) -> (r: u16)
        requires
            self.values@.len() <= 0xFFFA,
        ensures
            r == 5 + self@.values.len(),
    {
        5 + self.values.len() as u16
    }
}

/// A request message: a head paired with the body of its kind.
#[derive(Clone, Debug)]
pub enum Request {
    ReadCoils(Head, ReadCoilsRequest),
    ReadDiscreteInputs(Head, ReadDiscreteInputsRequest),
    ReadMultipleHoldingRegisters(Head, ReadMultipleHoldingRegistersRequest),
    ReadInputRegisters(Head, ReadInputRegistersRequest),
    WriteSingleCoil(Head, WriteSingleCoilRequest),
    WriteSingleHoldingRegister(Head, WriteSingleHoldingRegisterRequest),
    WriteMultipleCoils(Head, WriteMultipleCoilsRequest),
    WriteMultipleHoldingRegisters(Head, WriteMultipleHoldingRegistersRequest),
}

/// The mathematical image of a request message.
pub enum RequestView {
    ReadCoils(Head, ReadCoilsRequest),
    ReadDiscreteInputs(Head, ReadDiscreteInputsRequest),
    ReadMultipleHoldingRegisters(Head, ReadMultipleHoldingRegistersRequest),
    ReadInputRegisters(Head, ReadInputRegistersRequest),
    WriteSingleCoil(Head, WriteSingleCoilRequest),
    WriteSingleHoldingRegister(Head, WriteSingleHoldingRegisterRequest),
    WriteMultipleCoils(Head, WriteMultipleBodyView),
    WriteMultipleHoldingRegisters(Head, WriteMultipleBodyView),
}

impl View for Request {
    type V = RequestView;

    open spec fn view(&self) -> RequestView {
        match self {
            Request::ReadCoils(h, b) => RequestView::ReadCoils(*h, *b),
            Request::ReadDiscreteInputs(h, b) => RequestView::ReadDiscreteInputs(*h, *b),
            Request::ReadMultipleHoldingRegisters(h, b) => {
                RequestView::ReadMultipleHoldingRegisters(*h, *b)
            },
            Request::ReadInputRegisters(h, b) => RequestView::ReadInputRegisters(*h, *b),
            Request::WriteSingleCoil(h, b) => RequestView::WriteSingleCoil(*h, *b),
            Request::WriteSingleHoldingRegister(h, b) => {
                RequestView::WriteSingleHoldingRegister(*h, *b)
            },
            Request::WriteMultipleCoils(h, b) => RequestView::WriteMultipleCoils(*h, b@),
            Request::WriteMultipleHoldingRegisters(h, b) => {
                RequestView::WriteMultipleHoldingRegisters(*h, b@)
            },
        }
    }
}

impl PartialEq for Request {
    fn eq(&self, other: &Self) -> bool {
        match (self, other) {
            (Request::ReadCoils(h1, b1), Request::ReadCoils(h2, b2)) => h1 == h2 && b1 == b2,
            (Request::ReadDiscreteInputs(h1, b1), Request::ReadDiscreteInputs(h2, b2)) => {
                h1 == h2 && b1 == b2
            },
            (
                Request::ReadMultipleHoldingRegisters(h1, b1),
                Request::ReadMultipleHoldingRegisters(h2, b2),
            ) => h1 == h2 && b1 == b2,
            (Request::ReadInputRegisters(h1, b1), Request::ReadInputRegisters(h2, b2)) => {
                h1 == h2 && b1 == b2
            },
            (Request::WriteSingleCoil(h1, b1), Request::WriteSingleCoil(h2, b2)) => {
                h1 == h2 && b1 == b2
            },
            (
                Request::WriteSingleHoldingRegister(h1, b1),
                Request::WriteSingleHoldingRegister(h2, b2),
            ) => h1 == h2 && b1 == b2,
            (Request::WriteMultipleCoils(h1, b1), Request::WriteMultipleCoils(h2, b2)) => {
                h1 == h2 && b1 == b2
            },
            (
                Request::WriteMultipleHoldingRegisters(h1, b1),
                Request::WriteMultipleHoldingRegisters(h2, b2),
            ) => h1 == h2 && b1 == b2,
            _ => false,
        }
    }
}

impl vstd::std_specs::cmp::PartialEqSpecImpl for Request {
    open spec fn obeys_eq_spec() -> bool {
        true
    }

    open spec fn eq_spec(&self, other: &Self) -> bool {
        self@ == other@
    }
}

/// The head carried by a request.
pub open spec fn spec_request_head(rv: RequestView) -> Head {
    match rv {
        RequestView::ReadCoils(h, _) => h,
        RequestView::ReadDiscreteInputs(h, _) => h,
        RequestView::ReadMultipleHoldingRegisters(h, _) => h,
        RequestView::ReadInputRegisters(h, _) => h,
        RequestView::WriteSingleCoil(h, _) => h,
        RequestView::WriteSingleHoldingRegister(h, _) => h,
        RequestView::WriteMultipleCoils(h, _) => h,
        RequestView::WriteMultipleHoldingRegisters(h, _) => h,
    }
}

/// The wire bytes of a request body alone.
pub open spec fn spec_request_body_bytes(rv: RequestView) -> Seq<u8> {
    match rv {
        RequestView::ReadCoils(_, b) => {
            seq![
                hi16(b.first_address),
                lo16(b.first_address),
                hi16(b.coils_number),
                lo16(b.coils_number),
            ]
        },
        RequestView::ReadDiscreteInputs(_, b) => {
            seq![
                hi16(b.first_address),
                lo16(b.first_address),
                hi16(b.discrete_inputs_number),
                lo16(b.discrete_inputs_number),
            ]
        },
        RequestView::ReadMultipleHoldingRegisters(_, b) => {
            seq![
                hi16(b.first_address),
                lo16(b.first_address),
                hi16(b.registers_number),
                lo16(b.registers_number),
            ]
        },
        RequestView::ReadInputRegisters(_, b) => {
            seq![
                hi16(b.first_address),
                lo16(b.first_address),
                hi16(b.registers_number),
                lo16(b.registers_number),
            ]
        },
        RequestView::WriteSingleCoil(_, b) => {
            seq![hi16(b.coil_address), lo16(b.coil_address), hi16(b.value), lo16(b.value)]
        },
        RequestView::WriteSingleHoldingRegister(_, b) => {
            seq![hi16(b.register_address), lo16(b.register_address), hi16(b.value), lo16(b.value)]
        },
        RequestView::WriteMultipleCoils(_, b) => spec_write_multiple_body_bytes(b),
        RequestView::WriteMultipleHoldingRegisters(_, b) => spec_write_multiple_body_bytes(b),
    }
}

/// Head plus body: the whole frame but for the serial checksum.
pub open spec fn spec_request_pdu(rv: RequestView) -> Seq<u8> {
    spec_head_bytes(spec_request_head(rv)) + spec_request_body_bytes(rv)
}

/// The full wire frame of a request: for `Rtu` frames the checksum of
/// everything before it is appended low byte first.
pub open spec fn spec_request_bytes(rv: RequestView) -> Seq<u8> {
    let pdu = spec_request_pdu(rv);
    if spec_request_head(rv).version == Version::Rtu {
        pdu + seq![lo16(spec_crc(pdu)), hi16(spec_crc(pdu))]
    } else {
        pdu
    }
}

/// Structural consistency of a request: the head's function matches the
/// variant, a request never carries the exception flag, the head's
/// declared length is the function byte plus the body bytes, and
/// multiple-write bodies carry the count their count field declares.
pub open spec fn spec_request_wf(rv: RequestView) -> bool {
    let h = spec_request_head(rv);
    &&& h.length as int == 1 + spec_request_body_bytes(rv).len()
    &&& !h.is_exception
    &&& match rv {
        RequestView::ReadCoils(h, _) => h.function == Function::ReadCoils,
        RequestView::ReadDiscreteInputs(h, _) => h.function == Function::ReadDiscreteInputs,
        RequestView::ReadMultipleHoldingRegisters(h, _) => {
            h.function == Function::ReadMultipleHoldingRegisters
        },
        RequestView::ReadInputRegisters(h, _) => h.function == Function::ReadInputRegisters,
        RequestView::WriteSingleCoil(h, _) => h.function == Function::WriteSingleCoil,
        RequestView::WriteSingleHoldingRegister(h, _) => {
            h.function == Function::WriteSingleHoldingRegister
        },
        RequestView::WriteMultipleCoils(h, b) => {
            h.function == Function::WriteMultipleCoils && spec_write_multiple_body_wf(b)
        },
        RequestView::WriteMultipleHoldingRegisters(h, b) => {
            h.function == Function::WriteMultipleHoldingRegisters && spec_write_multiple_body_wf(b)
        },
    }
}

} // verus!
