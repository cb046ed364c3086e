//! A verified frame model and streaming codec for a master/slave
//! register/coil access protocol carried over two transports: a
//! length-prefixed stream transport (`Version::Tcp`) and a serial
//! transport delimited by a trailing 16-bit checksum (`Version::Rtu`).

pub use frame::response::{
    ExceptionResponse, ReadCoilsResponse, ReadDiscreteInputsResponse, ReadInputRegistersResponse,
    ReadMultipleHoldingRegistersResponse, Response, WriteMultipleCoilsResponse,
    WriteMultipleHoldingRegistersResponse, WriteSingleCoilResponse,
    WriteSingleHoldingRegisterResponse,
};
pub use frame::request::{
    ReadCoilsRequest, ReadDiscreteInputsRequest, ReadInputRegistersRequest,
    ReadMultipleHoldingRegistersRequest, Request, WriteMultipleCoilsRequest,
    WriteMultipleHoldingRegistersRequest, WriteSingleCoilRequest,
    WriteSingleHoldingRegisterRequest,
};
pub use frame::Exception;
pub use frame::Frame;
pub use frame::Function;
pub use frame::Head;
pub use frame::Version;

pub mod codec;
pub mod frame;
pub mod util;
