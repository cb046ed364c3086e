use bytes::BytesMut;

use easy_modbus::codec::rtu::{RtuClientCodec, RtuServerCodec};
use easy_modbus::codec::tcp::{TcpClientCodec, TcpServerCodec};
use easy_modbus::codec::{parse_request, parse_response, serialize_request, serialize_response,
    ModbusError};
use easy_modbus::{Exception, Frame, Function, Head, Request, Response, Version};
use easy_modbus::{ReadCoilsResponse, WriteSingleCoilRequest};

#[test]
fn test_read_coils_response_tcp_vector() {
    let frame = Frame::tcp();
    let mut response = frame.read_coils_response(0x01, vec![0xCD, 0x6B]);
    match &response {
        Response::ReadCoils(_, body) => {
            assert_eq!(*body.get_bytes_number(), 2);
            assert_eq!(body.len(), 3);
        }
        _ => panic!("wrong variant"),
    }
    response.set_head(Head::new(0x0001, 0x01, Function::ReadCoils, 3, Version::Tcp));
    let bytes = serialize_response(&response);
    assert_eq!(
        bytes,
        vec![0x00, 0x01, 0x00, 0x00, 0x00, 0x04, 0x01, 0x01, 0x02, 0xCD, 0x6B]
    );
}

#[test]
fn test_write_single_coil_request_tcp_vector() {
    let head = Head::new(0x0001, 0x01, Function::WriteSingleCoil, 4, Version::Tcp);
    let request = Request::WriteSingleCoil(head, WriteSingleCoilRequest::new(0x0000, 0xFF00));
    let bytes = serialize_request(&request);
    assert_eq!(
        bytes,
        vec![0x00, 0x01, 0x00, 0x00, 0x00, 0x05, 0x01, 0x05, 0x00, 0x00, 0xFF, 0x00]
    );
}

#[test]
fn test_exception_response_tcp_vector() {
    let frame = Frame::tcp();
    let response = frame.exception_response(0x01, Function::ReadCoils, Exception::IllegalDataAddress);
    let bytes = serialize_response(&response);
    assert_eq!(bytes.len(), 9);
    assert_eq!(&bytes[4..], &[0x00, 0x02, 0x01, 0x81, 0x02]);
}

#[test]
fn test_rtu_request_vectors() {
    let frame = Frame::rtu();
    let request = frame.read_multiple_holding_registers_request(0x01, 0x0000, 0x0002);
    let bytes = serialize_request(&request);
    assert_eq!(bytes, vec![0x01, 0x03, 0x00, 0x00, 0x00, 0x02, 0xC4, 0x0B]);

    let request = frame.write_single_coil_request(0x01, 0x0000, 0xFF00);
    let bytes = serialize_request(&request);
    assert_eq!(bytes, vec![0x01, 0x05, 0x00, 0x00, 0xFF, 0x00, 0x8C, 0x3A]);
}

#[test]
fn test_response_serialize_parse_round_trip() {
    for version in [Version::Tcp, Version::Rtu] {
        let frame = if version == Version::Tcp { Frame::tcp() } else { Frame::rtu() };
        let responses = vec![
            frame.read_coils_response(0x11, vec![0xCD, 0x6B, 0x05]),
            frame.read_discrete_inputs_response(0x11, vec![0xAC, 0xDB, 0x35]),
            frame.read_multiple_holding_registers_response(0x11, vec![0xAE, 0x41, 0x56, 0x52]),
            frame.read_input_registers_response(0x11, vec![0x00, 0x0A]),
            frame.write_single_coil_response(0x11, 0x00AC, 0xFF00),
            frame.write_single_holding_register_response(0x11, 0x0001, 0x0003),
            frame.write_multiple_coils_response(0x11, 0x0013, 0x000A),
            frame.write_multiple_holding_registers_response(0x11, 0x0001, 0x0002),
            frame.exception_response(0x11, Function::ReadCoils, Exception::SlaveDeviceBusy),
        ];
        for response in responses {
            let bytes = serialize_response(&response);
            let parsed = parse_response(version, &bytes).unwrap();
            assert_eq!(parsed, response);
        }
    }
}

#[test]
fn test_request_serialize_parse_round_trip() {
    for version in [Version::Tcp, Version::Rtu] {
        let frame = if version == Version::Tcp { Frame::tcp() } else { Frame::rtu() };
        let requests = vec![
            frame.read_coils_request(0x11, 0x0013, 0x0025),
            frame.read_discrete_inputs_request(0x11, 0x00C4, 0x0016),
            frame.read_multiple_holding_registers_request(0x11, 0x006B, 0x0003),
            frame.read_input_registers_request(0x11, 0x0008, 0x0001),
            frame.write_single_coil_request(0x11, 0x00AC, 0xFF00),
            frame.write_single_holding_register_request(0x11, 0x0001, 0x0003),
            frame.write_multiple_coils_request(0x11, 0x0013, 0x000A, vec![0xCD, 0x01]),
            frame.write_multiple_holding_registers_request(0x11, 0x0001, 0x0002, vec![
                0x00, 0x0A, 0x01, 0x02,
            ]),
        ];
        for request in requests {
            let bytes = serialize_request(&request);
            let parsed = parse_request(version, &bytes).unwrap();
            assert_eq!(parsed, request);
        }
    }
}

#[test]
fn test_tcp_decode_incremental() {
    let frame = Frame::tcp();
    let response = frame.read_coils_response(0x01, vec![0xCD, 0x6B]);
    let bytes = serialize_response(&response);
    let codec = TcpClientCodec;

    let mut buf = BytesMut::new();
    // Fewer than the six envelope bytes: no frame length known yet.
    buf.extend_from_slice(&bytes[..3]);
    assert!(matches!(codec.decode(&mut buf), Ok(None)));
    assert_eq!(&buf[..], &bytes[..3]);

    // Envelope known but the body is still short one byte.
    buf.extend_from_slice(&bytes[3..bytes.len() - 1]);
    assert!(matches!(codec.decode(&mut buf), Ok(None)));
    assert_eq!(buf.len(), bytes.len() - 1);

    // The rest arrives, with the first bytes of a next frame behind it.
    buf.extend_from_slice(&bytes[bytes.len() - 1..]);
    buf.extend_from_slice(&[0x00, 0x07]);
    let decoded = codec.decode(&mut buf).unwrap().unwrap();
    assert_eq!(decoded, response);
    assert_eq!(&buf[..], &[0x00, 0x07]);
}

#[test]
fn test_tcp_server_decode_request() {
    let frame = Frame::tcp();
    let request = frame.write_multiple_coils_request(0x01, 0x0013, 0x000A, vec![0xCD, 0x01]);
    let bytes = serialize_request(&request);
    let codec = TcpServerCodec;

    let mut buf = BytesMut::new();
    buf.extend_from_slice(&bytes);
    let decoded = codec.decode(&mut buf).unwrap().unwrap();
    assert_eq!(decoded, request);
    assert_eq!(buf.len(), 0);

    let mut sink = BytesMut::new();
    let response = frame.write_multiple_coils_response(0x01, 0x0013, 0x000A);
    codec.encode(&response, &mut sink);
    assert_eq!(&sink[..], &serialize_response(&response)[..]);
}

#[test]
fn test_rtu_decode_incremental() {
    let frame = Frame::rtu();
    let response = frame.read_multiple_holding_registers_response(0x01, vec![0xAE, 0x41]);
    let bytes = serialize_response(&response);
    let codec = RtuClientCodec;

    let mut buf = BytesMut::new();
    // Only the unit id: even the function is unknown.
    buf.extend_from_slice(&bytes[..1]);
    assert!(matches!(codec.decode(&mut buf), Ok(None)));

    // Unit id and function: a read-style body still needs its count byte.
    buf.extend_from_slice(&bytes[1..2]);
    assert!(matches!(codec.decode(&mut buf), Ok(None)));

    // Everything but the last checksum byte.
    buf.extend_from_slice(&bytes[2..bytes.len() - 1]);
    assert!(matches!(codec.decode(&mut buf), Ok(None)));

    buf.extend_from_slice(&bytes[bytes.len() - 1..]);
    buf.extend_from_slice(&[0x01]);
    let decoded = codec.decode(&mut buf).unwrap().unwrap();
    assert_eq!(decoded, response);
    assert_eq!(&buf[..], &[0x01]);
}

#[test]
fn test_rtu_server_round_trip() {
    let frame = Frame::rtu();
    let request = frame.read_coils_request(0x01, 0x0000, 0x0010);
    let bytes = serialize_request(&request);
    let codec = RtuServerCodec;

    let mut buf = BytesMut::new();
    buf.extend_from_slice(&bytes);
    let decoded = codec.decode(&mut buf).unwrap().unwrap();
    assert_eq!(decoded, request);
    assert_eq!(buf.len(), 0);

    let mut sink = BytesMut::new();
    let response = frame.read_coils_response(0x01, vec![0x00, 0x01]);
    codec.encode(&response, &mut sink);
    assert_eq!(&sink[..], &serialize_response(&response)[..]);
}

#[test]
fn test_rtu_multi_write_request_incremental() {
    let frame = Frame::rtu();
    let request = frame.write_multiple_coils_request(0x01, 0x0013, 0x000A, vec![0xCD, 0x01]);
    let bytes = serialize_request(&request);
    let codec = RtuServerCodec;

    let mut buf = BytesMut::new();
    // The value-byte count sits in the seventh byte; before it arrives
    // the frame cannot be bounded.
    buf.extend_from_slice(&bytes[..6]);
    assert!(matches!(codec.decode(&mut buf), Ok(None)));
    assert_eq!(buf.len(), 6);

    buf.extend_from_slice(&bytes[6..]);
    let decoded = codec.decode(&mut buf).unwrap().unwrap();
    assert_eq!(decoded, request);
    assert_eq!(buf.len(), 0);
}

#[test]
fn test_head_encoded_length() {
    let tcp_head = Head::new(0x0001, 0x01, Function::ReadCoils, 3, Version::Tcp);
    assert_eq!(tcp_head.encoded_length(), 7);
    assert_eq!(tcp_head.length, 4);
    let rtu_head = Head::new(0x0000, 0x01, Function::ReadCoils, 3, Version::Rtu);
    assert_eq!(rtu_head.encoded_length(), 2);
}

#[test]
fn test_unknown_function_code_errors() {
    // A stream frame whose function byte maps to no operation.
    let bytes = vec![0x00, 0x01, 0x00, 0x00, 0x00, 0x02, 0x01, 0x07, 0x00];
    assert_eq!(
        parse_response(Version::Tcp, &bytes),
        Err(ModbusError::UnknownFunctionCode)
    );
    assert_eq!(
        parse_request(Version::Tcp, &bytes),
        Err(ModbusError::UnknownFunctionCode)
    );

    // A serial decoder cannot even bound such a frame.
    let codec = RtuClientCodec;
    let mut buf = BytesMut::new();
    buf.extend_from_slice(&[0x01, 0x07, 0x00]);
    assert_eq!(codec.decode(&mut buf), Err(ModbusError::UnknownFunctionCode));
    assert_eq!(buf.len(), 3);
}

#[test]
fn test_malformed_frame_errors() {
    // Declared length of three, but a write-single-coil body must be
    // exactly four bytes.
    let bytes = vec![0x00, 0x01, 0x00, 0x00, 0x00, 0x03, 0x01, 0x05, 0x00, 0x00];
    assert_eq!(
        parse_response(Version::Tcp, &bytes),
        Err(ModbusError::MalformedFrame)
    );

    // A window shorter than any stream envelope.
    let bytes = vec![0x00, 0x01, 0x00];
    assert_eq!(
        parse_response(Version::Tcp, &bytes),
        Err(ModbusError::MalformedFrame)
    );

    // A request frame carrying the exception flag.
    let bytes = vec![0x00, 0x01, 0x00, 0x00, 0x00, 0x02, 0x01, 0x81, 0x02];
    assert_eq!(
        parse_request(Version::Tcp, &bytes),
        Err(ModbusError::MalformedFrame)
    );
}

#[test]
fn test_rtu_single_byte_corruption_detected() {
    let frame = Frame::rtu();
    let response = frame.read_multiple_holding_registers_response(0x01, vec![0xAE, 0x41, 0x56, 0x52]);
    let bytes = serialize_response(&response);
    assert!(parse_response(Version::Rtu, &bytes).is_ok());
    for i in 0..bytes.len() {
        for bit in 0..8 {
            let mut corrupted = bytes.clone();
            corrupted[i] ^= 1 << bit;
            let result = parse_response(Version::Rtu, &corrupted);
            assert!(result.is_err());
            if i != 1 {
                // Off the function byte, every corruption surfaces as a
                // malformed frame: a length inconsistency or, at the
                // latest, the checksum mismatch.  A corrupted function
                // byte may instead fall outside the closed code set.
                assert_eq!(result, Err(ModbusError::MalformedFrame));
            }
        }
    }
}

#[test]
fn test_exception_response_rtu_round_trip() {
    let frame = Frame::rtu();
    let response = frame.exception_response(0x0A, Function::ReadInputRegisters, Exception::IllegalFunction);
    let bytes = serialize_response(&response);
    assert_eq!(bytes.len(), 5);
    assert_eq!(&bytes[..3], &[0x0A, 0x84, 0x01]);
    let parsed = parse_response(Version::Rtu, &bytes).unwrap();
    assert_eq!(parsed, response);
}

#[test]
fn test_set_head_retargets_response() {
    let frame = Frame::tcp();
    let mut response = frame.read_coils_response(0x01, vec![0x01]);
    response.set_head(Head::new(0x0042, 0x09, Function::ReadCoils, 2, Version::Tcp));
    let bytes = serialize_response(&response);
    assert_eq!(&bytes[..2], &[0x00, 0x42]);
    assert_eq!(bytes[6], 0x09);

    match &response {
        Response::ReadCoils(head, _) => {
            assert_eq!(head.tid, 0x0042);
            assert_eq!(head.uid, 0x09);
        }
        _ => panic!("wrong variant"),
    }
}

#[test]
fn test_getters() {
    let frame = Frame::tcp();
    let response = frame.write_single_holding_register_response(0x01, 0x0102, 0x0304);
    match &response {
        Response::WriteSingleHoldingRegister(_, body) => {
            assert_eq!(*body.get_register_address(), 0x0102);
            assert_eq!(*body.get_value(), 0x0304);
        }
        _ => panic!("wrong variant"),
    }
    let response = ReadCoilsResponse::new(vec![0x05, 0x06]);
    assert_eq!(*response.get_bytes_number(), 2);
    assert_eq!(response.get_values(), &vec![0x05, 0x06]);

    let frame = Frame::rtu();
    match frame.write_single_coil_response(0x01, 0x00AC, 0xFF00) {
        Response::WriteSingleCoil(_, body) => {
            assert_eq!(*body.get_coil_address(), 0x00AC);
            assert_eq!(*body.get_value(), 0xFF00);
        }
        _ => panic!("wrong variant"),
    }
    match frame.write_multiple_coils_response(0x01, 0x0013, 0x000A) {
        Response::WriteMultipleCoils(_, body) => {
            assert_eq!(*body.get_first_address(), 0x0013);
            assert_eq!(*body.get_coils_number(), 0x000A);
        }
        _ => panic!("wrong variant"),
    }
    match frame.write_multiple_holding_registers_response(0x01, 0x0001, 0x0002) {
        Response::WriteMultipleHoldingRegisters(_, body) => {
            assert_eq!(*body.get_first_address(), 0x0001);
            assert_eq!(*body.get_registers_number(), 0x0002);
        }
        _ => panic!("wrong variant"),
    }
    match frame.exception_response(0x01, Function::ReadCoils, Exception::SlaveDeviceFailure) {
        Response::Exception(_, body) => {
            assert_eq!(*body.get_exception(), Exception::SlaveDeviceFailure);
        }
        _ => panic!("wrong variant"),
    }
    match frame.read_discrete_inputs_response(0x01, vec![0x01]) {
        Response::ReadDiscreteInputs(_, body) => {
            assert_eq!(*body.get_bytes_number(), 1);
            assert_eq!(body.get_values(), &vec![0x01]);
        }
        _ => panic!("wrong variant"),
    }
    match frame.read_multiple_holding_registers_response(0x01, vec![0x01, 0x02]) {
        Response::ReadMultipleHoldingRegisters(_, body) => {
            assert_eq!(*body.get_bytes_number(), 2);
            assert_eq!(body.get_values(), &vec![0x01, 0x02]);
        }
        _ => panic!("wrong variant"),
    }
    match frame.read_input_registers_response(0x01, vec![0x03, 0x04]) {
        Response::ReadInputRegisters(_, body) => {
            assert_eq!(*body.get_bytes_number(), 2);
            assert_eq!(body.get_values(), &vec![0x03, 0x04]);
        }
        _ => panic!("wrong variant"),
    }
}
