use easy_modbus::{
    Exception, ExceptionResponse, ReadCoilsResponse, ReadDiscreteInputsResponse,
    ReadInputRegistersResponse, ReadMultipleHoldingRegistersResponse, WriteMultipleCoilsResponse,
    WriteMultipleHoldingRegistersResponse, WriteSingleCoilResponse,
    WriteSingleHoldingRegisterResponse,
};

#[test]
fn test_read_coils_response() {
    let response_l =
        ReadCoilsResponse::new(vec![0b1100_1101, 0b0110_1011, 0b1011_0010, 0b0111_1111]);
    let response_r = ReadCoilsResponse {
        bytes_number: 0x04,
        values: vec![0b1100_1101, 0b0110_1011, 0b1011_0010, 0b0111_1111],
    };
    assert_eq!(response_l, response_r);
    assert_eq!(response_l.len(), 5);
}

#[test]
fn test_read_discrete_inputs_response() {
    let response_l = ReadDiscreteInputsResponse::new(vec![
        0b1010_1100,
        0b1101_1011,
        0b1111_1011,
        0b0000_1101,
    ]);
    let response_r = ReadDiscreteInputsResponse {
        bytes_number: 0x04,
        values: vec![0b1010_1100, 0b1101_1011, 0b1111_1011, 0b0000_1101],
    };
    assert_eq!(response_l, response_r);
    assert_eq!(response_l.len(), 5);
}

#[test]
fn test_read_multiple_holding_registers_response() {
    let response_l =
        ReadMultipleHoldingRegistersResponse::new(vec![0xAE, 0x41, 0x56, 0x52, 0x43, 0x40]);
    let response_r = ReadMultipleHoldingRegistersResponse {
        bytes_number: 0x06,
        values: vec![0xAE, 0x41, 0x56, 0x52, 0x43, 0x40],
    };
    assert_eq!(response_l, response_r);
    assert_eq!(response_l.len(), 7);
}

#[test]
fn test_read_input_register_response() {
    let response_l = ReadInputRegistersResponse::new(vec![0x0C, 0x00, 0x00, 0x00]);
    let response_r = ReadInputRegistersResponse {
        bytes_number: 0x04,
        values: vec![0x0C, 0x00, 0x00, 0x00],
    };
    assert_eq!(response_l, response_r);
    assert_eq!(response_l.len(), 5);
}

#[test]
fn test_write_single_coils_response() {
    let response_l = WriteSingleCoilResponse::new(0x00, 0xFF);
    let response_r = WriteSingleCoilResponse {
        coil_address: 0x00,
        value: 0xFF,
    };
    assert_eq!(response_l, response_r);
    assert_eq!(response_l.len(), 4);
}

#[test]
fn test_write_single_holding_register_response() {
    let response_l = WriteSingleHoldingRegisterResponse::new(0x01, 0xABCD);
    let response_r = WriteSingleHoldingRegisterResponse {
        register_address: 0x01,
        value: 0xABCD,
    };
    assert_eq!(response_l, response_r);
    assert_eq!(response_l.len(), 4);
}

#[test]
fn test_write_multiple_coils_response() {
    let response_l = WriteMultipleCoilsResponse::new(0x00, 0x09);
    let response_r = WriteMultipleCoilsResponse {
        first_address: 0x00,
        coils_number: 0x09,
    };
    assert_eq!(response_l, response_r);
    assert_eq!(response_l.len(), 4);
}

#[test]
fn test_multiple_holding_registers_response() {
    let response_l = WriteMultipleHoldingRegistersResponse::new(0x00, 0x02);
    let response_r = WriteMultipleHoldingRegistersResponse {
        first_address: 0x00,
        registers_number: 0x02,
    };
    assert_eq!(response_l, response_r);
    assert_eq!(response_l.len(), 4);
}

#[test]
fn test_exception_response() {
    let response_l = ExceptionResponse::new(Exception::IllegalDataAddress);
    let response_r = ExceptionResponse {
        exception: Exception::IllegalDataAddress,
    };
    assert_eq!(response_l, response_r);
    assert_eq!(response_l.len(), 1);
}
