use easy_modbus::util::crc;
use easy_modbus::{Exception, Function};

#[test]
fn test_function_code_round_trip() {
    let functions = [
        Function::ReadCoils,
        Function::ReadDiscreteInputs,
        Function::ReadMultipleHoldingRegisters,
        Function::ReadInputRegisters,
        Function::WriteSingleCoil,
        Function::WriteSingleHoldingRegister,
        Function::WriteMultipleCoils,
        Function::WriteMultipleHoldingRegisters,
    ];
    for f in functions {
        assert_eq!(Function::from_code(f.to_code()), Some(f));
    }
}

#[test]
fn test_function_codes() {
    assert_eq!(Function::ReadCoils.to_code(), 0x01);
    assert_eq!(Function::ReadDiscreteInputs.to_code(), 0x02);
    assert_eq!(Function::ReadMultipleHoldingRegisters.to_code(), 0x03);
    assert_eq!(Function::ReadInputRegisters.to_code(), 0x04);
    assert_eq!(Function::WriteSingleCoil.to_code(), 0x05);
    assert_eq!(Function::WriteSingleHoldingRegister.to_code(), 0x06);
    assert_eq!(Function::WriteMultipleCoils.to_code(), 0x0F);
    assert_eq!(Function::WriteMultipleHoldingRegisters.to_code(), 0x10);
    assert_eq!(Function::from_code(0x00), None);
    assert_eq!(Function::from_code(0x07), None);
    assert_eq!(Function::from_code(0x11), None);
    assert_eq!(Function::from_code(0x81), None);
}

#[test]
fn test_exception_code_round_trip() {
    let exceptions = [
        Exception::IllegalFunction,
        Exception::IllegalDataAddress,
        Exception::IllegalDataValue,
        Exception::SlaveDeviceFailure,
        Exception::Acknowledge,
        Exception::SlaveDeviceBusy,
        Exception::NegativeAcknowledge,
        Exception::MemoryParityError,
        Exception::GatewayPathUnavailable,
        Exception::GatewayTargetDeviceFailedToResponse,
    ];
    for e in exceptions {
        assert_eq!(Exception::from_code(e.to_code()), Some(e));
    }
    assert_eq!(Exception::from_code(0x00), None);
    assert_eq!(Exception::from_code(0x09), None);
    assert_eq!(Exception::from_code(0x0C), None);
}

#[test]
fn test_crc_known_vectors() {
    // The canonical read-holding-registers request `01 03 00 00 00 02`
    // is followed on the serial wire by `C4 0B`, i.e. the checksum
    // 0x0BC4 appended low byte first.
    let c = crc::compute(&vec![0x01, 0x03, 0x00, 0x00, 0x00, 0x02]);
    assert_eq!(c, 0x0BC4);
    let c = crc::compute(&vec![0x01, 0x05, 0x00, 0x00, 0xFF, 0x00]);
    assert_eq!(c, 0x3A8C);
    assert_eq!(crc::compute(&vec![]), 0xFFFF);
}
