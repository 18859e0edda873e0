use mymodbus::frame::{
    build_read_holding_request, modbus_crc16, parse_read_holding_response, registers_to_bytes,
    registers_to_string, ModbusError, ModbusRead,
};
use mymodbus::mock::MockSerialPort;

fn with_crc(mut frame: Vec<u8>) -> Vec<u8> {
    let crc = modbus_crc16(&frame);
    frame.push((crc & 0xFF) as u8);
    frame.push((crc >> 8) as u8);
    frame
}

#[test]
fn test_parse_response_u16() {
    // Slave 247 (0xF7), Func 4, 2 bytes (1 reg), Value 0x1234
    let mut frame = vec![0xF7, 0x04, 0x02, 0x12, 0x34];
    let crc = modbus_crc16(&frame);
    frame.push((crc & 0xFF) as u8);
    frame.push((crc >> 8) as u8);

    let regs = parse_read_holding_response(&frame, 247, 1).unwrap();
    assert_eq!(regs, vec![0x1234]);
    let val = u16::from_registers(&regs).unwrap();
    assert_eq!(val, 0x1234);
}

#[test]
fn test_parse_response_u32() {
    // Slave 247, Func 4, 4 bytes (2 regs), Value 0x12345678
    let mut frame = vec![0xF7, 0x04, 0x04, 0x12, 0x34, 0x56, 0x78];
    let crc = modbus_crc16(&frame);
    frame.push((crc & 0xFF) as u8);
    frame.push((crc >> 8) as u8);

    let regs = parse_read_holding_response(&frame, 247, 2).unwrap();
    assert_eq!(regs, vec![0x1234, 0x5678]);
    let val = u32::from_registers(&regs).unwrap();
    assert_eq!(val, 0x12345678);
}

#[test]
fn test_parse_response_i32() {
    // Slave 247, Func 4, 4 bytes (2 regs), Value -1 (0xFFFFFFFF)
    let mut frame = vec![0xF7, 0x04, 0x04, 0xFF, 0xFF, 0xFF, 0xFF];
    let crc = modbus_crc16(&frame);
    frame.push((crc & 0xFF) as u8);
    frame.push((crc >> 8) as u8);

    let regs = parse_read_holding_response(&frame, 247, 2).unwrap();
    assert_eq!(regs, vec![0xFFFF, 0xFFFF]);
    let val = i32::from_registers(&regs).unwrap();
    assert_eq!(val, -1);
}

#[test]
fn test_string_conversion() {
    let regs = vec![
        u16::from_be_bytes([b'H', b'e']),
        u16::from_be_bytes([b'l', b'l']),
        u16::from_be_bytes([b'o', 0]),
    ];
    let s = registers_to_string(&regs);
    assert_eq!(s, "Hello");
}

#[test]
fn crc16_matches_the_modbus_check_value() {
    assert_eq!(modbus_crc16(b"123456789"), 0x4B37);
    assert_eq!(modbus_crc16(&[]), 0xFFFF);
}

#[test]
fn request_frame_carries_address_count_and_crc() {
    assert_eq!(
        build_read_holding_request(247, 30000, 16),
        vec![247, 4, 0x75, 0x30, 0, 16, 255, 83]
    );
    assert_eq!(build_read_holding_request(247, 1, 2), vec![247, 4, 0, 1, 0, 2, 52, 157]);
}

#[test]
fn parse_reports_each_error() {
    assert_eq!(parse_read_holding_response(&[247, 4, 2, 0], 247, 1), Err(ModbusError::FrameTooShort));
    let mut bad = with_crc(vec![247, 4, 2, 0x12, 0x34]);
    let last = bad.len() - 1;
    bad[last] ^= 0xFF;
    assert!(matches!(
        parse_read_holding_response(&bad, 247, 1),
        Err(ModbusError::CrcMismatch { .. })
    ));
    assert_eq!(
        parse_read_holding_response(&with_crc(vec![1, 4, 2, 0x12, 0x34]), 247, 1),
        Err(ModbusError::UnexpectedSlave { slave: 1, expected: 247 })
    );
    assert_eq!(
        parse_read_holding_response(&[247, 132, 3, 227, 51], 247, 1),
        Err(ModbusError::Exception { function: 0x84, code: 3 })
    );
    assert_eq!(
        parse_read_holding_response(&with_crc(vec![247, 3, 2, 0x12, 0x34]), 247, 1),
        Err(ModbusError::UnexpectedFunction { function: 3 })
    );
    assert_eq!(
        parse_read_holding_response(&with_crc(vec![247, 4, 2, 0x12, 0x34]), 247, 2),
        Err(ModbusError::UnexpectedByteCount { count: 2, expected_bytes: 4 })
    );
    assert_eq!(
        parse_read_holding_response(&with_crc(vec![247, 4, 2, 0x12, 0x34, 0x56]), 247, 1),
        Err(ModbusError::UnexpectedFrameLength { length: 8 })
    );
}

#[test]
fn values_need_enough_registers() {
    assert_eq!(u16::from_registers(&[]), Err(ModbusError::NotEnoughRegisters { needed: 1 }));
    assert_eq!(u32::from_registers(&[1]), Err(ModbusError::NotEnoughRegisters { needed: 2 }));
    assert_eq!(i32::from_registers(&[1]), Err(ModbusError::NotEnoughRegisters { needed: 2 }));
    assert_eq!(i32::from_registers(&[0x8000, 0]), Ok(i32::MIN));
    assert_eq!(i32::from_registers(&[0x7FFF, 0xFFFF]), Ok(i32::MAX));
    assert_eq!(u32::from_registers(&[0xFFFF, 0xFFFF]), Ok(u32::MAX));
    assert_eq!(<u16 as ModbusRead>::reg_count(), 1);
    assert_eq!(<u32 as ModbusRead>::reg_count(), 2);
}

#[test]
fn registers_split_high_byte_first_and_text_is_trimmed() {
    assert_eq!(registers_to_bytes(&[0x1234, 0xABCD]), vec![0x12, 0x34, 0xAB, 0xCD]);
    let regs = [u16::from_be_bytes([0, b' ']), u16::from_be_bytes([b'A', b'B']), u16::from_be_bytes([b' ', 0])];
    assert_eq!(registers_to_string(&regs), "AB");
    assert_eq!(registers_to_string(&[0xFFFF]), "\u{FFFD}\u{FFFD}");
}

#[test]
fn mock_answers_a_read_of_two_registers() {
    let mut port = MockSerialPort::new();
    let request = build_read_holding_request(247, 1, 2);
    assert_eq!(port.write(&request), request.len());
    assert_eq!(port.bytes_to_read(), 9);
    let reply = port.read(64).unwrap();
    assert!(port.read(64).is_none());
    let regs = parse_read_holding_response(&reply, 247, 2).unwrap();
    assert_eq!(regs, vec![0x1234, 0x5678]);
    assert_eq!(u32::from_registers(&regs).unwrap(), 0x12345678);
}

#[test]
fn mock_reads_unset_registers_as_zero_and_energy_totals() {
    let mut port = MockSerialPort::new();
    port.write(&build_read_holding_request(247, 32000, 2));
    let reply = port.read(256).unwrap();
    let regs = parse_read_holding_response(&reply, 247, 2).unwrap();
    assert_eq!(i32::from_registers(&regs).unwrap(), 20000);
    port.write(&build_read_holding_request(247, 500, 1));
    let regs = parse_read_holding_response(&port.read(256).unwrap(), 247, 1).unwrap();
    assert_eq!(regs, vec![0]);
}

#[test]
fn mock_reply_can_be_read_in_pieces() {
    let mut port = MockSerialPort::new();
    port.write(&build_read_holding_request(247, 0, 1));
    let first = port.read(3).unwrap();
    let rest = port.read(100).unwrap();
    assert_eq!(first.len(), 3);
    let mut reply = first;
    reply.extend(rest);
    assert_eq!(parse_read_holding_response(&reply, 247, 1).unwrap(), vec![1234]);
}

#[test]
fn mock_exceptions_and_silence() {
    let mut port = MockSerialPort::new();
    port.write(&[1, 2, 3]);
    assert_eq!(port.read(64).unwrap(), vec![247, 132, 3, 227, 51]);
    let mut bad = build_read_holding_request(247, 1, 2);
    bad[7] ^= 1;
    port.write(&bad);
    assert_eq!(
        parse_read_holding_response(&port.read(64).unwrap(), 247, 1),
        Err(ModbusError::Exception { function: 0x84, code: 3 })
    );
    port.write(&build_read_holding_request(5, 1, 2));
    assert!(port.read(64).is_none());
    port.write(&with_crc(vec![247, 3, 0, 1, 0, 2]));
    assert_eq!(
        parse_read_holding_response(&port.read(64).unwrap(), 247, 1),
        Err(ModbusError::Exception { function: 0x83, code: 1 })
    );
    port.write(&build_read_holding_request(247, 1, 126));
    assert_eq!(
        parse_read_holding_response(&port.read(64).unwrap(), 247, 1),
        Err(ModbusError::Exception { function: 0x84, code: 3 })
    );
    port.write(&build_read_holding_request(247, 1, 0));
    assert!(port.read(64).is_some());
}

#[test]
fn mock_register_setters() {
    let mut port = MockSerialPort::with_registers(&[(7, 1), (7, 2), (9, 3)]);
    port.write(&build_read_holding_request(247, 7, 3));
    assert_eq!(parse_read_holding_response(&port.read(64).unwrap(), 247, 3).unwrap(), vec![2, 0, 3]);
    port.set_register(8, 42);
    port.set_u32(100, 0xDEADBEEF);
    port.set_i32(200, -2);
    port.set_string(300, "Hello", 4);
    port.write(&build_read_holding_request(247, 7, 3));
    assert_eq!(parse_read_holding_response(&port.read(64).unwrap(), 247, 3).unwrap(), vec![2, 42, 3]);
    port.write(&build_read_holding_request(247, 100, 2));
    assert_eq!(parse_read_holding_response(&port.read(64).unwrap(), 247, 2).unwrap(), vec![0xDEAD, 0xBEEF]);
    port.write(&build_read_holding_request(247, 200, 2));
    let regs = parse_read_holding_response(&port.read(64).unwrap(), 247, 2).unwrap();
    assert_eq!(i32::from_registers(&regs).unwrap(), -2);
    port.write(&build_read_holding_request(247, 300, 4));
    let regs = parse_read_holding_response(&port.read(64).unwrap(), 247, 4).unwrap();
    assert_eq!(registers_to_string(&regs), "Hello");
    port.set_string(400, "abcdef", 2);
    port.write(&build_read_holding_request(247, 400, 3));
    let regs = parse_read_holding_response(&port.read(64).unwrap(), 247, 3).unwrap();
    assert_eq!(regs, vec![u16::from_be_bytes([b'a', b'b']), u16::from_be_bytes([b'c', b'd']), 0]);
}

#[test]
fn a_frame_followed_by_its_crc_checks_to_zero() {
    for frame in [vec![], vec![0xF7, 0x04, 0x02, 0x12, 0x34], build_read_holding_request(247, 32000, 2)] {
        assert_eq!(modbus_crc16(&with_crc(frame)), 0);
    }
}
