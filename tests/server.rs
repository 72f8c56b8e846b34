use bms_gateway::modbus_server::{handle_request, read_registers, write_command, ModbusRequest, ModbusResponse};
use bms_gateway::{BmsData, ExceptionCode, SystemCommand};

fn read_holding(store: &mut Option<BmsData>, address: u16, count: u16) -> Vec<u16> {
    match handle_request(store, &ModbusRequest::ReadHoldingRegisters(address, count)) {
        (Ok(ModbusResponse::ReadHoldingRegisters(v)), cmds) => {
            assert!(cmds.is_empty());
            v
        }
        other => panic!("unexpected answer {:?}", other),
    }
}

#[test]
fn uninitialized_unit_reads_zeros() {
    let mut store: Option<BmsData> = None;
    let values = read_holding(&mut store, 1, 12);
    assert_eq!(values, vec![0u16; 12]);
    assert!(store.is_none());
}

#[test]
fn read_holding_and_input_registers_agree() {
    let mut store = Some(BmsData::default());
    let holding = read_holding(&mut store, 1, 13);
    assert_eq!(holding, vec![0, 0, 0, 0, 0, 0, 0, 0xFF, 0, 0, 0xFF, 0xFF, 0]);
    match handle_request(&mut store, &ModbusRequest::ReadInputRegisters(1, 13)) {
        (Ok(ModbusResponse::ReadInputRegisters(v)), _) => assert_eq!(v, holding),
        other => panic!("unexpected answer {:?}", other),
    }
}

#[test]
fn reads_are_idempotent() {
    let mut d = BmsData::default();
    d.current = Some(1234);
    let mut store = Some(d);
    let first = read_holding(&mut store, 6, 1);
    let second = read_holding(&mut store, 6, 1);
    assert_eq!(first, vec![1234]);
    assert_eq!(first, second);
    assert_eq!(store, Some(d));
}

#[test]
fn read_past_the_last_address_reads_zero() {
    let store = Some(BmsData::default());
    assert_eq!(read_registers(&store, 0xFFFE, 4), vec![0, 0, 0, 0]);
    assert_eq!(read_registers(&store, 22, 0), Vec::<u16>::new());
    assert_eq!(read_registers(&store, 20, 3), vec![0, 0, 0]);
}

#[test]
fn write_single_control_register_is_echoed() {
    let mut store = Some(BmsData::default());
    let (r, cmds) = handle_request(&mut store, &ModbusRequest::WriteSingleRegister(21, 1));
    assert!(matches!(r, Ok(ModbusResponse::WriteSingleRegister(21, 1))));
    assert_eq!(cmds, vec![SystemCommand::On]);
    assert_eq!(read_holding(&mut store, 21, 1), vec![1]);
}

#[test]
fn write_value_300_to_on_is_refused() {
    let mut d = BmsData::default();
    d.on = Some(7);
    let mut store = Some(d);
    let (r, cmds) = handle_request(&mut store, &ModbusRequest::WriteSingleRegister(21, 300));
    assert!(matches!(r, Err(ExceptionCode::IllegalDataValue)));
    assert!(cmds.is_empty());
    assert_eq!(store.unwrap().on, Some(7));
}

#[test]
fn write_to_uninitialized_unit_starts_a_record() {
    let mut store: Option<BmsData> = None;
    let (r, cmds) = handle_request(&mut store, &ModbusRequest::WriteSingleRegister(22, 9));
    assert!(matches!(r, Ok(ModbusResponse::WriteSingleRegister(22, 9))));
    assert_eq!(cmds, vec![SystemCommand::Quit]);
    let mut expected = BmsData::default();
    expected.quit = Some(9);
    assert_eq!(store, Some(expected));
}

#[test]
fn zero_written_to_quit_raises_quit() {
    let mut store = Some(BmsData::default());
    let (r, cmds) = handle_request(&mut store, &ModbusRequest::WriteSingleRegister(22, 0));
    assert!(matches!(r, Ok(ModbusResponse::WriteSingleRegister(22, 0))));
    assert_eq!(cmds, vec![SystemCommand::Quit]);
}

#[test]
fn write_single_refusals() {
    let mut store = Some(BmsData::default());
    let (r, _) = handle_request(&mut store, &ModbusRequest::WriteSingleRegister(3, 1));
    assert!(matches!(r, Err(ExceptionCode::IllegalFunction)));
    let (r, _) = handle_request(&mut store, &ModbusRequest::WriteSingleRegister(30, 1));
    assert!(matches!(r, Err(ExceptionCode::IllegalDataAddress)));
    assert_eq!(store, Some(BmsData::default()));
}

#[test]
fn write_multiple_applies_in_order() {
    let mut store = Some(BmsData::default());
    let (r, cmds) = handle_request(&mut store, &ModbusRequest::WriteMultipleRegisters(21, vec![0, 1]));
    assert!(matches!(r, Ok(ModbusResponse::WriteMultipleRegisters(21, 2))));
    assert_eq!(cmds, vec![SystemCommand::Off, SystemCommand::Quit]);
    let d = store.unwrap();
    assert_eq!(d.on, Some(0));
    assert_eq!(d.quit, Some(1));
}

#[test]
fn write_multiple_stops_at_first_refusal() {
    let mut store = Some(BmsData::default());
    let (r, cmds) =
        handle_request(&mut store, &ModbusRequest::WriteMultipleRegisters(21, vec![5, 300, 7]));
    assert!(matches!(r, Err(ExceptionCode::IllegalDataValue)));
    assert_eq!(cmds, vec![SystemCommand::On]);
    let d = store.unwrap();
    assert_eq!(d.on, Some(5));
    assert_eq!(d.quit, Some(0));
}

#[test]
fn write_multiple_past_the_map_is_refused() {
    let mut store = Some(BmsData::default());
    let (r, cmds) = handle_request(&mut store, &ModbusRequest::WriteMultipleRegisters(22, vec![1, 1]));
    assert!(matches!(r, Err(ExceptionCode::IllegalDataAddress)));
    assert_eq!(cmds, vec![SystemCommand::Quit]);
    let (r, _) = handle_request(&mut store, &ModbusRequest::WriteMultipleRegisters(0xFFFF, vec![1, 1]));
    assert!(matches!(r, Err(ExceptionCode::IllegalDataAddress)));
}

#[test]
fn empty_write_multiple_is_acknowledged() {
    let mut store: Option<BmsData> = None;
    let (r, cmds) = handle_request(&mut store, &ModbusRequest::WriteMultipleRegisters(21, vec![]));
    assert!(matches!(r, Ok(ModbusResponse::WriteMultipleRegisters(21, 0))));
    assert!(cmds.is_empty());
}

#[test]
fn other_operations_are_illegal_functions() {
    let mut store = Some(BmsData::default());
    let (r, cmds) = handle_request(&mut store, &ModbusRequest::Unsupported(0x01));
    assert!(matches!(r, Err(ExceptionCode::IllegalFunction)));
    assert!(cmds.is_empty());
    assert_eq!(store, Some(BmsData::default()));
}

#[test]
fn commands_raised_by_writes() {
    assert_eq!(write_command(21, 1), Some(SystemCommand::On));
    assert_eq!(write_command(21, 0), Some(SystemCommand::Off));
    assert_eq!(write_command(22, 1), Some(SystemCommand::Quit));
    assert_eq!(write_command(22, 0), Some(SystemCommand::Quit));
    assert_eq!(write_command(5, 1), None);
}
