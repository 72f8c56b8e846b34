use bms_gateway::data::{REG_BMS_INFO, REG_ERROR_1, REG_ON, REG_QUIT};
use bms_gateway::{AppError, BmsData, CanFrame, ExceptionCode};

fn frame(id: u32, data: &[u8]) -> CanFrame {
    CanFrame { id, data: data.to_vec() }
}

#[test]
fn default_record_holds_initial_values() {
    let d = BmsData::default();
    assert_eq!(d.get_register(1), Some(0));
    assert_eq!(d.get_register(REG_BMS_INFO), Some(0xFF));
    assert_eq!(d.get_register(11), Some(0xFF));
    assert_eq!(d.get_register(12), Some(0xFF));
    assert_eq!(d.get_register(REG_ON), Some(0));
    assert_eq!(d.get_register(REG_QUIT), Some(0));
    assert!(!d.control_frozen);
}

#[test]
fn unmapped_addresses_read_none() {
    let d = BmsData::default();
    assert_eq!(d.get_register(0), None);
    assert_eq!(d.get_register(13), None);
    assert_eq!(d.get_register(20), None);
    assert_eq!(d.get_register(23), None);
    assert_eq!(d.get_register(u16::MAX), None);
}

#[test]
fn unset_status_fields_read_sentinel() {
    let mut d = BmsData::default();
    d.info = None;
    d.error1 = None;
    d.soc = None;
    assert_eq!(d.get_register(REG_BMS_INFO), Some(0xFF));
    assert_eq!(d.get_register(REG_ERROR_1), Some(0xFF));
    assert_eq!(d.get_register(5), None);
}

#[test]
fn type1_frame_read_back() {
    let mut d = BmsData::default();
    let r = d.update_from_frame(&frame(0xB101, &[0x34, 0x12, 0xCD, 0xAB, 7, 250, 3, 99]));
    assert_eq!(r, Ok(()));
    assert_eq!(d.get_register(1), Some(0x1234));
    assert_eq!(d.get_register(2), Some(0xABCD));
    assert_eq!(d.get_register(3), Some(7));
    assert_eq!(d.get_register(4), Some(250));
    assert_eq!(d.get_register(8), Some(3));
    assert_eq!(d.get_register(5), Some(99));
    // Fields of the other message type are untouched.
    assert_eq!(d.get_register(6), Some(0));
    assert_eq!(d.get_register(11), Some(0xFF));
}

#[test]
fn type2_frame_read_back() {
    let mut d = BmsData::default();
    let r = d.update_from_frame(&frame(0xB202, &[0xFF, 0xFF, 0x00, 0x01, 1, 2, 3, 4]));
    assert_eq!(r, Ok(()));
    assert_eq!(d.get_register(6), Some(0xFFFF));
    assert_eq!(d.get_register(7), Some(0x0100));
    assert_eq!(d.get_register(9), Some(1));
    assert_eq!(d.get_register(10), Some(2));
    assert_eq!(d.get_register(11), Some(3));
    assert_eq!(d.get_register(12), Some(4));
    assert_eq!(d.get_register(1), Some(0));
}

#[test]
fn short_frame_is_refused_and_record_unchanged() {
    let mut d = BmsData::default();
    d.soc = Some(42);
    let before = d;
    let r = d.update_from_frame(&frame(0xB101, &[1, 2, 3]));
    assert_eq!(r, Err(AppError::InvalidCanDataLength { can_id: 0xB101, expected: 8, actual: 3 }));
    assert_eq!(d, before);
}

#[test]
fn long_and_empty_frames_are_refused() {
    let mut d = BmsData::default();
    let before = d;
    let r = d.update_from_frame(&frame(0xB201, &[0; 9]));
    assert_eq!(r, Err(AppError::InvalidCanDataLength { can_id: 0xB201, expected: 8, actual: 9 }));
    let r = d.update_from_frame(&frame(0xB102, &[]));
    assert_eq!(r, Err(AppError::InvalidCanDataLength { can_id: 0xB102, expected: 8, actual: 0 }));
    assert_eq!(d, before);
}

#[test]
fn unknown_identifier_is_refused() {
    let mut d = BmsData::default();
    let before = d;
    let r = d.update_from_frame(&frame(0xB301, &[0; 8]));
    assert_eq!(r, Err(AppError::UnsupportedCanId(0xB301)));
    assert_eq!(d, before);
}

#[test]
fn control_writes_in_range_are_stored() {
    let mut d = BmsData::default();
    assert_eq!(d.set_register(REG_ON, 255), Ok(()));
    assert_eq!(d.get_register(REG_ON), Some(255));
    assert_eq!(d.set_register(REG_QUIT, 1), Ok(()));
    assert_eq!(d.get_register(REG_QUIT), Some(1));
    assert_eq!(d.set_register(REG_ON, 0), Ok(()));
    assert_eq!(d.get_register(REG_ON), Some(0));
}

#[test]
fn control_write_too_large_is_refused() {
    let mut d = BmsData::default();
    d.on = Some(5);
    assert_eq!(d.set_register(REG_ON, 256), Err(ExceptionCode::IllegalDataValue));
    assert_eq!(d.on, Some(5));
    assert_eq!(d.set_register(REG_QUIT, u16::MAX), Err(ExceptionCode::IllegalDataValue));
    assert_eq!(d.get_register(REG_QUIT), Some(0));
}

#[test]
fn telemetry_writes_are_illegal_functions() {
    let mut d = BmsData::default();
    for address in 1..=12u16 {
        assert_eq!(d.set_register(address, 1), Err(ExceptionCode::IllegalFunction));
    }
    assert_eq!(d, BmsData::default());
}

#[test]
fn writes_outside_the_map_are_illegal_addresses() {
    let mut d = BmsData::default();
    for address in [0u16, 13, 20, 23, 100, u16::MAX] {
        assert_eq!(d.set_register(address, 1), Err(ExceptionCode::IllegalDataAddress));
    }
    assert_eq!(d, BmsData::default());
}
