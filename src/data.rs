use crate::error::{AppError, ExceptionCode};
use vstd::prelude::*;

verus! {

// Register map: 1..=12 read-only telemetry, 21 and 22 read/write control.
pub const REG_MIN_CELL_VOLTAGE: u16 = 1;
pub const REG_MAX_CELL_VOLTAGE: u16 = 2;
pub const REG_MIN_TEMPERATURE: u16 = 3;
pub const REG_MAX_TEMPERATURE: u16 = 4;
pub const REG_SOC: u16 = 5;
pub const REG_CURRENT: u16 = 6;
pub const REG_TOTAL_VOLTAGE: u16 = 7;
pub const REG_BMS_INFO: u16 = 8;
pub const REG_WARNING_1: u16 = 9;
pub const REG_WARNING_2: u16 = 10;
pub const REG_ERROR_1: u16 = 11;
pub const REG_ERROR_2: u16 = 12;
pub const REG_ON: u16 = 21;
pub const REG_QUIT: u16 = 22;

/// Identifiers of the first message type (cell voltages, temperatures,
/// info, state of charge) for units 1 and 2.
pub const CAN_ID_TYPE1_UNIT1: u32 = 0xB101;
pub const CAN_ID_TYPE1_UNIT2: u32 = 0xB102;
/// Identifiers of the second message type (current, total voltage,
/// warnings, errors) for units 1 and 2.
pub const CAN_ID_TYPE2_UNIT1: u32 = 0xB201;
pub const CAN_ID_TYPE2_UNIT2: u32 = 0xB202;
/// Number of payload bytes that both message types carry.
pub const FRAME_LEN: usize = 8;

/// A received CAN frame: its raw identifier and its payload bytes.
#[derive(Debug, Clone)]
pub struct CanFrame {
    pub id: u32,
    pub data: Vec<u8>,
}

/// Whether `id` belongs to the first message type.
pub open spec fn is_type1_id(id: u32) -> bool {
    id == CAN_ID_TYPE1_UNIT1 || id == CAN_ID_TYPE1_UNIT2
}

/// Whether `id` belongs to the second message type.
pub open spec fn is_type2_id(id: u32) -> bool {
    id == CAN_ID_TYPE2_UNIT1 || id == CAN_ID_TYPE2_UNIT2
}

/// The little-endian 16-bit value of two bytes.
pub open spec fn le_u16(lo: u8, hi: u8) -> u16 {
    (lo as int + 256 * (hi as int)) as u16
}

/// Value reported for `info`, `error1` and `error2` while they are unknown.
pub const UNKNOWN_STATUS: u8 = 0xFF;

/// Telemetry and control state of one battery management unit.
#[derive(Debug, Clone, Copy, PartialEq, Eq, Structural)]
pub struct BmsData {
    pub min_cell_voltage: Option<u16>,
    pub max_cell_voltage: Option<u16>,
    pub min_temperature: Option<u8>,
    pub max_temperature: Option<u8>,
    pub info: Option<u8>,
    pub soc: Option<u8>,
    pub current: Option<u16>,
    pub total_voltage: Option<u16>,
    pub warning1: Option<u8>,
    pub warning2: Option<u8>,
    pub error1: Option<u8>,
    pub error2: Option<u8>,
    /// Written by the supervisory network through register 21.
    pub on: Option<u8>,
    /// Written by the supervisory network through register 22.
    pub quit: Option<u8>,
    /// Set by the command router while a debounce window is open.
    pub control_frozen: bool,
}

/// The record that an update works on: the unit's record, or a fresh one
/// if the unit has none yet.
pub open spec fn started(store: Option<BmsData>) -> BmsData {
    match store {
        Some(d) => d,
        None => BmsData::initial(),
    }
}

/// An 8-bit field as a register value.
pub open spec fn widened(f: Option<u8>) -> Option<u16> {
    match f {
        Some(b) => Some(b as u16),
        None => None,
    }
}

/// A status field as a register value: unknown reads as the sentinel.
pub open spec fn status_value(f: Option<u8>) -> u16 {
    match f {
        Some(b) => b as u16,
        None => UNKNOWN_STATUS as u16,
    }
}

fn read_le_u16(lo: u8, hi: u8) -> (r: u16)
    ensures
        r == le_u16(lo, hi),
{
    lo as u16 + (hi as u16) * 256
}

fn widen(f: Option<u8>) -> (r: Option<u16>)
    ensures
        r == widened(f),
{
    match f {
        Some(b) => Some(b as u16),
        None => None,
    }
}

fn status(f: Option<u8>) -> (r: u16)
    ensures
        r == status_value(f),
{
    match f {
        Some(b) => b as u16,
        None => UNKNOWN_STATUS as u16,
    }
}

impl BmsData {
    /// The record of a freshly initialized unit: numeric telemetry 0, status
    /// fields unknown, control registers 0, not frozen.
    pub open spec fn initial() -> BmsData {
        BmsData {
            min_cell_voltage: Some(0),
            max_cell_voltage: Some(0),
            min_temperature: Some(0),
            max_temperature: Some(0),
            info: Some(UNKNOWN_STATUS),
            soc: Some(0),
            current: Some(0),
            total_voltage: Some(0),
            warning1: Some(0),
            warning2: Some(0),
            error1: Some(UNKNOWN_STATUS),
            error2: Some(UNKNOWN_STATUS),
            on: Some(0),
            quit: Some(0),
            control_frozen: false,
        }
    }

    /// What the register at `address` holds; `None` where nothing is mapped.
    pub open spec fn register(self, address: int) -> Option<u16> {
        if address == REG_MIN_CELL_VOLTAGE {
            self.min_cell_voltage
        } else if address == REG_MAX_CELL_VOLTAGE {
            self.max_cell_voltage
        } else if address == REG_MIN_TEMPERATURE {
            widened(self.min_temperature)
        } else if address == REG_MAX_TEMPERATURE {
            widened(self.max_temperature)
        } else if address == REG_SOC {
            widened(self.soc)
        } else if address == REG_CURRENT {
            self.current
        } else if address == REG_TOTAL_VOLTAGE {
            self.total_voltage
        } else if address == REG_BMS_INFO {
            Some(status_value(self.info))
        } else if address == REG_WARNING_1 {
            widened(self.warning1)
        } else if address == REG_WARNING_2 {
            widened(self.warning2)
        } else if address == REG_ERROR_1 {
            Some(status_value(self.error1))
        } else if address == REG_ERROR_2 {
            Some(status_value(self.error2))
        } else if address == REG_ON {
            widened(self.on)
        } else if address == REG_QUIT {
            widened(self.quit)
        } else {
            None
        }
    }

    /// The record after a write of `value` to the register at `address`, or
    /// the exception that refuses it.
    pub open spec fn write_result(self, address: int, value: u16) -> Result<BmsData, ExceptionCode> {
        if address == REG_ON || address == REG_QUIT {
            if value > 255 {
                Err(ExceptionCode::IllegalDataValue)
            } else if address == REG_ON {
                Ok(BmsData { on: Some(value as u8), ..self })
            } else {
                Ok(BmsData { quit: Some(value as u8), ..self })
            }
        } else if REG_MIN_CELL_VOLTAGE <= address <= REG_ERROR_2 {
            Err(ExceptionCode::IllegalFunction)
        } else {
            Err(ExceptionCode::IllegalDataAddress)
        }
    }

    /// The record after taking in the 8-byte payload `data` of a frame
    /// whose identifier is of either known type.
    pub open spec fn decoded(self, id: u32, data: Seq<u8>) -> BmsData {
        if is_type1_id(id) {
            BmsData {
                min_cell_voltage: Some(le_u16(data[0], data[1])),
                max_cell_voltage: Some(le_u16(data[2], data[3])),
                min_temperature: Some(data[4]),
                max_temperature: Some(data[5]),
                info: Some(data[6]),
                soc: Some(data[7]),
                ..self
            }
        } else {
            BmsData {
                current: Some(le_u16(data[0], data[1])),
                total_voltage: Some(le_u16(data[2], data[3])),
                warning1: Some(data[4]),
                warning2: Some(data[5]),
                error1: Some(data[6]),
                error2: Some(data[7]),
                ..self
            }
        }
    }

    /// The record after taking in a frame, or why the frame is refused.
    pub open spec fn frame_result(self, id: u32, data: Seq<u8>) -> Result<BmsData, AppError> {
        if !is_type1_id(id) && !is_type2_id(id) {
            Err(AppError::UnsupportedCanId(id))
        } else if data.len() != FRAME_LEN {
            Err(AppError::InvalidCanDataLength { can_id: id, expected: FRAME_LEN, actual: data.len() as usize })
        } else {
            Ok(self.decoded(id, data))
        }
    }

    /// Takes in a received CAN frame: on success the fields that its message
    /// type carries are replaced; on failure nothing changes.
    pub fn update_from_frame(&mut self, frame: &CanFrame) -> (r: Result<(), AppError>)
        ensures
            match old(self).frame_result(frame.id, frame.data@) {
                Ok(d) => r == Ok::<(), AppError>(()) && *final(self) == d,
                Err(e) => r == Err::<(), AppError>(e) && *final(self) == *old(self),
            },
    {
        let id = frame.id;
        let data = &frame.data;
        if id == CAN_ID_TYPE1_UNIT1 || id == CAN_ID_TYPE1_UNIT2 {
            if data.len() != FRAME_LEN {
                return Err(AppError::InvalidCanDataLength { can_id: id, expected: FRAME_LEN, actual: data.len() });
            }
            self.min_cell_voltage = Some(read_le_u16(data[0], data[1]));
            self.max_cell_voltage = Some(read_le_u16(data[2], data[3]));
            self.min_temperature = Some(data[4]);
            self.max_temperature = Some(data[5]);
            self.info = Some(data[6]);
            self.soc = Some(data[7]);
            Ok(())
        } else if id == CAN_ID_TYPE2_UNIT1 || id == CAN_ID_TYPE2_UNIT2 {
            if data.len() != FRAME_LEN {
                return Err(AppError::InvalidCanDataLength { can_id: id, expected: FRAME_LEN, actual: data.len() });
            }
            self.current = Some(read_le_u16(data[0], data[1]));
            self.total_voltage = Some(read_le_u16(data[2], data[3]));
            self.warning1 = Some(data[4]);
            self.warning2 = Some(data[5]);
            self.error1 = Some(data[6]);
            self.error2 = Some(data[7]);
            Ok(())
        } else {
            Err(AppError::UnsupportedCanId(id))
        }
    }

    /// Writes `value` to the register at `address`. Only the control
    /// registers 21 and 22 take writes, of values that fit in a byte; on
    /// failure nothing changes.
    pub fn set_register(&mut self, address: u16, value: u16) -> (r: Result<(), ExceptionCode>)
        ensures
            match old(self).write_result(address as int, value) {
                Ok(d) => r == Ok::<(), ExceptionCode>(()) && *final(self) == d,
                Err(e) => r == Err::<(), ExceptionCode>(e) && *final(self) == *old(self),
            },
    {
        if address == REG_ON || address == REG_QUIT {
            if value > 255 {
                Err(ExceptionCode::IllegalDataValue)
            } else if address == REG_ON {
                self.on = Some(value as u8);
                Ok(())
            } else {
                self.quit = Some(value as u8);
                Ok(())
            }
        } else if REG_MIN_CELL_VOLTAGE <= address && address <= REG_ERROR_2 {
            Err(ExceptionCode::IllegalFunction)
        } else {
            Err(ExceptionCode::IllegalDataAddress)
        }
    }

    /// Reads the register at `address`; `None` where nothing is mapped.
    pub fn get_register(&self, address: u16) -> (r: Option<u16>)
        ensures
            r == self.register(address as int),
    {
        if address == REG_MIN_CELL_VOLTAGE {
            self.min_cell_voltage
        } else if address == REG_MAX_CELL_VOLTAGE {
            self.max_cell_voltage
        } else if address == REG_MIN_TEMPERATURE {
            widen(self.min_temperature)
        } else if address == REG_MAX_TEMPERATURE {
            widen(self.max_temperature)
        } else if address == REG_SOC {
            widen(self.soc)
        } else if address == REG_CURRENT {
            self.current
        } else if address == REG_TOTAL_VOLTAGE {
            self.total_voltage
        } else if address == REG_BMS_INFO {
            Some(status(self.info))
        } else if address == REG_WARNING_1 {
            widen(self.warning1)
        } else if address == REG_WARNING_2 {
            widen(self.warning2)
        } else if address == REG_ERROR_1 {
            Some(status(self.error1))
        } else if address == REG_ERROR_2 {
            Some(status(self.error2))
        } else if address == REG_ON {
            widen(self.on)
        } else if address == REG_QUIT {
            widen(self.quit)
        } else {
            None
        }
    }
}

/// A frame of either known type with an 8-byte payload is taken in, and the
/// registers it feeds then read exactly what it encodes: the little-endian
/// words of bytes 0–1 and 2–3, and bytes 4 to 7 zero-extended.
pub proof fn lemma_frame_readback(d: BmsData, id: u32, data: Seq<u8>)
    requires
        is_type1_id(id) || is_type2_id(id),
        data.len() == FRAME_LEN,
    ensures
        d.frame_result(id, data) == Ok::<BmsData, AppError>(d.decoded(id, data)),
        le_u16(data[0], data[1]) == data[0] + 256 * data[1],
        le_u16(data[2], data[3]) == data[2] + 256 * data[3],
        is_type1_id(id) ==> {
            let n = d.decoded(id, data);
            &&& n.register(REG_MIN_CELL_VOLTAGE as int) == Some(le_u16(data[0], data[1]))
            &&& n.register(REG_MAX_CELL_VOLTAGE as int) == Some(le_u16(data[2], data[3]))
            &&& n.register(REG_MIN_TEMPERATURE as int) == Some(data[4] as u16)
            &&& n.register(REG_MAX_TEMPERATURE as int) == Some(data[5] as u16)
            &&& n.register(REG_BMS_INFO as int) == Some(data[6] as u16)
            &&& n.register(REG_SOC as int) == Some(data[7] as u16)
        },
        is_type2_id(id) ==> {
            let n = d.decoded(id, data);
            &&& n.register(REG_CURRENT as int) == Some(le_u16(data[0], data[1]))
            &&& n.register(REG_TOTAL_VOLTAGE as int) == Some(le_u16(data[2], data[3]))
            &&& n.register(REG_WARNING_1 as int) == Some(data[4] as u16)
            &&& n.register(REG_WARNING_2 as int) == Some(data[5] as u16)
            &&& n.register(REG_ERROR_1 as int) == Some(data[6] as u16)
            &&& n.register(REG_ERROR_2 as int) == Some(data[7] as u16)
        },
{
}

/// A frame whose payload is not eight bytes long is refused as an invalid
/// frame; `update_from_frame` then leaves the record unchanged.
pub proof fn lemma_bad_length_refused(d: BmsData, id: u32, data: Seq<u8>)
    requires
        data.len() != FRAME_LEN,
    ensures
        d.frame_result(id, data) is Err,
        d.frame_result(id, data)->Err_0.is_invalid_frame(),
{
}

/// A write to a control register of a value that fits in a byte succeeds
/// and the register then reads that value; a larger value is refused with
/// `IllegalDataValue` and `set_register` leaves the record unchanged.
pub proof fn lemma_control_write(d: BmsData, address: u16, value: u16)
    requires
        address == REG_ON || address == REG_QUIT,
    ensures
        value <= 255 ==> {
            &&& d.write_result(address as int, value) is Ok
            &&& d.write_result(address as int, value)->Ok_0.register(address as int) == Some(value)
        },
        value > 255 ==> d.write_result(address as int, value) == Err::<BmsData, ExceptionCode>(
            ExceptionCode::IllegalDataValue,
        ),
{
}

/// Writes to the read-only telemetry registers 1–12 are refused with
/// `IllegalFunction`; writes to any address outside 1–12 and 21–22 with
/// `IllegalDataAddress`.
pub proof fn lemma_refused_writes(d: BmsData, address: u16, value: u16)
    ensures
        REG_MIN_CELL_VOLTAGE <= address <= REG_ERROR_2 ==> d.write_result(address as int, value)
            == Err::<BmsData, ExceptionCode>(ExceptionCode::IllegalFunction),
        !(REG_MIN_CELL_VOLTAGE <= address <= REG_ERROR_2) && address != REG_ON && address
            != REG_QUIT ==> d.write_result(address as int, value) == Err::<BmsData, ExceptionCode>(
            ExceptionCode::IllegalDataAddress,
        ),
{
}

impl Default for BmsData {
    fn default() -> (r: BmsData)
        ensures
            r == BmsData::initial(),
    {
        BmsData {
            min_cell_voltage: Some(0),
            max_cell_voltage: Some(0),
            min_temperature: Some(0),
            max_temperature: Some(0),
            info: Some(UNKNOWN_STATUS),
            soc: Some(0),
            current: Some(0),
            total_voltage: Some(0),
            warning1: Some(0),
            warning2: Some(0),
            error1: Some(UNKNOWN_STATUS),
            error2: Some(UNKNOWN_STATUS),
            on: Some(0),
            quit: Some(0),
            control_frozen: false,
        }
    }
}

} // verus!
