use crate::command::SystemCommand;
use crate::data::{
    is_type2_id, started, BmsData, CanFrame, CAN_ID_TYPE1_UNIT1, CAN_ID_TYPE1_UNIT2,
    CAN_ID_TYPE2_UNIT1, CAN_ID_TYPE2_UNIT2,
};
use crate::error::AppError;
use vstd::prelude::*;

verus! {

/// Identifier of the outbound frame that switches the system on or off.
pub const CAN_ID_POWER_COMMAND: u32 = 0xA300;
/// Identifier of the outbound frame that asks the system to quit.
pub const CAN_ID_QUIT_COMMAND: u32 = 0xA100;
/// Filler byte of outbound command payloads.
pub const COMMAND_FILL: u8 = 0x0B;
/// Marker byte that opens the payload of the On and Quit commands.
pub const COMMAND_MARK: u8 = 0x20;

/// Whether a decoded frame reports a fault: a frame of the second type with
/// a non-zero error byte.
pub open spec fn reports_fault(id: u32, data: Seq<u8>) -> bool {
    is_type2_id(id) && (data[6] != 0 || data[7] != 0)
}

/// The two identifiers that unit `bms_id` sends on: first type, second type.
pub open spec fn unit_ids(bms_id: u8) -> (u32, u32) {
    if bms_id == 1 {
        (CAN_ID_TYPE1_UNIT1, CAN_ID_TYPE2_UNIT1)
    } else {
        (CAN_ID_TYPE1_UNIT2, CAN_ID_TYPE2_UNIT2)
    }
}

/// The identifier of the outbound frame for `command`.
pub open spec fn command_id(command: SystemCommand) -> u32 {
    match command {
        SystemCommand::Quit => CAN_ID_QUIT_COMMAND,
        _ => CAN_ID_POWER_COMMAND,
    }
}

/// The 8-byte payload of the outbound frame for `command`: all filler for
/// Off, two marker bytes then filler for On and Quit.
pub open spec fn command_payload(command: SystemCommand) -> Seq<u8> {
    Seq::new(
        8,
        |i: int|
            if i < 2 && !(command is Off) {
                COMMAND_MARK
            } else {
                COMMAND_FILL
            },
    )
}

/// The identifiers that the receive filter of unit `bms_id` lets through.
pub fn unit_can_ids(bms_id: u8) -> (r: (u32, u32))
    ensures
        r == unit_ids(bms_id),
{
    if bms_id == 1 {
        (CAN_ID_TYPE1_UNIT1, CAN_ID_TYPE2_UNIT1)
    } else {
        (CAN_ID_TYPE1_UNIT2, CAN_ID_TYPE2_UNIT2)
    }
}

/// Takes a received frame into a unit's store. On success the store holds
/// the decoded record (a fresh one if it had none) and the result says
/// whether a fault signal is owed; on failure the store is unchanged.
pub fn ingest_frame(store: &mut Option<BmsData>, frame: &CanFrame) -> (r: Result<bool, AppError>)
    ensures
        match started(*old(store)).frame_result(frame.id, frame.data@) {
            Ok(d) => {
                &&& *final(store) == Some(d)
                &&& r == Ok::<bool, AppError>(reports_fault(frame.id, frame.data@))
            },
            Err(e) => {
                &&& *final(store) == *old(store)
                &&& r == Err::<bool, AppError>(e)
            },
        },
{
    let mut data = match store {
        Some(d) => *d,
        None => BmsData::default(),
    };
    match data.update_from_frame(frame) {
        Ok(()) => {
            *store = Some(data);
            let id = frame.id;
            let fault = (id == CAN_ID_TYPE2_UNIT1 || id == CAN_ID_TYPE2_UNIT2) && (frame.data[6] != 0
                || frame.data[7] != 0);
            Ok(fault)
        },
        Err(e) => Err(e),
    }
}

/// Whether the transmitter stops after sending `command`: it does after
/// Quit.
pub fn ends_transmission(command: SystemCommand) -> (r: bool)
    ensures
        r == (command is Quit),
{
    match command {
        SystemCommand::Quit => true,
        _ => false,
    }
}

/// The outbound frame that carries `command` to the devices on the bus.
pub fn command_frame(command: SystemCommand) -> (r: CanFrame)
    ensures
        r.id == command_id(command),
        r.data@ == command_payload(command),
{
    let (id, first) = match command {
        SystemCommand::Off => (CAN_ID_POWER_COMMAND, COMMAND_FILL),
        SystemCommand::On => (CAN_ID_POWER_COMMAND, COMMAND_MARK),
        SystemCommand::Quit => (CAN_ID_QUIT_COMMAND, COMMAND_MARK),
    };
    let mut data: Vec<u8> = Vec::new();
    let mut i: usize = 0;
    while i < 8
        invariant
            i <= 8,
            first == (if command is Off { COMMAND_FILL } else { COMMAND_MARK }),
            data@ =~= command_payload(command).take(i as int),
        decreases 8 - i,
    {
        if i < 2 {
            data.push(first);
        } else {
            data.push(COMMAND_FILL);
        }
        i = i + 1;
    }
    proof {
        assert(command_payload(command).take(8) =~= command_payload(command));
    }
    CanFrame { id, data }
}

} // verus!
