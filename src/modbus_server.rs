use crate::command::SystemCommand;
use crate::data::{started, BmsData, REG_ON, REG_QUIT};
use crate::error::ExceptionCode;
use vstd::prelude::*;

verus! {

/// A Modbus request as the register server sees it.
#[derive(Debug, Clone)]
pub enum ModbusRequest {
    /// Read `count` holding registers from `address` on.
    ReadHoldingRegisters(u16, u16),
    /// Read `count` input registers from `address` on.
    ReadInputRegisters(u16, u16),
    /// Write one value to one register.
    WriteSingleRegister(u16, u16),
    /// Write values to consecutive registers from `address` on.
    WriteMultipleRegisters(u16, Vec<u16>),
    /// Any other operation, by its function code.
    Unsupported(u8),
}

impl ModbusRequest {
    /// Whether the request writes registers; any other request leaves the
    /// store as it is, so it can be served from a copy under a shared lock.
    pub fn modifies_store(&self) -> (r: bool)
        ensures
            r == (self is WriteSingleRegister || self is WriteMultipleRegisters),
    {
        match self {
            ModbusRequest::WriteSingleRegister(_, _) => true,
            ModbusRequest::WriteMultipleRegisters(_, _) => true,
            _ => false,
        }
    }
}

/// The answer to a request that succeeded.
#[derive(Debug, Clone)]
pub enum ModbusResponse {
    ReadHoldingRegisters(Vec<u16>),
    ReadInputRegisters(Vec<u16>),
    /// Echo of the address and value written.
    WriteSingleRegister(u16, u16),
    /// Echo of the first address and the number of registers written.
    WriteMultipleRegisters(u16, u16),
}

/// What a read reports at `address`: the mapped value, else 0; all zeros
/// while the unit has no record.
pub open spec fn register_or_zero(store: Option<BmsData>, address: int) -> u16 {
    match store {
        Some(d) => match d.register(address) {
            Some(v) => v,
            None => 0,
        },
        None => 0,
    }
}

/// The values a read of `count` registers from `address` on reports.
pub open spec fn read_values(store: Option<BmsData>, address: u16, count: u16) -> Seq<u16> {
    Seq::new(count as nat, |i: int| register_or_zero(store, address + i))
}

/// The command that a successful write of `value` to `address` raises:
/// register 21 turns the system on (non-zero) or off (zero), any write to
/// register 22 asks it to quit. Every accepted write raises one command.
pub open spec fn command_for_write(address: int, value: u16) -> Option<SystemCommand> {
    if address == REG_ON {
        if value != 0 {
            Some(SystemCommand::On)
        } else {
            Some(SystemCommand::Off)
        }
    } else if address == REG_QUIT {
        Some(SystemCommand::Quit)
    } else {
        None
    }
}

/// `command_for_write` as a sequence of zero or one commands.
pub open spec fn commands_of_write(address: int, value: u16) -> Seq<SystemCommand> {
    match command_for_write(address, value) {
        Some(c) => seq![c],
        None => Seq::empty(),
    }
}

/// Writes `values` to consecutive registers from `address` on, one at a
/// time, stopping at the first refused write. Gives the record after the
/// writes that went through, the commands they raised, and the exception
/// that stopped the run, if any.
pub open spec fn apply_writes(d: BmsData, address: int, values: Seq<u16>) -> (
    BmsData,
    Seq<SystemCommand>,
    Option<ExceptionCode>,
)
    decreases values.len(),
{
    if values.len() == 0 {
        (d, Seq::empty(), None)
    } else {
        match d.write_result(address, values[0]) {
            Err(e) => (d, Seq::empty(), Some(e)),
            Ok(next) => {
                let rest = apply_writes(next, address + 1, values.drop_first());
                (rest.0, commands_of_write(address, values[0]) + rest.1, rest.2)
            },
        }
    }
}

/// Through the server: a write of a byte-sized value to a control register
/// is acknowledged, raises exactly one command for the router (On or Off by
/// the value for register 21, Quit for register 22), and a later read of
/// that register reports the value; a
/// larger value is refused with `IllegalDataValue` and a later read reports
/// what it did before.
pub proof fn lemma_control_write_then_read(store: Option<BmsData>, address: u16, value: u16)
    requires
        address == REG_ON || address == REG_QUIT,
    ensures
        value <= 255 ==> {
            let w = started(store).write_result(address as int, value);
            &&& w is Ok
            &&& read_values(Some(w->Ok_0), address, 1) == seq![value]
            &&& commands_of_write(address as int, value).len() == 1
            &&& address == REG_QUIT ==> commands_of_write(address as int, value) == seq![
                SystemCommand::Quit,
            ]
        },
        value > 255 ==> {
            &&& started(store).write_result(address as int, value) == Err::<BmsData, ExceptionCode>(
                ExceptionCode::IllegalDataValue,
            )
            &&& read_values(Some(started(store)), address, 1) == read_values(store, address, 1)
        },
{
    if value <= 255 {
        let w = started(store).write_result(address as int, value);
        assert(read_values(Some(w->Ok_0), address, 1) =~= seq![value]);
    } else {
        assert(read_values(Some(started(store)), address, 1) =~= read_values(store, address, 1));
    }
}

/// A unit that has no record yet reads as zeros, whatever the range.
pub proof fn lemma_uninitialized_reads_zero(address: u16, count: u16)
    ensures
        read_values(None, address, count) == Seq::new(count as nat, |i: int| 0u16),
{
    assert(read_values(None, address, count) =~= Seq::new(count as nat, |i: int| 0u16));
}

/// The command a write raises, as `command_for_write` states it.
pub fn write_command(address: u16, value: u16) -> (r: Option<SystemCommand>)
    ensures
        r == command_for_write(address as int, value),
{
    if address == REG_ON {
        if value != 0 {
            Some(SystemCommand::On)
        } else {
            Some(SystemCommand::Off)
        }
    } else if address == REG_QUIT {
        Some(SystemCommand::Quit)
    } else {
        None
    }
}

/// Reads `count` registers from `address` on.
pub fn read_registers(store: &Option<BmsData>, address: u16, count: u16) -> (r: Vec<u16>)
    ensures
        r@ == read_values(*store, address, count),
{
    let mut values: Vec<u16> = Vec::new();
    let mut i: u32 = 0;
    while i < count as u32
        invariant
            i <= count,
            values@ =~= Seq::new(i as nat, |j: int| register_or_zero(*store, address + j)),
        decreases count - i,
    {
        let current: u32 = address as u32 + i;
        let value: u16 = match store {
            Some(d) => {
                if current <= 0xFFFF {
                    match d.get_register(current as u16) {
                        Some(v) => v,
                        None => 0,
                    }
                } else {
                    0
                }
            },
            None => 0,
        };
        values.push(value);
        i = i + 1;
    }
    values
}

/// Writes `values` to consecutive registers of `data` from `address` on,
/// as `apply_writes` states it; the commands raised are appended to
/// `commands`.
pub fn write_registers(
    data: &mut BmsData,
    address: u16,
    values: &Vec<u16>,
    commands: &mut Vec<SystemCommand>,
) -> (r: Result<(), ExceptionCode>)
    ensures
        ({
            let o = apply_writes(*old(data), address as int, values@);
            &&& *final(data) == o.0
            &&& final(commands)@ == old(commands)@ + o.1
            &&& match o.2 {
                None => r == Ok::<(), ExceptionCode>(()),
                Some(e) => r == Err::<(), ExceptionCode>(e),
            }
        }),
{
    let ghost whole = apply_writes(*data, address as int, values@);
    let ghost commands0 = commands@;
    let n = values.len();
    let mut i: usize = 0;
    proof {
        assert(values@.skip(0) =~= values@);
        assert(commands@.skip(commands0.len() as int) =~= Seq::<SystemCommand>::empty());
        assert(commands@.take(commands0.len() as int) =~= commands0);
    }
    while i < n
        invariant
            i <= n,
            n == values@.len(),
            whole == apply_writes(*old(data), address as int, values@),
            commands0 == old(commands)@,
            ({
                let rest = apply_writes(*data, address + i, values@.skip(i as int));
                &&& whole.0 == rest.0
                &&& whole.1 == commands@.skip(commands0.len() as int) + rest.1
                &&& whole.2 == rest.2
            }),
            commands0.len() <= commands@.len(),
            commands@.take(commands0.len() as int) == commands0,
        decreases n - i,
    {
        let ghost tail = values@.skip(i as int);
        assert(tail.drop_first() =~= values@.skip(i + 1));
        assert(tail[0] == values@[i as int]);
        let value = values[i];
        if i > 0xFFFF - address as usize {
            proof {
                assert(address + i > 0xFFFF);
            }
            return Err(ExceptionCode::IllegalDataAddress);
        }
        let current: u16 = address + i as u16;
        let ghost before = commands@;
        match data.set_register(current, value) {
            Ok(()) => {
                match write_command(current, value) {
                    Some(c) => commands.push(c),
                    None => {},
                }
                proof {
                    let c = commands_of_write(address + i, value);
                    assert(commands@ =~= before + c);
                    assert(commands@.skip(commands0.len() as int) =~= before.skip(commands0.len() as int) + c);
                    assert(commands@.take(commands0.len() as int) =~= before.take(commands0.len() as int));
                }
            },
            Err(e) => {
                return Err(e);
            },
        }
        i = i + 1;
    }
    proof {
        assert(values@.skip(n as int) =~= Seq::<u16>::empty());
        assert(commands@ =~= commands0 + commands@.skip(commands0.len() as int));
    }
    Ok(())
}

/// Answers one Modbus request against a unit's store; also gives the
/// commands that the request's writes raise, in order.
///
/// Reads report the mapped values (zero where nothing is mapped, all zeros
/// while the unit has no record) and change nothing. Writes start from the
/// unit's record, or a fresh one, and keep what went through; a refused
/// write is answered with its exception. Other operations are refused with
/// `IllegalFunction`.
pub fn handle_request(store: &mut Option<BmsData>, req: &ModbusRequest) -> (r: (
    Result<ModbusResponse, ExceptionCode>,
    Vec<SystemCommand>,
))
    ensures
        match *req {
            ModbusRequest::ReadHoldingRegisters(address, count) => {
                &&& *final(store) == *old(store)
                &&& r.1@.len() == 0
                &&& r.0 matches Ok(ModbusResponse::ReadHoldingRegisters(v))
                &&& v@ == read_values(*old(store), address, count)
            },
            ModbusRequest::ReadInputRegisters(address, count) => {
                &&& *final(store) == *old(store)
                &&& r.1@.len() == 0
                &&& r.0 matches Ok(ModbusResponse::ReadInputRegisters(v))
                &&& v@ == read_values(*old(store), address, count)
            },
            ModbusRequest::WriteSingleRegister(address, value) => {
                let d = started(*old(store));
                match d.write_result(address as int, value) {
                    Ok(next) => {
                        &&& *final(store) == Some(next)
                        &&& r.0 == Ok::<ModbusResponse, ExceptionCode>(
                            ModbusResponse::WriteSingleRegister(address, value),
                        )
                        &&& r.1@ == commands_of_write(address as int, value)
                    },
                    Err(e) => {
                        &&& *final(store) == Some(d)
                        &&& r.0 == Err::<ModbusResponse, ExceptionCode>(e)
                        &&& r.1@.len() == 0
                    },
                }
            },
            ModbusRequest::WriteMultipleRegisters(address, values) => {
                let o = apply_writes(started(*old(store)), address as int, values@);
                &&& *final(store) == Some(o.0)
                &&& r.1@ == o.1
                &&& match o.2 {
                    None => r.0 == Ok::<ModbusResponse, ExceptionCode>(
                        ModbusResponse::WriteMultipleRegisters(address, values@.len() as u16),
                    ),
                    Some(e) => r.0 == Err::<ModbusResponse, ExceptionCode>(e),
                }
            },
            ModbusRequest::Unsupported(_) => {
                &&& *final(store) == *old(store)
                &&& r.0 == Err::<ModbusResponse, ExceptionCode>(ExceptionCode::IllegalFunction)
                &&& r.1@.len() == 0
            },
        },
{
    let mut commands: Vec<SystemCommand> = Vec::new();
    match req {
        ModbusRequest::ReadHoldingRegisters(address, count) => {
            let values = read_registers(store, *address, *count);
            (Ok(ModbusResponse::ReadHoldingRegisters(values)), commands)
        },
        ModbusRequest::ReadInputRegisters(address, count) => {
            let values = read_registers(store, *address, *count);
            (Ok(ModbusResponse::ReadInputRegisters(values)), commands)
        },
        ModbusRequest::WriteSingleRegister(address, value) => {
            let mut data = match store {
                Some(d) => *d,
                None => BmsData::default(),
            };
            let result = data.set_register(*address, *value);
            *store = Some(data);
            match result {
                Ok(()) => {
                    match write_command(*address, *value) {
                        Some(c) => commands.push(c),
                        None => {},
                    }
                    proof {
                        assert(commands@ =~= commands_of_write(*address as int, *value));
                    }
                    (Ok(ModbusResponse::WriteSingleRegister(*address, *value)), commands)
                },
                Err(e) => (Err(e), commands),
            }
        },
        ModbusRequest::WriteMultipleRegisters(address, values) => {
            let mut data = match store {
                Some(d) => *d,
                None => BmsData::default(),
            };
            let result = write_registers(&mut data, *address, values, &mut commands);
            *store = Some(data);
            proof {
                assert(commands@ =~= Seq::<SystemCommand>::empty() + commands@);
            }
            match result {
                Ok(()) => (
                    Ok(ModbusResponse::WriteMultipleRegisters(*address, values.len() as u16)),
                    commands,
                ),
                Err(e) => (Err(e), commands),
            }
        },
        ModbusRequest::Unsupported(_) => (Err(ExceptionCode::IllegalFunction), commands),
    }
}

} // verus!
