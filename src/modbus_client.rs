use crate::command::SystemCommand;
use vstd::prelude::*;

verus! {

/// Inverter registers that the OFF sequence writes, in order, and the
/// values it writes to them.
pub const INVERTER_REG_MODE: u16 = 40231;
pub const INVERTER_REG_UNKNOWN1: u16 = 40191;
pub const INVERTER_REG_UNKNOWN2: u16 = 40187;
pub const INVERTER_OFF_MODE_VALUE: u16 = 3;
pub const INVERTER_OFF_UNKNOWN1_VALUE: u16 = 0;
pub const INVERTER_OFF_UNKNOWN2_VALUE: u16 = 0;
/// Number of writes in the OFF sequence.
pub const OFF_SEQUENCE_LEN: u8 = 3;
/// Register that the keepalive probe reads.
pub const KEEPALIVE_REGISTER: u16 = 40070;
/// Modbus unit identifier of the inverters.
pub const SLAVE_ID: u8 = 1;
/// Wait before a new connection attempt after a failed one.
pub const RECONNECT_BACKOFF_MS: u64 = 5000;
/// Pause between two writes of the OFF sequence.
pub const WRITE_PACING_MS: u64 = 50;
/// Idle time after which the connection is probed.
pub const KEEPALIVE_INTERVAL_MS: u64 = 30000;

/// Where the client stands.
#[derive(Debug, Clone, Copy, PartialEq, Eq, Structural)]
pub enum ClientPhase {
    /// No connection; one is to be attempted.
    Disconnected,
    /// The last attempt failed; waiting out the backoff.
    BackingOff,
    /// Connected and waiting for a command, a fault or the keepalive timer.
    Connected,
    /// Waiting for the result of the OFF sequence's write of that index.
    Writing(u8),
    /// Pausing after the OFF sequence's write of that index.
    Pausing(u8),
    /// Waiting for the result of the keepalive read.
    Probing,
    /// The command source is gone; the client has finished.
    Stopped,
}

/// What the surrounding runtime reports back to the client.
#[derive(Debug, Clone, Copy, PartialEq, Eq, Structural)]
pub enum ClientEvent {
    ConnectOk,
    ConnectFailed,
    /// A sleep that the client asked for is over.
    TimerElapsed,
    /// A routed command arrived.
    Command(SystemCommand),
    /// The paired unit reported a fault.
    Fault,
    /// The fault source is gone for good.
    FaultsClosed,
    /// The command source is gone for good.
    CommandsClosed,
    /// The keepalive interval passed without another event.
    KeepaliveDue,
    WriteOk,
    WriteFailed,
    ReadOk,
    ReadFailed,
}

/// What the client asks the surrounding runtime to do next.
#[derive(Debug, Clone, Copy, PartialEq, Eq, Structural)]
pub enum ClientAction {
    /// Open a connection to the inverter.
    Connect,
    /// Sleep for the given number of milliseconds.
    Sleep(u64),
    /// Wait for a command, a fault (only while the fault source is open) or
    /// the keepalive interval, in that priority.
    AwaitEvents { faults_open: bool },
    /// Write a value to a holding register.
    WriteRegister(u16, u16),
    /// Read a number of holding registers from an address on.
    ReadRegisters(u16, u16),
    /// Finish the client.
    Exit,
}

/// Inverter client: a state machine that the runtime feeds with events and
/// whose actions it carries out.
#[derive(Debug, Clone, Copy, PartialEq, Eq, Structural)]
pub struct InverterClient {
    pub phase: ClientPhase,
    /// Whether the fault source is still open.
    pub faults_open: bool,
}

/// The write of the OFF sequence at index `k` (the last for any `k` past it).
pub open spec fn off_write(k: u8) -> ClientAction {
    if k == 0 {
        ClientAction::WriteRegister(INVERTER_REG_MODE, INVERTER_OFF_MODE_VALUE)
    } else if k == 1 {
        ClientAction::WriteRegister(INVERTER_REG_UNKNOWN1, INVERTER_OFF_UNKNOWN1_VALUE)
    } else {
        ClientAction::WriteRegister(INVERTER_REG_UNKNOWN2, INVERTER_OFF_UNKNOWN2_VALUE)
    }
}

impl InverterClient {
    /// The action that the client's phase waits on.
    pub open spec fn pending(self) -> ClientAction {
        match self.phase {
            ClientPhase::Disconnected => ClientAction::Connect,
            ClientPhase::BackingOff => ClientAction::Sleep(RECONNECT_BACKOFF_MS),
            ClientPhase::Connected => ClientAction::AwaitEvents { faults_open: self.faults_open },
            ClientPhase::Writing(k) => off_write(k),
            ClientPhase::Pausing(_) => ClientAction::Sleep(WRITE_PACING_MS),
            ClientPhase::Probing => ClientAction::ReadRegisters(KEEPALIVE_REGISTER, 1),
            ClientPhase::Stopped => ClientAction::Exit,
        }
    }

    /// The client after `event`. A failed connection backs off and retries;
    /// an Off command or a fault starts the OFF sequence, whose writes are
    /// paced and of which any failure drops the connection; On and Quit
    /// change nothing; a failed keepalive read drops the connection; the
    /// end of the command source stops the client. An event that the phase
    /// does not wait for changes nothing.
    pub open spec fn next(self, event: ClientEvent) -> InverterClient {
        match (self.phase, event) {
            (ClientPhase::Disconnected, ClientEvent::ConnectOk) => InverterClient {
                phase: ClientPhase::Connected,
                ..self
            },
            (ClientPhase::Disconnected, ClientEvent::ConnectFailed) => InverterClient {
                phase: ClientPhase::BackingOff,
                ..self
            },
            (ClientPhase::BackingOff, ClientEvent::TimerElapsed) => InverterClient {
                phase: ClientPhase::Disconnected,
                ..self
            },
            (ClientPhase::Connected, ClientEvent::Command(SystemCommand::Off)) => InverterClient {
                phase: ClientPhase::Writing(0),
                ..self
            },
            (ClientPhase::Connected, ClientEvent::Fault) => InverterClient {
                phase: ClientPhase::Writing(0),
                ..self
            },
            (ClientPhase::Connected, ClientEvent::FaultsClosed) => InverterClient {
                faults_open: false,
                ..self
            },
            (ClientPhase::Connected, ClientEvent::CommandsClosed) => InverterClient {
                phase: ClientPhase::Stopped,
                ..self
            },
            (ClientPhase::Connected, ClientEvent::KeepaliveDue) => InverterClient {
                phase: ClientPhase::Probing,
                ..self
            },
            (ClientPhase::Writing(k), ClientEvent::WriteOk) => InverterClient {
                phase: if k + 1 < OFF_SEQUENCE_LEN {
                    ClientPhase::Pausing(k)
                } else {
                    ClientPhase::Connected
                },
                ..self
            },
            (ClientPhase::Writing(_), ClientEvent::WriteFailed) => InverterClient {
                phase: ClientPhase::Disconnected,
                ..self
            },
            (ClientPhase::Pausing(k), ClientEvent::TimerElapsed) => InverterClient {
                phase: if k + 1 < OFF_SEQUENCE_LEN {
                    ClientPhase::Writing((k + 1) as u8)
                } else {
                    ClientPhase::Connected
                },
                ..self
            },
            (ClientPhase::Probing, ClientEvent::ReadOk) => InverterClient {
                phase: ClientPhase::Connected,
                ..self
            },
            (ClientPhase::Probing, ClientEvent::ReadFailed) => InverterClient {
                phase: ClientPhase::Disconnected,
                ..self
            },
            _ => self,
        }
    }

    /// The client after `events`, one after another, and the action it gave
    /// after each.
    pub open spec fn run(self, events: Seq<ClientEvent>) -> (InverterClient, Seq<ClientAction>)
        decreases events.len(),
    {
        if events.len() == 0 {
            (self, Seq::empty())
        } else {
            let after = self.next(events[0]);
            let rest = after.run(events.drop_first());
            (rest.0, seq![after.pending()] + rest.1)
        }
    }

    /// A client that has not connected yet, listening to both sources.
    pub fn new() -> (r: InverterClient)
        ensures
            r == (InverterClient { phase: ClientPhase::Disconnected, faults_open: true }),
    {
        InverterClient { phase: ClientPhase::Disconnected, faults_open: true }
    }

    /// The action that the client waits on.
    pub fn pending_action(&self) -> (r: ClientAction)
        ensures
            r == self.pending(),
    {
        match self.phase {
            ClientPhase::Disconnected => ClientAction::Connect,
            ClientPhase::BackingOff => ClientAction::Sleep(RECONNECT_BACKOFF_MS),
            ClientPhase::Connected => ClientAction::AwaitEvents { faults_open: self.faults_open },
            ClientPhase::Writing(k) => {
                if k == 0 {
                    ClientAction::WriteRegister(INVERTER_REG_MODE, INVERTER_OFF_MODE_VALUE)
                } else if k == 1 {
                    ClientAction::WriteRegister(INVERTER_REG_UNKNOWN1, INVERTER_OFF_UNKNOWN1_VALUE)
                } else {
                    ClientAction::WriteRegister(INVERTER_REG_UNKNOWN2, INVERTER_OFF_UNKNOWN2_VALUE)
                }
            },
            ClientPhase::Pausing(_) => ClientAction::Sleep(WRITE_PACING_MS),
            ClientPhase::Probing => ClientAction::ReadRegisters(KEEPALIVE_REGISTER, 1),
            ClientPhase::Stopped => ClientAction::Exit,
        }
    }

    /// Takes in `event` and gives the action to carry out next.
    pub fn step(&mut self, event: ClientEvent) -> (r: ClientAction)
        ensures
            *final(self) == old(self).next(event),
            r == final(self).pending(),
    {
        let phase = match (self.phase, event) {
            (ClientPhase::Disconnected, ClientEvent::ConnectOk) => ClientPhase::Connected,
            (ClientPhase::Disconnected, ClientEvent::ConnectFailed) => ClientPhase::BackingOff,
            (ClientPhase::BackingOff, ClientEvent::TimerElapsed) => ClientPhase::Disconnected,
            (ClientPhase::Connected, ClientEvent::Command(SystemCommand::Off)) => ClientPhase::Writing(
                0,
            ),
            (ClientPhase::Connected, ClientEvent::Fault) => ClientPhase::Writing(0),
            (ClientPhase::Connected, ClientEvent::FaultsClosed) => {
                self.faults_open = false;
                ClientPhase::Connected
            },
            (ClientPhase::Connected, ClientEvent::CommandsClosed) => ClientPhase::Stopped,
            (ClientPhase::Connected, ClientEvent::KeepaliveDue) => ClientPhase::Probing,
            (ClientPhase::Writing(k), ClientEvent::WriteOk) => {
                if k < OFF_SEQUENCE_LEN - 1 {
                    ClientPhase::Pausing(k)
                } else {
                    ClientPhase::Connected
                }
            },
            (ClientPhase::Writing(_), ClientEvent::WriteFailed) => ClientPhase::Disconnected,
            (ClientPhase::Pausing(k), ClientEvent::TimerElapsed) => {
                if k < OFF_SEQUENCE_LEN - 1 {
                    ClientPhase::Writing(k + 1)
                } else {
                    ClientPhase::Connected
                }
            },
            (ClientPhase::Probing, ClientEvent::ReadOk) => ClientPhase::Connected,
            (ClientPhase::Probing, ClientEvent::ReadFailed) => ClientPhase::Disconnected,
            (phase, _) => phase,
        };
        self.phase = phase;
        self.pending_action()
    }
}

/// The events with which the runtime answers a completed OFF sequence after
/// `start`: each write succeeds and each pause runs out.
pub open spec fn off_sequence_events(start: ClientEvent) -> Seq<ClientEvent> {
    seq![
        start,
        ClientEvent::WriteOk,
        ClientEvent::TimerElapsed,
        ClientEvent::WriteOk,
        ClientEvent::TimerElapsed,
        ClientEvent::WriteOk,
    ]
}

/// A connected client that gets an Off command, or a fault signal whatever
/// the state of the router, carries out the OFF sequence: the mode register
/// is set to 3, then the two further registers to 0, with a pause between
/// writes, after which the client is connected and waiting again.
pub proof fn lemma_off_sequence(c: InverterClient, start: ClientEvent)
    requires
        c.phase == ClientPhase::Connected,
        start == ClientEvent::Fault || start == ClientEvent::Command(SystemCommand::Off),
    ensures
        c.run(off_sequence_events(start)) == (
            c,
            seq![
                ClientAction::WriteRegister(INVERTER_REG_MODE, INVERTER_OFF_MODE_VALUE),
                ClientAction::Sleep(WRITE_PACING_MS),
                ClientAction::WriteRegister(INVERTER_REG_UNKNOWN1, INVERTER_OFF_UNKNOWN1_VALUE),
                ClientAction::Sleep(WRITE_PACING_MS),
                ClientAction::WriteRegister(INVERTER_REG_UNKNOWN2, INVERTER_OFF_UNKNOWN2_VALUE),
                ClientAction::AwaitEvents { faults_open: c.faults_open },
            ],
        ),
{
    let events = off_sequence_events(start);
    reveal_with_fuel(InverterClient::run, 7);
    let c1 = c.next(events[0]);
    let c2 = c1.next(events[1]);
    let c3 = c2.next(events[2]);
    let c4 = c3.next(events[3]);
    let c5 = c4.next(events[4]);
    let c6 = c5.next(events[5]);
    assert(events.drop_first() =~= seq![events[1], events[2], events[3], events[4], events[5]]);
    assert(events.drop_first().drop_first() =~= seq![events[2], events[3], events[4], events[5]]);
    assert(events.drop_first().drop_first().drop_first() =~= seq![events[3], events[4], events[5]]);
    assert(events.drop_first().drop_first().drop_first().drop_first() =~= seq![events[4], events[5]]);
    assert(events.drop_first().drop_first().drop_first().drop_first().drop_first() =~= seq![events[5]]);
    assert(seq![events[5]].drop_first() =~= Seq::<ClientEvent>::empty());
    assert(c6 == c);
    assert(c.run(events).1 =~= seq![
        c1.pending(),
        c2.pending(),
        c3.pending(),
        c4.pending(),
        c5.pending(),
        c6.pending(),
    ]);
}

/// A write of the OFF sequence that fails drops the connection, and the
/// client asks for a new one.
pub proof fn lemma_failed_write_reconnects(c: InverterClient, k: u8)
    requires
        c.phase == ClientPhase::Writing(k),
    ensures
        c.next(ClientEvent::WriteFailed).phase == ClientPhase::Disconnected,
        c.next(ClientEvent::WriteFailed).pending() == ClientAction::Connect,
{
}

} // verus!
