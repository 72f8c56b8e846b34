use vstd::prelude::*;

verus! {

/// A Modbus exception, returned to the Modbus caller in place of a response.
#[derive(Debug, Clone, Copy, PartialEq, Eq, Structural)]
pub enum ExceptionCode {
    IllegalFunction,
    IllegalDataAddress,
    IllegalDataValue,
    ServerDeviceFailure,
}

/// Errors of the gateway's core.
#[derive(Debug, Clone, Copy, PartialEq, Eq, Structural)]
pub enum AppError {
    /// A CAN or TCP transport failed.
    TransportIo,
    /// A CAN frame of a known identifier carried the wrong number of bytes.
    InvalidCanDataLength { can_id: u32, expected: usize, actual: usize },
    /// A CAN frame carried an identifier outside the two known families.
    UnsupportedCanId(u32),
    /// A Modbus peer answered with an exception.
    ProtocolException(ExceptionCode),
    /// A telemetry store's lock was poisoned by a failed writer.
    LockPoisoned,
    /// A command or fault source was torn down.
    ChannelClosed,
}

impl AppError {
    /// The frame could not be decoded: wrong length or unknown identifier.
    pub open spec fn is_invalid_frame(self) -> bool {
        self is InvalidCanDataLength || self is UnsupportedCanId
    }
}

} // verus!
