//! Core of a gateway between battery management units on a CAN bus and a
//! Modbus TCP supervisory network: the per-unit telemetry record and its
//! register map, CAN frame decoding, Modbus request handling, command
//! routing with debounce, and the inverter client's shutdown state machine.

pub mod can;
pub mod command;
pub mod data;
pub mod error;
pub mod gpio;
pub mod modbus_client;
pub mod modbus_server;
pub mod router;

pub use command::SystemCommand;
pub use data::{BmsData, CanFrame};
pub use error::{AppError, ExceptionCode};
