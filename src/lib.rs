//! A driver for the Intel 8259A Programmable Interrupt Controller pair of the IBM PC/AT:
//! a master and a slave controller wired in cascade and reached through four I/O ports.
//!
//! Initialization is a chain of states, each consumed by the next step, so the four
//! initialization command words can only go out once each and in order. The controller
//! that comes out of it masks interrupts and, in the manual end-of-interrupt variant,
//! acknowledges them. Reading the request or in-service register goes through a wrapper
//! whose construction selects the register first.
//!
//! Every step states, over the sequence of port writes it makes, exactly what it sends.
pub mod driver;
pub mod init;
pub mod io;
pub mod raw;
pub mod recording;

pub use driver::{
    ChangeRegisterReadMode, LockedReadRegister, Pic, PicAEOI, PicMask, RegisterReadModeIRR,
    RegisterReadModeISR, SendEOI,
};
pub use init::{InterruptTriggerMode, PicInit, ICW2AndICW3, ICW4};
pub use io::{PortIO, PortIOAvailable, PortIOWrapper};
pub use recording::RecordingPortIO;
