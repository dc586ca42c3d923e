//! Virtual consoles for emulated devices, and two devices that use them.
//!
//! The crate holds the state and the rules of the console layer: the bounded
//! input queue and the replay ring of a console, the telnet and escape
//! sequence automaton that filters incoming bytes, the bookkeeping of
//! listening and accepted handles, the registry of live consoles and the
//! decisions of the polling cycle. Beside it stand the register models of a
//! dual UART, which talks to a console, and of an Ethernet transceiver.
//!
//! Nothing here touches a file descriptor or reads a clock: every function
//! takes what was read and the time it is, and returns what is to be
//! written.
#![allow(non_camel_case_types)]

pub mod c;
pub mod phy;
pub mod uart;
pub mod utils;
