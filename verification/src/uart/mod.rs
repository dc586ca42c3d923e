//! Serial communication stuff

pub mod channel;
pub mod fifo;
pub mod memory;
pub mod ns16552;
pub mod registers;
