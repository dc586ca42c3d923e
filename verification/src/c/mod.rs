//! The console layer and the plain data it exchanges with its host.

pub mod dev_vtty;
pub mod prelude;
pub mod utils;
pub mod vm;
