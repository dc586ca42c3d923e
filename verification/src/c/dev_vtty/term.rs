//! Terminal and serial line consoles: reading from the one handle.

use super::console::live;
use super::console::live_handles;
use super::Vtty;
use vstd::prelude::*;

verus! {

/// Terminal code.
pub struct VttyTerm;

impl VttyTerm {
    /// Read a character from the terminal.
    ///
    /// `got` is what the host read from the open handles of the console,
    /// tried in order. Returns the byte, or -1 where no handle gave one.
    pub fn read(vtty: &Vtty, got: Option<u8>) -> (c: i32)
        ensures
            c == (match got {
                Some(b) => b as i32,
                None => -1i32,
            }),
    {
        match got {
            Some(b) => b as i32,
            None => -1,
        }
    }

    /// The handles to read a character from, in order.
    pub fn read_handles(vtty: &Vtty) -> (fds: Vec<i32>)
        ensures
            fds@ == live(vtty@.fd_array),
    {
        live_handles(&vtty.fd_array)
    }
}

} // verus!
