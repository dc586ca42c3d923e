//! Virtual TTY: one console of an emulated device.

pub mod action;
pub mod console;
pub mod input;
pub mod poll;
pub mod registry;
pub mod ring;
pub mod serial;
pub mod tcp;
pub mod term;
pub mod text;

pub use action::VttyAction;
pub use action::VttyActionView;
pub use console::vtty_flush;
pub use console::vtty_get_char;
pub use console::vtty_is_char_avail;
pub use console::vtty_put_buffer;
pub use console::vtty_put_char;
pub use console::vtty_read;
pub use console::vtty_read_and_store;
pub use console::vtty_store;
pub use console::vtty_store_ctrlc;
pub use console::vtty_store_data;
pub use input::VttyEffect;
pub use poll::VttyVisit;
pub use poll::VTTY_POLL_MS;
pub use registry::vtty_backend;
pub use registry::vtty_create;
pub use registry::vtty_delete;
pub use registry::vtty_init;
pub use registry::vtty_set_ctrlhandler;
pub use registry::vtty_set_telnetmsg;
pub use registry::VttyBackend;
pub use registry::VttyError;
pub use registry::VttyRegistry;
pub use serial::vtty_parse_serial_option;
pub use serial::vtty_serial_option_t;
pub use serial::SerialError;
pub use serial::SerialLine;
pub use serial::SerialParity;
pub use serial::VttySerial;
pub use serial::VttySerialOption;
pub use tcp::VttyTcp;
pub use term::VttyTerm;

use crate::c::utils::FD_POOL_MAX;
use circular_buffer::CircularBuffer;
use ring::ring_bytes;
use ring::ring_new;
use vstd::prelude::*;

verus! {

/// 4 Kb should be enough for a keyboard buffer
pub const VTTY_BUFFER_SIZE: usize = 4096;

/// Maximum listening socket number
pub const VTTY_MAX_FD: usize = 10;

/// VTTY connection types
#[derive(Debug, Clone, Copy, PartialEq, Eq, Structural)]
pub enum VttyType {
    /// No backend: output only reaches the replay ring.
    Null,
    Term,
    Tcp,
    Serial,
}

pub const VTTY_TYPE_NONE: i32 = 0;
pub const VTTY_TYPE_TERM: i32 = 1;
pub const VTTY_TYPE_TCP: i32 = 2;
pub const VTTY_TYPE_SERIAL: i32 = 3;

impl Default for VttyType {
    fn default() -> (t: Self)
        ensures
            t == VttyType::Null,
    {
        VttyType::Null
    }
}

/// VTTY input states
#[derive(Debug, Clone, Copy, PartialEq, Eq, Structural)]
pub enum VttyInput {
    Text,
    Vt1,
    Vt2,
    Remote,
    Telnet,
    TelnetIyou(u8),
    TelnetSb1(u8),
    TelnetSb2(u8, u8),
    TelnetSbTtype(u8, u8, u8),
    TelnetNext,
}

impl Default for VttyInput {
    fn default() -> (s: Self)
        ensures
            s == VttyInput::Text,
    {
        VttyInput::Text
    }
}

/// What the owning device attaches to a console.
#[derive(Debug, Clone, Copy, PartialEq, Eq, Structural)]
pub struct virtual_tty {
    /// Handle of the machine that owns the console.
    pub vm: usize,
    /// Non-zero where the device decides itself when output is flushed.
    pub managed_flush: i32,
    /// Private data of the device.
    pub priv_data: usize,
    /// Argument of the device.
    pub user_arg: u64,
    /// Read notification: the token of the callback to run when input has
    /// arrived, if there is one.
    pub read_notifier: Option<usize>,
}

pub type vtty_t = virtual_tty;

impl virtual_tty {
    pub fn new() -> (c: Self)
        ensures
            c == (virtual_tty {
                vm: 0,
                managed_flush: 0,
                priv_data: 0,
                user_arg: 0,
                read_notifier: None,
            }),
    {
        Self { vm: 0, managed_flush: 0, priv_data: 0, user_arg: 0, read_notifier: None }
    }
}

impl Default for virtual_tty {
    fn default() -> (c: Self)
        ensures
            c == (virtual_tty {
                vm: 0,
                managed_flush: 0,
                priv_data: 0,
                user_arg: 0,
                read_notifier: None,
            }),
    {
        Self::new()
    }
}

/// Virtual TTY
#[derive(Debug)]
pub struct Vtty {
    /// Identity of the console in the registry; 0 until it is registered.
    pub id: u64,
    pub c: virtual_tty,
    pub name: String,
    pub type_: VttyType,
    pub tcp_port: u16,
    pub terminal_support: bool,
    pub input_pending: bool,
    pub input_state: VttyInput,
    /// Listening handles of a TCP console, the one handle of a terminal or
    /// of a serial line; -1 marks a slot that is closed.
    pub fd_array: Vec<i32>,
    /// FD Pool (for TCP connections)
    pub fd_pool: Vec<i32>,
    pub buffer: CircularBuffer<VTTY_BUFFER_SIZE, u8>,
    /// Old text for replay
    pub replay_buffer: CircularBuffer<VTTY_BUFFER_SIZE, u8>,
}

/// A console as a mathematical value: every field by its view, each buffer
/// by the bytes it holds, oldest first.
pub struct VttyView {
    pub id: u64,
    pub c: virtual_tty,
    pub name: Seq<char>,
    pub type_: VttyType,
    pub tcp_port: u16,
    pub terminal_support: bool,
    pub input_pending: bool,
    pub input_state: VttyInput,
    pub fd_array: Seq<i32>,
    pub fd_pool: Seq<i32>,
    pub buffer: Seq<u8>,
    pub replay_buffer: Seq<u8>,
}

impl View for Vtty {
    type V = VttyView;

    open spec fn view(&self) -> VttyView {
        VttyView {
            id: self.id,
            c: self.c,
            name: self.name@,
            type_: self.type_,
            tcp_port: self.tcp_port,
            terminal_support: self.terminal_support,
            input_pending: self.input_pending,
            input_state: self.input_state,
            fd_array: self.fd_array@,
            fd_pool: self.fd_pool@,
            buffer: ring_bytes(self.buffer),
            replay_buffer: ring_bytes(self.replay_buffer),
        }
    }
}

impl VttyView {
    /// Whether the console is sound: neither buffer holds more than
    /// `VTTY_BUFFER_SIZE` bytes, and the pool of clients holds no more than
    /// `FD_POOL_MAX` handles.
    pub open spec fn wf(self) -> bool {
        &&& self.buffer.len() <= VTTY_BUFFER_SIZE
        &&& self.replay_buffer.len() <= VTTY_BUFFER_SIZE
        &&& self.fd_pool.len() <= FD_POOL_MAX
    }

    /// A console of no type, with no handle, empty buffers and the automaton
    /// in the text state.
    pub open spec fn fresh() -> VttyView {
        VttyView {
            id: 0,
            c: virtual_tty {
                vm: 0,
                managed_flush: 0,
                priv_data: 0,
                user_arg: 0,
                read_notifier: None,
            },
            name: Seq::empty(),
            type_: VttyType::Null,
            tcp_port: 0,
            terminal_support: false,
            input_pending: false,
            input_state: VttyInput::Text,
            fd_array: Seq::empty(),
            fd_pool: Seq::empty(),
            buffer: Seq::empty(),
            replay_buffer: Seq::empty(),
        }
    }
}

impl Vtty {
    pub fn new() -> (vtty: Self)
        ensures
            vtty@ == VttyView::fresh(),
            vtty@.wf(),
    {
        Vtty {
            id: 0,
            c: virtual_tty::new(),
            name: String::new(),
            type_: VttyType::Null,
            tcp_port: 0,
            terminal_support: false,
            input_pending: false,
            input_state: VttyInput::Text,
            fd_array: Vec::new(),
            fd_pool: Vec::new(),
            buffer: ring_new(),
            replay_buffer: ring_new(),
        }
    }
}

impl Default for Vtty {
    fn default() -> (vtty: Self)
        ensures
            vtty@ == VttyView::fresh(),
            vtty@.wf(),
    {
        Self::new()
    }
}

/// Telnet code.
pub struct Telnet;

impl Telnet {
    /// interpret as command
    pub const IAC: u8 = 255;
    /// you are not to use option
    pub const DONT: u8 = 254;
    /// please, you use option
    pub const DO: u8 = 253;
    /// I won't use option
    pub const WONT: u8 = 252;
    /// I will use option
    pub const WILL: u8 = 251;
    /// interpret as subnegotiation
    pub const SB: u8 = 250;
    /// end sub negotiation
    pub const SE: u8 = 240;
    /// echo
    pub const TELOPT_ECHO: u8 = 1;
    /// suppress go ahead
    pub const TELOPT_SGA: u8 = 3;
    /// terminal type
    pub const TELOPT_TTYPE: u8 = 24;
    /// Linemode option
    pub const TELOPT_LINEMODE: u8 = 34;
    /// option is...
    pub const TELQUAL_IS: u8 = 0;
    /// send option
    pub const TELQUAL_SEND: u8 = 1;

    /// Telnet command: WILL TELOPT_ECHO
    pub fn will_echo() -> (cmd: [u8; 3])
        ensures
            cmd@ == seq![Telnet::IAC, Telnet::WILL, Telnet::TELOPT_ECHO],
    {
        [Self::IAC, Self::WILL, Self::TELOPT_ECHO]
    }

    /// Telnet command: Suppress Go-Ahead
    pub fn will_suppress_go_ahead() -> (cmd: [u8; 3])
        ensures
            cmd@ == seq![Telnet::IAC, Telnet::WILL, Telnet::TELOPT_SGA],
    {
        [Self::IAC, Self::WILL, Self::TELOPT_SGA]
    }

    /// Telnet command: Don't use linemode
    pub fn dont_linemode() -> (cmd: [u8; 3])
        ensures
            cmd@ == seq![Telnet::IAC, Telnet::DONT, Telnet::TELOPT_LINEMODE],
    {
        [Self::IAC, Self::DONT, Self::TELOPT_LINEMODE]
    }

    /// Telnet command: does the client support terminal type message?
    pub fn do_ttype() -> (cmd: [u8; 3])
        ensures
            cmd@ == seq![Telnet::IAC, Telnet::DO, Telnet::TELOPT_TTYPE],
    {
        [Self::IAC, Self::DO, Self::TELOPT_TTYPE]
    }
}

} // verus!
