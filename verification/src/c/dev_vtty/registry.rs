//! The registry of live consoles.
//!
//! Every console that was created and not yet deleted stands in the
//! registry, under an identity that no other console of the registry has
//! or ever had. The polling cycle visits the consoles of the registry and no
//! others: a console that was deleted is never looked at again.

use super::action::plan_of;
use super::action::plan_push;
use super::console::live;
use super::console::live_handles;
use super::ring::ring_new;
use super::serial::line_settings;
use super::serial::SerialError;
use super::serial::SerialLine;
use super::serial::VttySerial;
use super::serial::VttySerialOption;
use super::serial::VttySerialOptionView;
use super::virtual_tty;
use super::Vtty;
use super::VttyAction;
use super::VttyActionView;
use super::VttyInput;
use super::VttyType;
use super::VttyView;
use super::VTTY_TYPE_NONE;
use super::VTTY_TYPE_SERIAL;
use super::VTTY_TYPE_TCP;
use super::VTTY_TYPE_TERM;
use vstd::prelude::*;

verus! {

/// What a console of a given type needs opened before it can be created.
#[derive(Debug, Clone, PartialEq, Eq)]
pub enum VttyBackend {
    /// Nothing.
    Null,
    /// The terminal of the process, set to raw mode.
    Term,
    /// Listening sockets on every usable local address for `port`.
    Tcp { port: u16 },
    /// The serial device `device`, set to `line`.
    Serial { device: Vec<u8>, line: SerialLine },
}

/// A backend as a mathematical value.
pub enum VttyBackendView {
    Null,
    Term,
    Tcp { port: u16 },
    Serial { device: Seq<u8>, line: SerialLine },
}

impl View for VttyBackend {
    type V = VttyBackendView;

    open spec fn view(&self) -> VttyBackendView {
        match *self {
            VttyBackend::Null => VttyBackendView::Null,
            VttyBackend::Term => VttyBackendView::Term,
            VttyBackend::Tcp { port } => VttyBackendView::Tcp { port },
            VttyBackend::Serial { device, line } => VttyBackendView::Serial {
                device: device@,
                line,
            },
        }
    }
}

/// Why a console cannot be created.
#[derive(Debug, Clone, Copy, PartialEq, Eq, Structural)]
pub enum VttyError {
    /// The type is none of the `VTTY_TYPE_*` values.
    BadType(i32),
    /// The TCP port is not a port number.
    InvalidTcpPort(i32),
    /// The serial option names no device.
    NoDevice,
    /// The serial line cannot be given a setting asked for.
    Setup(SerialError),
}

/// The backend of a console of the type `type_`, or why there is none.
pub open spec fn backend_of(
    type_: i32,
    tcp_port: i32,
    option: VttySerialOptionView,
    has_76800: bool,
    has_230400: bool,
) -> Result<VttyBackendView, VttyError> {
    if type_ == VTTY_TYPE_NONE {
        Ok(VttyBackendView::Null)
    } else if type_ == VTTY_TYPE_TERM {
        Ok(VttyBackendView::Term)
    } else if type_ == VTTY_TYPE_TCP {
        if 0 <= tcp_port <= 0xffff {
            Ok(VttyBackendView::Tcp { port: tcp_port as u16 })
        } else {
            Err(VttyError::InvalidTcpPort(tcp_port))
        }
    } else if type_ == VTTY_TYPE_SERIAL {
        match option.device {
            None => Err(VttyError::NoDevice),
            Some(device) => match line_settings(option, has_76800, has_230400) {
                Ok(line) => Ok(VttyBackendView::Serial { device, line }),
                Err(e) => Err(VttyError::Setup(e)),
            },
        }
    } else {
        Err(VttyError::BadType(type_))
    }
}

/// Decides what a console of the type `type_` needs opened. A TCP console
/// needs a port in `tcp_port`, a serial console a device and supported line
/// settings in `option`; `has_76800` and `has_230400` say whether the
/// platform knows these two baud rates.
pub fn vtty_backend(
    type_: i32,
    tcp_port: i32,
    option: &VttySerialOption,
    has_76800: bool,
    has_230400: bool,
) -> (r: Result<VttyBackend, VttyError>)
    ensures
        match r {
            Ok(b) => backend_of(type_, tcp_port, option@, has_76800, has_230400) == Ok::<
                VttyBackendView,
                VttyError,
            >(b@),
            Err(e) => backend_of(type_, tcp_port, option@, has_76800, has_230400) == Err::<
                VttyBackendView,
                VttyError,
            >(e),
        },
{
    if type_ == VTTY_TYPE_NONE {
        Ok(VttyBackend::Null)
    } else if type_ == VTTY_TYPE_TERM {
        Ok(VttyBackend::Term)
    } else if type_ == VTTY_TYPE_TCP {
        if 0 <= tcp_port && tcp_port <= 0xffff {
            Ok(VttyBackend::Tcp { port: tcp_port as u16 })
        } else {
            Err(VttyError::InvalidTcpPort(tcp_port))
        }
    } else if type_ == VTTY_TYPE_SERIAL {
        match &option.device {
            None => Err(VttyError::NoDevice),
            Some(device) => match VttySerial::setup(option, has_76800, has_230400) {
                Ok(line) => {
                    let device = vstd::slice::slice_to_vec(device.as_slice());
                    Ok(VttyBackend::Serial { device, line })
                },
                Err(e) => Err(VttyError::Setup(e)),
            },
        }
    } else {
        Err(VttyError::BadType(type_))
    }
}

/// The consoles of a process and its console settings.
#[derive(Debug)]
pub struct VttyRegistry {
    /// The live consoles, in the order of their creation.
    pub list: Vec<Vtty>,
    /// The identity of the next console.
    pub next_id: u64,
    /// 1 where the control escape of the input automaton is enabled.
    pub ctrl_code_ok: i32,
    /// 1 where a new client of a TCP console is greeted.
    pub telnet_message_ok: i32,
    /// Whether the polling thread was asked for.
    pub thread_started: bool,
}

/// A registry as a mathematical value.
pub struct VttyRegistryView {
    pub list: Seq<VttyView>,
    pub next_id: u64,
    pub ctrl_code_ok: i32,
    pub telnet_message_ok: i32,
    pub thread_started: bool,
}

/// The consoles of `list` as mathematical values.
pub open spec fn views(list: Seq<Vtty>) -> Seq<VttyView> {
    list.map_values(|v: Vtty| v@)
}

impl View for VttyRegistry {
    type V = VttyRegistryView;

    open spec fn view(&self) -> VttyRegistryView {
        VttyRegistryView {
            list: views(self.list@),
            next_id: self.next_id,
            ctrl_code_ok: self.ctrl_code_ok,
            telnet_message_ok: self.telnet_message_ok,
            thread_started: self.thread_started,
        }
    }
}

/// The position of the first console of `list` with the identity `id`, or
/// the length of `list` where there is none.
pub open spec fn position(list: Seq<VttyView>, id: u64) -> int
    decreases list.len(),
{
    if list.len() == 0 {
        0
    } else if list[0].id == id {
        0
    } else {
        1 + position(list.drop_first(), id)
    }
}

/// The handles that are closed when the console `v` is deleted: every open
/// handle but the standard input, which is never closed.
pub open spec fn closed_on_delete(v: VttyView) -> Seq<i32> {
    if v.type_ == VttyType::Tcp {
        live(v.fd_array)
    } else {
        v.fd_array.filter(|fd: i32| fd > 0)
    }
}

/// What the host is to do when the console `v` is deleted: close the
/// handles of `closed_on_delete`, then hang up on every client.
pub open spec fn delete_plan(v: VttyView) -> Seq<VttyActionView> {
    Seq::new(
        closed_on_delete(v).len(),
        |i: int| VttyActionView::Close { fd: closed_on_delete(v)[i] },
    ) + (if v.type_ == VttyType::Tcp {
        Seq::new(live(v.fd_pool).len(), |i: int| VttyActionView::Hangup { fd: live(v.fd_pool)[i] })
    } else {
        Seq::empty()
    })
}

impl VttyRegistryView {
    /// Whether the registry is sound: every console is, no two consoles
    /// share an identity, and every identity given out is below the next
    /// one.
    pub open spec fn wf(self) -> bool {
        &&& forall|i: int| 0 <= i < self.list.len() ==> (#[trigger] self.list[i]).wf()
        &&& forall|i: int| 0 <= i < self.list.len() ==> (#[trigger] self.list[i]).id < self.next_id
        &&& forall|i: int, j: int|
            0 <= i < j < self.list.len() ==> (#[trigger] self.list[i]).id != (
            #[trigger] self.list[j]).id
    }

    /// Whether a console with the identity `id` is registered.
    pub open spec fn has(self, id: u64) -> bool {
        position(self.list, id) < self.list.len()
    }

    /// Whether a console over `backend` is created, given the handles `fds`
    /// that the host opened for it: a TCP console needs one listening handle
    /// at least, a serial console its device.
    pub open spec fn creates(self, backend: VttyBackendView, fds: Seq<i32>) -> bool {
        &&& self.next_id < u64::MAX
        &&& match backend {
            VttyBackendView::Null => true,
            VttyBackendView::Term => true,
            VttyBackendView::Tcp { port } => live(fds).len() > 0,
            VttyBackendView::Serial { device, line } => fds.len() > 0 && fds[0] >= 0,
        }
    }

    /// The console that is created over `backend` with the handles `fds`.
    pub open spec fn created(
        self,
        vm: usize,
        name: Seq<char>,
        backend: VttyBackendView,
        fds: Seq<i32>,
    ) -> VttyView {
        VttyView {
            id: self.next_id,
            c: virtual_tty { vm, managed_flush: 0, priv_data: 0, user_arg: 0, read_notifier: None },
            name,
            type_: match backend {
                VttyBackendView::Null => VttyType::Null,
                VttyBackendView::Term => VttyType::Term,
                VttyBackendView::Tcp { port } => VttyType::Tcp,
                VttyBackendView::Serial { device, line } => VttyType::Serial,
            },
            tcp_port: match backend {
                VttyBackendView::Tcp { port } => port,
                _ => 0,
            },
            terminal_support: !(backend is Serial),
            input_pending: false,
            input_state: VttyInput::Text,
            fd_array: match backend {
                VttyBackendView::Null => Seq::empty(),
                VttyBackendView::Term => seq![0i32],
                VttyBackendView::Tcp { port } => live(fds),
                VttyBackendView::Serial { device, line } => seq![fds[0]],
            },
            fd_pool: Seq::empty(),
            buffer: Seq::empty(),
            replay_buffer: Seq::empty(),
        }
    }
}

/// The position of the first console with the identity `id` lies within the
/// list or at its end, and no console before it has that identity.
pub proof fn lemma_position(list: Seq<VttyView>, id: u64)
    ensures
        0 <= position(list, id) <= list.len(),
        position(list, id) < list.len() ==> list[position(list, id)].id == id,
        forall|k: int| 0 <= k < position(list, id) ==> (#[trigger] list[k]).id != id,
    decreases list.len(),
{
    if list.len() > 0 && list[0].id != id {
        lemma_position(list.drop_first(), id);
        assert forall|k: int| 0 <= k < position(list, id) implies (#[trigger] list[k]).id
            != id by {
            if k > 0 {
                assert(list.drop_first()[k - 1] == list[k]);
            }
        }
    }
}

impl VttyRegistry {
    /// A registry without consoles, with the control escape and the
    /// greeting enabled.
    pub fn new() -> (reg: Self)
        ensures
            reg@ == (VttyRegistryView {
                list: Seq::empty(),
                next_id: 1,
                ctrl_code_ok: 1,
                telnet_message_ok: 1,
                thread_started: false,
            }),
            reg@.wf(),
    {
        let reg = VttyRegistry {
            list: Vec::new(),
            next_id: 1,
            ctrl_code_ok: 1,
            telnet_message_ok: 1,
            thread_started: false,
        };
        assert(views(reg.list@) == Seq::<VttyView>::empty());
        reg
    }

    /// The position in `list` of the console with the identity `id`.
    pub fn find(&self, id: u64) -> (at: Option<usize>)
        ensures
            match at {
                Some(i) => i == position(self@.list, id) && i < self.list.len(),
                None => !self@.has(id),
            },
    {
        let mut i: usize = 0;
        proof {
            lemma_position(self@.list, id);
        }
        while i < self.list.len()
            invariant
                i <= self.list.len(),
                self@.list.len() == self.list.len(),
                forall|k: int| 0 <= k < i ==> (#[trigger] self@.list[k]).id != id,
                0 <= position(self@.list, id) <= self@.list.len(),
                position(self@.list, id) < self@.list.len() ==> self@.list[position(
                    self@.list,
                    id,
                )].id == id,
                forall|k: int|
                    0 <= k < position(self@.list, id) ==> (#[trigger] self@.list[k]).id != id,
            decreases self.list.len() - i,
        {
            assert(self@.list[i as int] == self.list@[i as int]@);
            if self.list[i].id == id {
                return Some(i);
            }
            i += 1;
        }
        None
    }
}

/// Create a virtual tty.
///
/// `backend` is what `vtty_backend` decided, `fds` the handles that the host
/// opened for it: the listening sockets of a TCP console, the device of a
/// serial console. Returns the identity of the console, or nothing where
/// the console has no handle to work with; nothing is registered then.
pub fn vtty_create(
    reg: &mut VttyRegistry,
    vm: usize,
    name: &str,
    backend: VttyBackend,
    fds: Vec<i32>,
) -> (id: Option<u64>)
    ensures
        id is Some <==> old(reg)@.creates(backend@, fds@),
        id matches Some(n) ==> n == old(reg)@.next_id && final(reg)@ == (VttyRegistryView {
            list: old(reg)@.list.push(old(reg)@.created(vm, name@, backend@, fds@)),
            next_id: (n + 1) as u64,
            ..old(reg)@
        }),
        id is None ==> final(reg)@ == old(reg)@,
        old(reg)@.wf() ==> final(reg)@.wf(),
{
    if reg.next_id == u64::MAX {
        return None;
    }
    let mut vtty = Vtty {
        id: reg.next_id,
        c: virtual_tty { vm, managed_flush: 0, priv_data: 0, user_arg: 0, read_notifier: None },
        name: name.to_owned(),
        type_: VttyType::Null,
        tcp_port: 0,
        terminal_support: true,
        input_pending: false,
        input_state: VttyInput::Text,
        fd_array: Vec::new(),
        fd_pool: Vec::new(),
        buffer: ring_new(),
        replay_buffer: ring_new(),
    };
    match backend {
        VttyBackend::Null => {
            vtty.type_ = VttyType::Null;
        },
        VttyBackend::Term => {
            vtty.type_ = VttyType::Term;
            vtty.fd_array.push(0);
        },
        VttyBackend::Tcp { port } => {
            vtty.type_ = VttyType::Tcp;
            vtty.tcp_port = port;
            vtty.fd_array = live_handles(&fds);
            if vtty.fd_array.len() == 0 {
                return None;
            }
        },
        VttyBackend::Serial { device, line } => {
            vtty.type_ = VttyType::Serial;
            if fds.len() == 0 || fds[0] < 0 {
                return None;
            }
            vtty.fd_array.push(fds[0]);
            vtty.terminal_support = false;
        },
    }
    // Add this new VTTY to the list
    let id = reg.next_id;
    assert(vtty@ == old(reg)@.created(vm, name@, backend@, fds@));
    reg.list.push(vtty);
    reg.next_id = id + 1;
    assert(views(reg.list@) == views(old(reg).list@).push(vtty@));
    Some(id)
}

/// The handles of `fds` above the standard input, in order.
fn above_stdin(fds: &Vec<i32>) -> (out: Vec<i32>)
    ensures
        out@ == fds@.filter(|fd: i32| fd > 0),
{
    let mut out: Vec<i32> = Vec::new();
    let mut i: usize = 0;
    while i < fds.len()
        invariant
            i <= fds.len(),
            out@ == fds@.take(i as int).filter(|fd: i32| fd > 0),
        decreases fds.len() - i,
    {
        proof {
            assert(fds@.take(i as int + 1) == fds@.take(i as int).push(fds@[i as int]));
            fds@.take(i as int).lemma_filter_push(fds@[i as int], |fd: i32| fd > 0);
        }
        if fds[i] > 0 {
            out.push(fds[i]);
        }
        i += 1;
    }
    assert(fds@.take(fds.len() as int) == fds@);
    out
}

/// Taking the console with the identity `id` out of a sound registry
/// leaves a sound registry that holds no console with that identity, and
/// leaves every other console where it is found by its identity.
pub proof fn lemma_remove_keeps_wf(reg: VttyRegistryView, id: u64)
    requires
        reg.wf(),
        reg.has(id),
    ensures
        ({
            let after = VttyRegistryView {
                list: reg.list.remove(position(reg.list, id)),
                ..reg
            };
            &&& after.wf()
            &&& !after.has(id)
            &&& forall|k: int|
                0 <= k < after.list.len() ==> #[trigger] after.list[k] == reg.list[if k < position(
                    reg.list,
                    id,
                ) {
                    k
                } else {
                    k + 1
                }]
        }),
{
    let at = position(reg.list, id);
    let after = reg.list.remove(at);
    lemma_position(reg.list, id);
    lemma_position(after, id);
    let p = position(after, id);
    if p < after.len() {
        let o = if p < at {
            p
        } else {
            p + 1
        };
        assert(after[p] == reg.list[o]);
        assert(reg.list[o].id != reg.list[at].id);
    }
    assert forall|i: int, j: int| 0 <= i < j < after.len() implies (#[trigger] after[i]).id != (
    #[trigger] after[j]).id by {
        let oi = if i < at {
            i
        } else {
            i + 1
        };
        let oj = if j < at {
            j
        } else {
            j + 1
        };
        assert(after[i] == reg.list[oi]);
        assert(after[j] == reg.list[oj]);
    }
}

/// What the host is to do when the console `vtty` is deleted.
fn closing(vtty: &Vtty) -> (plan: Vec<VttyAction>)
    ensures
        plan_of(plan@) == delete_plan(vtty@),
{
    let mut plan: Vec<VttyAction> = Vec::new();
    let tcp = vtty.type_ == VttyType::Tcp;
    let handles = if tcp {
        live_handles(&vtty.fd_array)
    } else {
        // We don't close FD 0 since it is stdin
        above_stdin(&vtty.fd_array)
    };
    let ghost closes = Seq::new(
        closed_on_delete(vtty@).len(),
        |i: int| VttyActionView::Close { fd: closed_on_delete(vtty@)[i] },
    );
    let mut i: usize = 0;
    while i < handles.len()
        invariant
            i <= handles.len(),
            handles@ == closed_on_delete(vtty@),
            closes == Seq::new(
                closed_on_delete(vtty@).len(),
                |i: int| VttyActionView::Close { fd: closed_on_delete(vtty@)[i] },
            ),
            plan_of(plan@) == closes.take(i as int),
        decreases handles.len() - i,
    {
        plan_push(&mut plan, VttyAction::Close { fd: handles[i] });
        assert(closes.take(i as int + 1) == closes.take(i as int).push(closes[i as int]));
        i += 1;
    }
    assert(closes.take(handles.len() as int) == closes);
    if tcp {
        let clients = live_handles(&vtty.fd_pool);
        let ghost hangups = Seq::new(
            live(vtty@.fd_pool).len(),
            |i: int| VttyActionView::Hangup { fd: live(vtty@.fd_pool)[i] },
        );
        let mut k: usize = 0;
        while k < clients.len()
            invariant
                k <= clients.len(),
                clients@ == live(vtty@.fd_pool),
                hangups == Seq::new(
                    live(vtty@.fd_pool).len(),
                    |i: int| VttyActionView::Hangup { fd: live(vtty@.fd_pool)[i] },
                ),
                plan_of(plan@) == closes + hangups.take(k as int),
            decreases clients.len() - k,
        {
            plan_push(&mut plan, VttyAction::Hangup { fd: clients[k] });
            assert(hangups.take(k as int + 1) == hangups.take(k as int).push(hangups[k as int]));
            k += 1;
        }
        assert(hangups.take(clients.len() as int) == hangups);
    }
    plan
}

/// Delete a virtual tty.
///
/// The console with the identity `id` leaves the registry, and the host is
/// asked to close what it owned: the listening handles and the clients of a
/// TCP console, the handle of a terminal or of a serial line unless it is
/// the standard input. Where no console has the identity `id`, nothing
/// changes and nothing is asked for.
pub fn vtty_delete(reg: &mut VttyRegistry, id: u64) -> (plan: Vec<VttyAction>)
    ensures
        !old(reg)@.has(id) ==> final(reg)@ == old(reg)@ && plan_of(plan@) == Seq::<
            VttyActionView,
        >::empty(),
        old(reg)@.has(id) ==> final(reg)@ == (VttyRegistryView {
            list: old(reg)@.list.remove(position(old(reg)@.list, id)),
            ..old(reg)@
        }) && plan_of(plan@) == delete_plan(old(reg)@.list[position(old(reg)@.list, id)]),
        old(reg)@.wf() ==> final(reg)@.wf() && !final(reg)@.has(id),
{
    match reg.find(id) {
        None => Vec::new(),
        Some(at) => {
            let vtty = reg.list.remove(at);
            proof {
                assert(views(reg.list@) == views(old(reg).list@).remove(at as int));
                if old(reg)@.wf() {
                    lemma_remove_keeps_wf(old(reg)@, id);
                }
            }
            closing(&vtty)
        },
    }
}

/// Allow the user to disable the CTRL code for the monitor interface.
pub fn vtty_set_ctrlhandler(reg: &mut VttyRegistry, n: i32)
    ensures
        final(reg)@ == (VttyRegistryView { ctrl_code_ok: n, ..old(reg)@ }),
{
    reg.ctrl_code_ok = n;
}

/// Allow the user to disable the telnet message for AUX and CONSOLE.
pub fn vtty_set_telnetmsg(reg: &mut VttyRegistry, n: i32)
    ensures
        final(reg)@ == (VttyRegistryView { telnet_message_ok: n, ..old(reg)@ }),
{
    reg.telnet_message_ok = n;
}

/// Initialize the VTTY thread.
///
/// Returns whether the host is to start the polling thread now: it is on
/// the first call and on no later one.
pub fn vtty_init(reg: &mut VttyRegistry) -> (start: bool)
    ensures
        start == !old(reg)@.thread_started,
        final(reg)@ == (VttyRegistryView { thread_started: true, ..old(reg)@ }),
{
    let start = !reg.thread_started;
    reg.thread_started = true;
    start
}

/// A console that was deleted is not in the registry any more, whatever is
/// created afterwards: identities are never given out twice.
pub proof fn law_deleted_console_stays_out(
    reg: VttyRegistryView,
    id: u64,
    vm: usize,
    name: Seq<char>,
    backend: VttyBackendView,
    fds: Seq<i32>,
)
    requires
        reg.wf(),
        reg.has(id),
        reg.next_id < u64::MAX,
    ensures
        ({
            let after_delete = VttyRegistryView {
                list: reg.list.remove(position(reg.list, id)),
                ..reg
            };
            let after_create = VttyRegistryView {
                list: after_delete.list.push(after_delete.created(vm, name, backend, fds)),
                next_id: (reg.next_id + 1) as u64,
                ..after_delete
            };
            &&& !after_delete.has(id)
            &&& !after_create.has(id)
            &&& after_create.list.last().id != id
        }),
{
    let at = position(reg.list, id);
    lemma_position(reg.list, id);
    lemma_remove_keeps_wf(reg, id);
    let after = reg.list.remove(at);
    lemma_position(after, id);
    let after_delete = VttyRegistryView { list: after, ..reg };
    let more = after.push(after_delete.created(vm, name, backend, fds));
    lemma_position(more, id);
    let q = position(more, id);
    if q < more.len() {
        if q < after.len() {
            assert(more[q] == after[q]);
        } else {
            assert(more[q].id == reg.next_id);
            assert(reg.list[at].id < reg.next_id);
        }
    }
}

} // verus!
