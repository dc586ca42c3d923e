//! TCP consoles: the pool of clients and what a new client is told.
//!
//! A TCP console listens on one handle per local address and serves up to
//! `FD_POOL_MAX` clients at a time. A client that connects while the pool is
//! full is turned away; the listening handles stay as they are. A client
//! that is taken in gets the telnet opener where the console has terminal
//! support and, where the greeting is enabled, a banner, the contents of the
//! replay ring and a warning if the machine is not running.

use super::action::plan_append;
use super::action::plan_of;
use super::action::plan_push;
use super::console::vtty_flush;
use super::ring::ring_make_contiguous;
use super::text::decimal;
use super::text::push_bytes;
use super::text::push_decimal;
use super::Telnet;
use super::Vtty;
use super::VttyAction;
use super::VttyActionView;
use super::VttyInput;
use super::VttyView;
use crate::c::prelude::vm_instance;
use crate::c::prelude::VmView;
use crate::c::utils::FD_POOL_MAX;
use crate::c::vm::VM_STATUS_RUNNING;
use vstd::prelude::*;
use vstd::string::StringSliceAdditionalSpecFns;
use vstd::utf8::encode_utf8;

verus! {

/// The telnet commands sent to a new client, in order: offer to echo, offer
/// to suppress go-ahead, refuse line mode, ask for the terminal type.
pub open spec fn opener_plan(fd: i32) -> Seq<VttyActionView> {
    seq![
        VttyActionView::Write {
            fd,
            data: seq![Telnet::IAC, Telnet::WILL, Telnet::TELOPT_ECHO],
        },
        VttyActionView::Write {
            fd,
            data: seq![Telnet::IAC, Telnet::WILL, Telnet::TELOPT_SGA],
        },
        VttyActionView::Write {
            fd,
            data: seq![Telnet::IAC, Telnet::DONT, Telnet::TELOPT_LINEMODE],
        },
        VttyActionView::Write {
            fd,
            data: seq![Telnet::IAC, Telnet::DO, Telnet::TELOPT_TTYPE],
        },
    ]
}

/// The banner that greets a client of the console `name` of the machine
/// `vm_name`, which has the identifier `id` and is of the kind `vm_type`.
pub open spec fn banner_bytes(vm_name: Seq<u8>, id: int, vm_type: Seq<u8>, name: Seq<u8>) -> Seq<
    u8,
> {
    "Connected to Dynamips VM \"".spec_bytes() + vm_name + "\" (ID ".spec_bytes() + decimal(id)
        + ", type ".spec_bytes() + vm_type + ") - ".spec_bytes() + name
        + "\r\nPress ENTER to get the prompt.\r\n".spec_bytes()
}

/// The warning sent to a client of a machine that is not running.
pub open spec fn warning_bytes(status: int) -> Seq<u8> {
    "\r\n!!! WARNING - VM is not running, will be unresponsive (status=".spec_bytes() + decimal(
        status,
    ) + ") !!!\r\n".spec_bytes()
}

impl VttyView {
    /// Whether the connection `fd`, as the host got it from accepting on a
    /// listening handle, is taken in: the accept succeeded and the pool of
    /// clients has a free slot.
    pub open spec fn takes_client(self, fd: i32) -> bool {
        fd >= 0 && self.fd_pool.len() < FD_POOL_MAX
    }

    /// The console after the host accepted the connection `fd`.
    pub open spec fn after_accept(self, fd: i32) -> VttyView {
        if self.takes_client(fd) {
            VttyView {
                fd_pool: self.fd_pool.push(fd),
                input_state: if self.terminal_support {
                    VttyInput::Text
                } else {
                    self.input_state
                },
                ..self
            }
        } else {
            self
        }
    }

    /// The greeting of a new client `fd`: the banner, what the replay ring
    /// holds if it holds anything, a warning where the machine is not
    /// running, and a flush.
    pub open spec fn greeting_plan(self, fd: i32, vm: VmView) -> Seq<
        VttyActionView,
    > {
        seq![
            VttyActionView::Write {
                fd,
                data: banner_bytes(vm.name, vm.instance_id, vm.type_, encode_utf8(self.name)),
            },
        ] + (if self.replay_buffer.len() > 0 {
            seq![VttyActionView::Write { fd, data: self.replay_buffer }]
        } else {
            Seq::empty()
        }) + (if vm.status != VM_STATUS_RUNNING {
            seq![VttyActionView::Write { fd, data: warning_bytes(vm.status) }]
        } else {
            Seq::empty()
        }) + self.flush_plan()
    }

    /// What the host is to do after it accepted the connection `fd`.
    pub open spec fn accept_plan(
        self,
        fd: i32,
        telnet_message_ok: bool,
        vm: VmView,
    ) -> Seq<VttyActionView> {
        if fd < 0 {
            Seq::empty()
        } else if !self.takes_client(fd) {
            seq![VttyActionView::Hangup { fd }]
        } else {
            (if self.terminal_support {
                opener_plan(fd)
            } else {
                Seq::empty()
            }) + (if telnet_message_ok {
                self.greeting_plan(fd, vm)
            } else {
                Seq::empty()
            })
        }
    }

    /// The console after the client `fd` was given up.
    pub open spec fn after_disconnect(self, fd: i32) -> VttyView {
        VttyView { fd_pool: without(self.fd_pool, fd), ..self }
    }
}

/// Whether a binding address is set: it is there and not empty.
pub open spec fn is_set(addr: Option<&str>) -> bool {
    addr matches Some(a) && a@.len() > 0
}

/// The test that a handle is not `fd`.
pub open spec fn is_not(fd: i32) -> spec_fn(i32) -> bool {
    |other: i32| other != fd
}

/// The handles of `fds` other than `fd`, in order.
pub open spec fn without(fds: Seq<i32>, fd: i32) -> Seq<i32> {
    fds.filter(is_not(fd))
}

/// Copies the three bytes of a telnet command.
fn command(cmd: [u8; 3]) -> (data: Vec<u8>)
    ensures
        data@ == cmd@,
{
    let mut data: Vec<u8> = Vec::new();
    data.push(cmd[0]);
    data.push(cmd[1]);
    data.push(cmd[2]);
    data
}

/// The handles of `fds` other than `fd`, in order.
pub fn remove_handle(fds: &Vec<i32>, fd: i32) -> (out: Vec<i32>)
    ensures
        out@ == without(fds@, fd),
{
    let mut out: Vec<i32> = Vec::new();
    let mut i: usize = 0;
    while i < fds.len()
        invariant
            i <= fds.len(),
            out@ == without(fds@.take(i as int), fd),
        decreases fds.len() - i,
    {
        proof {
            assert(fds@.take(i as int + 1) == fds@.take(i as int).push(fds@[i as int]));
            fds@.take(i as int).lemma_filter_push(fds@[i as int], is_not(fd));
        }
        if fds[i] != fd {
            out.push(fds[i]);
        }
        i += 1;
    }
    assert(fds@.take(fds.len() as int) == fds@);
    out
}

/// Tcp code.
pub struct VttyTcp;

impl VttyTcp {
    /// The address to listen on: the console binding address where one is
    /// set, else the global binding address where one is set, else the
    /// loopback address.
    pub fn conn_wait_address<'a>(
        console_binding_addr: Option<&'a str>,
        binding_addr: Option<&'a str>,
    ) -> (addr: &'a str)
        ensures
            addr@ == (if is_set(console_binding_addr) {
                console_binding_addr->0@
            } else if is_set(binding_addr) {
                binding_addr->0@
            } else {
                "127.0.0.1"@
            }),
    {
        // Try to use the console binding address first, then fallback to the
        // global binding address
        if let Some(c) = console_binding_addr {
            if !c.is_empty() {
                return c;
            }
        }
        if let Some(b) = binding_addr {
            if !b.is_empty() {
                return b;
            }
        }
        "127.0.0.1"
    }

    /// Accept a TCP connection.
    ///
    /// `fd` is what accepting on a ready listening handle gave the host: the
    /// new connection, or a negative number where the accept failed. Returns
    /// 0 where the client was taken in, -1 where it was not.
    pub fn conn_accept(vtty: &mut Vtty, fd: i32, telnet_message_ok: i32, vm: &vm_instance) -> (r: (
        i32,
        Vec<VttyAction>,
    ))
        ensures
            r.0 == (if old(vtty)@.takes_client(fd) {
                0i32
            } else {
                -1i32
            }),
            final(vtty)@ == old(vtty)@.after_accept(fd),
            plan_of(r.1@) == old(vtty)@.accept_plan(fd, telnet_message_ok == 1, vm@),
            old(vtty)@.wf() ==> final(vtty)@.wf(),
    {
        let mut plan: Vec<VttyAction> = Vec::new();
        if fd < 0 {
            return (-1, plan);
        }
        if vtty.fd_pool.len() >= FD_POOL_MAX {
            // no free slot: turn this client away, keep listening
            plan_push(&mut plan, VttyAction::Hangup { fd });
            return (-1, plan);
        }
        // Register the new FD
        vtty.fd_pool.push(fd);
        // Adapt Telnet settings
        if vtty.terminal_support {
            plan_push(&mut plan, VttyAction::Write { fd, data: command(Telnet::will_echo()) });
            plan_push(
                &mut plan,
                VttyAction::Write { fd, data: command(Telnet::will_suppress_go_ahead()) },
            );
            plan_push(&mut plan, VttyAction::Write { fd, data: command(Telnet::dont_linemode()) });
            plan_push(&mut plan, VttyAction::Write { fd, data: command(Telnet::do_ttype()) });
            vtty.input_state = VttyInput::Text;
            assert(plan_of(plan@) == opener_plan(fd));
        }
        if telnet_message_ok == 1 {
            let mut banner: Vec<u8> = Vec::new();
            push_bytes(&mut banner, "Connected to Dynamips VM \"".as_bytes());
            push_bytes(&mut banner, vm.name.as_str().as_bytes());
            push_bytes(&mut banner, "\" (ID ".as_bytes());
            push_decimal(&mut banner, vm.instance_id);
            push_bytes(&mut banner, ", type ".as_bytes());
            push_bytes(&mut banner, vm.type_.as_str().as_bytes());
            push_bytes(&mut banner, ") - ".as_bytes());
            push_bytes(&mut banner, vtty.name.as_str().as_bytes());
            push_bytes(&mut banner, "\r\nPress ENTER to get the prompt.\r\n".as_bytes());
            plan_push(&mut plan, VttyAction::Write { fd, data: banner });
            // replay old text
            let replay = ring_make_contiguous(&mut vtty.replay_buffer);
            if replay.len() > 0 {
                plan_push(&mut plan, VttyAction::Write { fd, data: replay });
            }
            // warn if not running
            if vm.status != VM_STATUS_RUNNING {
                let mut warning: Vec<u8> = Vec::new();
                push_bytes(
                    &mut warning,
                    "\r\n!!! WARNING - VM is not running, will be unresponsive (status=".as_bytes(),
                );
                push_decimal(&mut warning, vm.status);
                push_bytes(&mut warning, ") !!!\r\n".as_bytes());
                plan_push(&mut plan, VttyAction::Write { fd, data: warning });
            }
            let flush = vtty_flush(vtty);
            plan_append(&mut plan, flush);
        }
        assert(plan_of(plan@) == old(vtty)@.accept_plan(fd, telnet_message_ok == 1, vm@));
        (0, plan)
    }

    /// Read a character from the TCP connection.
    ///
    /// `got` is what the host read from the client `*fd_slot`. Returns the
    /// byte; where there is none the connection has a problem: the host is
    /// asked to hang up, the slot is set to -1 and -1 is returned.
    pub fn read(fd_slot: &mut i32, got: Option<u8>) -> (r: (i32, Vec<VttyAction>))
        ensures
            got matches Some(c) ==> r.0 == c && *final(fd_slot) == *old(fd_slot) && plan_of(r.1@)
                == Seq::<VttyActionView>::empty(),
            got is None ==> r.0 == -1 && *final(fd_slot) == -1 && plan_of(r.1@) == seq![
                VttyActionView::Hangup { fd: *old(fd_slot) },
            ],
    {
        let mut plan: Vec<VttyAction> = Vec::new();
        match got {
            Some(c) => (c as i32, plan),
            None => {
                // problem with the connection
                plan_push(&mut plan, VttyAction::Hangup { fd: *fd_slot });
                *fd_slot = -1;
                (-1, plan)
            },
        }
    }

    /// Gives up the client `fd` after a send to it failed: every slot of the
    /// pool that holds it is freed, and the host is asked to hang up if the
    /// pool held it.
    pub fn disconnect(vtty: &mut Vtty, fd: i32) -> (plan: Vec<VttyAction>)
        ensures
            final(vtty)@ == old(vtty)@.after_disconnect(fd),
            plan_of(plan@) == (if old(vtty)@.fd_pool.contains(fd) {
                seq![VttyActionView::Hangup { fd }]
            } else {
                Seq::empty()
            }),
            old(vtty)@.wf() ==> final(vtty)@.wf(),
    {
        let mut plan: Vec<VttyAction> = Vec::new();
        let kept = remove_handle(&vtty.fd_pool, fd);
        proof {
            let pool = old(vtty)@.fd_pool;
            pool.lemma_filter_len(is_not(fd));
            if pool.contains(fd) {
                if kept@.len() == pool.len() {
                    lemma_filter_all(pool, fd);
                }
            } else {
                lemma_filter_none(pool, fd);
            }
        }
        if kept.len() < vtty.fd_pool.len() {
            plan_push(&mut plan, VttyAction::Hangup { fd });
        }
        vtty.fd_pool = kept;
        plan
    }
}

/// A client that is taken in while the greeting is enabled is sent what
/// the replay ring holds, byte for byte, right after the banner: at the
/// second place of the plan, behind the four commands of the opener where
/// the console has terminal support.
pub proof fn law_new_client_is_sent_the_replay(
    v: VttyView,
    fd: i32,
    vm: VmView,
)
    requires
        v.takes_client(fd),
        v.replay_buffer.len() > 0,
    ensures
        ({
            let plan = v.accept_plan(fd, true, vm);
            let at: int = if v.terminal_support {
                4
            } else {
                0
            };
            &&& plan.len() >= at + 2
            &&& plan[at] == (VttyActionView::Write {
                fd,
                data: banner_bytes(vm.name, vm.instance_id, vm.type_, encode_utf8(v.name)),
            })
            &&& plan[at + 1] == (VttyActionView::Write { fd, data: v.replay_buffer })
        }),
{
}

/// Where taking `fd` out of `fds` leaves the length as it was, `fds` does
/// not hold `fd`.
pub proof fn lemma_filter_all(fds: Seq<i32>, fd: i32)
    requires
        without(fds, fd).len() == fds.len(),
    ensures
        !fds.contains(fd),
    decreases fds.len(),
{
    reveal(Seq::filter);
    if fds.len() > 0 {
        fds.drop_last().lemma_filter_len(is_not(fd));
        assert(fds.last() != fd);
        lemma_filter_all(fds.drop_last(), fd);
        assert forall|i: int| 0 <= i < fds.len() implies fds[i] != fd by {
            if i < fds.len() - 1 {
                assert(fds.drop_last()[i] == fds[i]);
            }
        }
    }
}

/// Taking `fd` out of `fds` changes nothing where `fds` does not hold it.
pub proof fn lemma_filter_none(fds: Seq<i32>, fd: i32)
    requires
        !fds.contains(fd),
    ensures
        without(fds, fd) == fds,
    decreases fds.len(),
{
    reveal(Seq::filter);
    if fds.len() > 0 {
        assert(fds.last() == fds[fds.len() - 1]);
        assert forall|i: int| 0 <= i < fds.drop_last().len() implies fds.drop_last()[i] != fd by {
            assert(fds.drop_last()[i] == fds[i]);
        }
        lemma_filter_none(fds.drop_last(), fd);
        assert(fds.drop_last().push(fds.last()) == fds);
    }
}

} // verus!
