//! The decisions of the polling cycle.
//!
//! One thread serves every console. In each cycle the host watches the
//! handles of `watch_set` for input, for at most `VTTY_POLL_MS`
//! milliseconds, and then visits the consoles of the registry in order, as
//! `cycle` lays it out. On a TCP console it first accepts on every
//! listening handle that is ready, then reads one byte from every client
//! that is ready; on a terminal or a serial line it reads one byte if the
//! handle is ready. At the end of a visit the device is notified of
//! pending input and output is flushed unless the device flushes itself.

use super::action::plan_append;
use super::action::plan_of;
use super::action::plan_push;
use super::console::is_live;
use super::console::live;
use super::console::live_handles;
use super::console::vtty_flush;
use super::console::vtty_read_and_store;
use super::registry::position;
use super::registry::lemma_position;
use super::registry::VttyRegistry;
use super::registry::VttyRegistryView;
use super::tcp::remove_handle;
use super::tcp::without;
use super::Vtty;
use super::VttyAction;
use super::VttyActionView;
use super::VttyType;
use super::VttyView;
use crate::c::prelude::vm_instance;
use vstd::prelude::*;

verus! {

/// The longest that one wait for input lasts, in milliseconds.
pub const VTTY_POLL_MS: u32 = 50;

/// The handles of the console `v` that are watched for input: its open
/// handles and, on a TCP console, its clients.
pub open spec fn watched(v: VttyView) -> Seq<i32> {
    if v.type_ == VttyType::Tcp {
        live(v.fd_array) + live(v.fd_pool)
    } else {
        live(v.fd_array)
    }
}

/// The handles of every console of `list` that are watched for input,
/// console after console.
pub open spec fn watch_set(list: Seq<VttyView>) -> Seq<i32>
    decreases list.len(),
{
    if list.len() == 0 {
        Seq::empty()
    } else {
        watch_set(list.drop_last()) + watched(list.last())
    }
}

/// The highest of the handles `fds`, or -1 where there is none.
pub open spec fn highest(fds: Seq<i32>) -> int
    decreases fds.len(),
{
    if fds.len() == 0 {
        -1
    } else if fds.last() > highest(fds.drop_last()) {
        fds.last() as int
    } else {
        highest(fds.drop_last())
    }
}

/// The test that a slot holds a handle that is among `ready`.
pub open spec fn is_ready(ready: Seq<i32>) -> spec_fn(i32) -> bool {
    |fd: i32| is_live(fd) && ready.contains(fd)
}

/// The handles of `fds` that are among `ready`, in the order of `fds`.
pub open spec fn ready_of(fds: Seq<i32>, ready: Seq<i32>) -> Seq<i32> {
    fds.filter(is_ready(ready))
}

/// One thing that the host does for a console during a visit, and reports
/// to it.
#[derive(Debug, Clone, Copy, PartialEq, Eq, Structural)]
pub enum VttyVisit {
    /// Accept a connection on the listening handle `listener`; what comes
    /// of it goes to `VttyTcp::conn_accept`.
    Accept { listener: i32 },
    /// Read one byte from the handles that `read_handles` names for `fd`;
    /// what comes of it goes to `Vtty::poll_read`.
    Read { fd: i32 },
    /// End the visit with `Vtty::poll_end`.
    End,
}

/// The visits `visits`, each marked as a visit of the console `id`.
pub open spec fn visits_of(id: u64, visits: Seq<VttyVisit>) -> Seq<(u64, VttyVisit)> {
    Seq::new(visits.len(), |i: int| (id, visits[i]))
}

/// What the host does in one cycle when the handles `ready` have input:
/// the visit of each console of `list`, console after console.
pub open spec fn cycle_plan(list: Seq<VttyView>, ready: Seq<i32>) -> Seq<(u64, VttyVisit)>
    decreases list.len(),
{
    if list.len() == 0 {
        Seq::empty()
    } else {
        cycle_plan(list.drop_last(), ready) + visits_of(
            list.last().id,
            list.last().visit_plan(ready),
        )
    }
}

impl VttyView {
    /// The listening handles to accept on, in order, when the handles
    /// `ready` have input.
    pub open spec fn ready_listeners(self, ready: Seq<i32>) -> Seq<i32> {
        if self.type_ == VttyType::Tcp {
            ready_of(self.fd_array, ready)
        } else {
            Seq::empty()
        }
    }

    /// The handles to read one byte from, in order, when the handles `ready`
    /// have input: clients of a TCP console, the handle of a terminal or of
    /// a serial line.
    pub open spec fn ready_handles(self, ready: Seq<i32>) -> Seq<i32> {
        if self.type_ == VttyType::Tcp {
            ready_of(self.fd_pool, ready)
        } else {
            ready_of(self.fd_array, ready)
        }
    }

    /// What the host does for the console in one visit when the handles
    /// `ready` have input: it accepts on each ready listening handle, then
    /// reads from each ready handle, then ends the visit.
    pub open spec fn visit_plan(self, ready: Seq<i32>) -> Seq<VttyVisit> {
        let listeners = self.ready_listeners(ready);
        let handles = self.ready_handles(ready);
        Seq::new(
            listeners.len() + handles.len() + 1,
            |i: int|
                if i < listeners.len() {
                    VttyVisit::Accept { listener: listeners[i] }
                } else if i < listeners.len() + handles.len() {
                    VttyVisit::Read { fd: handles[i - listeners.len()] }
                } else {
                    VttyVisit::End
                },
        )
    }

    /// The console after the host read `got` from its ready handle `fd`
    /// during a visit: the byte is taken in; a client whose read failed
    /// leaves the pool; a terminal or a serial line has input pending
    /// whatever was read.
    pub open spec fn after_poll_read(self, fd: i32, got: Option<u8>, ctrl_code_ok: bool)
        -> VttyView {
        let read = self.after_read(got, ctrl_code_ok);
        if self.type_ == VttyType::Tcp {
            if got is None {
                VttyView { fd_pool: without(read.fd_pool, fd), ..read }
            } else {
                read
            }
        } else {
            VttyView { input_pending: true, ..read }
        }
    }

    /// What the host is to do at the end of a visit: run the read
    /// notification if input is pending and there is one, then flush output
    /// unless the device flushes itself.
    pub open spec fn end_plan(self) -> Seq<VttyActionView> {
        (if self.input_pending && self.c.read_notifier is Some {
            seq![VttyActionView::Notify { notifier: self.c.read_notifier->0 }]
        } else {
            Seq::empty()
        }) + (if self.c.managed_flush == 0 {
            self.flush_plan()
        } else {
            Seq::empty()
        })
    }
}

/// Whether `fd` is among `ready`.
fn among(ready: &[i32], fd: i32) -> (found: bool)
    ensures
        found == ready@.contains(fd),
{
    let mut i: usize = 0;
    while i < ready.len()
        invariant
            i <= ready.len(),
            forall|k: int| 0 <= k < i ==> ready@[k] != fd,
        decreases ready.len() - i,
    {
        if ready[i] == fd {
            return true;
        }
        i += 1;
    }
    false
}

/// The handles of `fds` that are among `ready`, in the order of `fds`.
fn ready_among(fds: &Vec<i32>, ready: &[i32]) -> (out: Vec<i32>)
    ensures
        out@ == ready_of(fds@, ready@),
{
    let mut out: Vec<i32> = Vec::new();
    let mut i: usize = 0;
    while i < fds.len()
        invariant
            i <= fds.len(),
            out@ == ready_of(fds@.take(i as int), ready@),
        decreases fds.len() - i,
    {
        proof {
            assert(fds@.take(i as int + 1) == fds@.take(i as int).push(fds@[i as int]));
            fds@.take(i as int).lemma_filter_push(fds@[i as int], is_ready(ready@));
        }
        if fds[i] != -1 && among(ready, fds[i]) {
            out.push(fds[i]);
        }
        i += 1;
    }
    assert(fds@.take(fds.len() as int) == fds@);
    out
}

/// The highest handle of `fds` extended by one handle.
proof fn lemma_highest_push(fds: Seq<i32>, fd: i32)
    ensures
        highest(fds.push(fd)) == (if fd > highest(fds) {
            fd as int
        } else {
            highest(fds)
        }),
{
    assert(fds.push(fd).drop_last() == fds);
}

impl VttyRegistry {
    /// Builds the set of handles to watch for input, and the highest of
    /// them.
    pub fn watch_set(&self) -> (r: (Vec<i32>, i32))
        ensures
            r.0@ == watch_set(self@.list),
            r.1 == highest(r.0@),
    {
        let mut fds: Vec<i32> = Vec::new();
        let mut fd_max: i32 = -1;
        let mut at: usize = 0;
        assert(self@.list.take(0) == Seq::<VttyView>::empty());
        while at < self.list.len()
            invariant
                at <= self.list.len(),
                self@.list.len() == self.list.len(),
                fds@ == watch_set(self@.list.take(at as int)),
                fd_max == highest(fds@),
            decreases self.list.len() - at,
        {
            let vtty = &self.list[at];
            let ghost before = fds@;
            let mut more = live_handles(&vtty.fd_array);
            if vtty.type_ == VttyType::Tcp {
                let mut clients = live_handles(&vtty.fd_pool);
                more.append(&mut clients);
            }
            proof {
                let upto = self@.list.take(at as int + 1);
                assert(upto.drop_last() == self@.list.take(at as int));
                assert(upto.last() == vtty@);
                assert(more@ == watched(vtty@));
                assert(more@.take(0) == Seq::<i32>::empty());
                assert(before + Seq::<i32>::empty() == before);
            }
            let mut i: usize = 0;
            while i < more.len()
                invariant
                    i <= more.len(),
                    fds@ == before + more@.take(i as int),
                    fd_max == highest(fds@),
                decreases more.len() - i,
            {
                proof {
                    assert(more@.take(i as int + 1) == more@.take(i as int).push(more@[i as int]));
                    assert(before + more@.take(i as int + 1) == (before + more@.take(
                        i as int,
                    )).push(more@[i as int]));
                    lemma_highest_push(fds@, more@[i as int]);
                }
                fds.push(more[i]);
                if more[i] > fd_max {
                    fd_max = more[i];
                }
                i += 1;
            }
            assert(more@.take(more.len() as int) == more@);
            at += 1;
        }
        assert(self@.list.take(self.list.len() as int) == self@.list);
        (fds, fd_max)
    }
}

impl VttyRegistry {
    /// What the host is to do in one cycle when the handles `ready` have
    /// input: for each console, by its identity, the steps of its visit.
    pub fn cycle(&self, ready: &[i32]) -> (plan: Vec<(u64, VttyVisit)>)
        ensures
            plan@ == cycle_plan(self@.list, ready@),
    {
        let mut plan: Vec<(u64, VttyVisit)> = Vec::new();
        let mut at: usize = 0;
        assert(self@.list.take(0) == Seq::<VttyView>::empty());
        while at < self.list.len()
            invariant
                at <= self.list.len(),
                self@.list.len() == self.list.len(),
                plan@ == cycle_plan(self@.list.take(at as int), ready@),
            decreases self.list.len() - at,
        {
            let vtty = &self.list[at];
            let visits = vtty.visit(ready);
            let ghost before = plan@;
            proof {
                let upto = self@.list.take(at as int + 1);
                assert(upto.drop_last() == self@.list.take(at as int));
                assert(upto.last() == vtty@);
            }
            let mut i: usize = 0;
            while i < visits.len()
                invariant
                    i <= visits.len(),
                    plan@.len() == before.len() + i,
                    forall|k: int| 0 <= k < before.len() ==> plan@[k] == before[k],
                    forall|k: int|
                        0 <= k < i ==> plan@[before.len() + k] == (vtty.id, visits@[k]),
                decreases visits.len() - i,
            {
                plan.push((vtty.id, visits[i]));
                i += 1;
            }
            assert(plan@ =~= before + visits_of(vtty.id, visits@));
            at += 1;
        }
        assert(self@.list.take(self.list.len() as int) == self@.list);
        plan
    }
}

impl Vtty {
    /// The listening handles to accept on, in order, when the handles
    /// `ready` have input.
    pub fn ready_listeners(&self, ready: &[i32]) -> (fds: Vec<i32>)
        ensures
            fds@ == self@.ready_listeners(ready@),
    {
        if self.type_ == VttyType::Tcp {
            ready_among(&self.fd_array, ready)
        } else {
            Vec::new()
        }
    }

    /// The handles to read one byte from, in order, when the handles `ready`
    /// have input.
    pub fn ready_handles(&self, ready: &[i32]) -> (fds: Vec<i32>)
        ensures
            fds@ == self@.ready_handles(ready@),
    {
        if self.type_ == VttyType::Tcp {
            ready_among(&self.fd_pool, ready)
        } else {
            ready_among(&self.fd_array, ready)
        }
    }

    /// What the host is to do for the console in one visit when the
    /// handles `ready` have input, in order.
    pub fn visit(&self, ready: &[i32]) -> (plan: Vec<VttyVisit>)
        ensures
            plan@ == self@.visit_plan(ready@),
    {
        let listeners = self.ready_listeners(ready);
        let handles = self.ready_handles(ready);
        let mut plan: Vec<VttyVisit> = Vec::new();
        let mut i: usize = 0;
        while i < listeners.len()
            invariant
                i <= listeners.len(),
                plan@.len() == i,
                forall|k: int|
                    0 <= k < i ==> plan@[k] == (VttyVisit::Accept { listener: listeners@[k] }),
            decreases listeners.len() - i,
        {
            plan.push(VttyVisit::Accept { listener: listeners[i] });
            i += 1;
        }
        let mut j: usize = 0;
        while j < handles.len()
            invariant
                j <= handles.len(),
                plan@.len() == listeners.len() + j,
                forall|k: int|
                    0 <= k < listeners.len() ==> plan@[k] == (VttyVisit::Accept {
                        listener: listeners@[k],
                    }),
                forall|k: int|
                    0 <= k < j ==> plan@[listeners.len() + k] == (VttyVisit::Read {
                        fd: handles@[k],
                    }),
            decreases handles.len() - j,
        {
            plan.push(VttyVisit::Read { fd: handles[j] });
            j += 1;
        }
        plan.push(VttyVisit::End);
        assert(plan@ =~= self@.visit_plan(ready@));
        plan
    }

    /// Takes in what the host read from the ready handle `fd` during a
    /// visit. `got` is the byte, or nothing where the read failed; a client
    /// whose read failed leaves the pool and only that client.
    pub fn poll_read(
        &mut self,
        fd: i32,
        got: Option<u8>,
        ctrl_code_ok: i32,
        vm: &vm_instance,
    ) -> (plan: Vec<VttyAction>)
        ensures
            final(self)@ == old(self)@.after_poll_read(fd, got, ctrl_code_ok == 1),
            plan_of(plan@) == old(self)@.read_plan(
                fd,
                got,
                ctrl_code_ok == 1,
                vm@.name,
            ),
            old(self)@.wf() ==> final(self)@.wf(),
    {
        let mut fd_slot = fd;
        let plan = vtty_read_and_store(self, &mut fd_slot, got, ctrl_code_ok, vm);
        if self.type_ == VttyType::Tcp {
            if got.is_none() {
                // the client was given up: it leaves the pool
                self.fd_pool = remove_handle(&self.fd_pool, fd);
            }
        } else {
            self.input_pending = true;
        }
        plan
    }

    /// Ends the visit of the console: the device is notified if input is
    /// pending, input is no longer pending, and output is flushed unless
    /// the device flushes itself.
    pub fn poll_end(&mut self) -> (plan: Vec<VttyAction>)
        ensures
            final(self)@ == (VttyView { input_pending: false, ..old(self)@ }),
            plan_of(plan@) == old(self)@.end_plan(),
            old(self)@.wf() ==> final(self)@.wf(),
    {
        let mut plan: Vec<VttyAction> = Vec::new();
        if self.input_pending {
            if let Some(notifier) = self.c.read_notifier {
                plan_push(&mut plan, VttyAction::Notify { notifier });
            }
            self.input_pending = false;
        }
        // Flush any pending output
        if self.c.managed_flush == 0 {
            let flush = vtty_flush(self);
            plan_append(&mut plan, flush);
        }
        plan
    }
}

/// Every watched handle is a watched handle of a console of the list.
pub proof fn lemma_watch_set_owner(list: Seq<VttyView>, h: i32)
    requires
        watch_set(list).contains(h),
    ensures
        exists|k: int| 0 <= k < list.len() && watched(#[trigger] list[k]).contains(h),
    decreases list.len(),
{
    if list.len() > 0 {
        let front = watch_set(list.drop_last());
        let back = watched(list.last());
        let i = choose|i: int| 0 <= i < watch_set(list).len() && watch_set(list)[i] == h;
        if i < front.len() {
            assert(front[i] == h);
            lemma_watch_set_owner(list.drop_last(), h);
            let k = choose|k: int|
                0 <= k < list.drop_last().len() && watched(#[trigger] list.drop_last()[k]).contains(
                    h,
                );
            assert(list.drop_last()[k] == list[k]);
        } else {
            assert(back[i - front.len()] == h);
            assert(watched(list[list.len() - 1]).contains(h));
        }
    }
}

/// Every visit of a cycle is the visit of a console of the list.
pub proof fn lemma_cycle_plan_owner(list: Seq<VttyView>, ready: Seq<i32>, k: int)
    requires
        0 <= k < cycle_plan(list, ready).len(),
    ensures
        exists|j: int| 0 <= j < list.len() && (#[trigger] list[j]).id == cycle_plan(list, ready)[k].0,
    decreases list.len(),
{
    if list.len() > 0 {
        let front = cycle_plan(list.drop_last(), ready);
        if k < front.len() {
            lemma_cycle_plan_owner(list.drop_last(), ready, k);
            let j = choose|j: int|
                0 <= j < list.drop_last().len() && (#[trigger] list.drop_last()[j]).id == front[k].0;
            assert(list.drop_last()[j] == list[j]);
        } else {
            assert(list[list.len() - 1].id == cycle_plan(list, ready)[k].0);
        }
    }
}

/// After a console was deleted no cycle visits it: whatever handles have
/// input, no step of a cycle over what is left of the registry is a step
/// for the deleted console.
pub proof fn law_deleted_console_is_not_visited(
    reg: VttyRegistryView,
    id: u64,
    ready: Seq<i32>,
    k: int,
)
    requires
        reg.wf(),
        reg.has(id),
        0 <= k < cycle_plan(reg.list.remove(position(reg.list, id)), ready).len(),
    ensures
        cycle_plan(reg.list.remove(position(reg.list, id)), ready)[k].0 != id,
{
    let at = position(reg.list, id);
    lemma_position(reg.list, id);
    let after = reg.list.remove(at);
    lemma_cycle_plan_owner(after, ready, k);
    let j = choose|j: int|
        0 <= j < after.len() && (#[trigger] after[j]).id == cycle_plan(after, ready)[k].0;
    let o = if j < at {
        j
    } else {
        j + 1
    };
    assert(after[j] == reg.list[o]);
    assert(reg.list[o].id != reg.list[at].id);
}

/// After a console was deleted the polling cycle never touches its handles:
/// every handle that is watched from then on is watched on behalf of a
/// console that is still registered, and none of those has the identity of
/// the deleted one.
pub proof fn law_deleted_console_is_not_polled(reg: VttyRegistryView, id: u64, h: i32)
    requires
        reg.wf(),
        reg.has(id),
        watch_set(reg.list.remove(position(reg.list, id))).contains(h),
    ensures
        exists|k: int|
            0 <= k < reg.list.len() && (#[trigger] reg.list[k]).id != id && watched(
                reg.list[k],
            ).contains(h),
{
    let at = position(reg.list, id);
    lemma_position(reg.list, id);
    let after = reg.list.remove(at);
    lemma_watch_set_owner(after, h);
    let k = choose|k: int| 0 <= k < after.len() && watched(#[trigger] after[k]).contains(h);
    let o = if k < at {
        k
    } else {
        k + 1
    };
    assert(after[k] == reg.list[o]);
    assert(reg.list[o].id != reg.list[at].id);
}

} // verus!
