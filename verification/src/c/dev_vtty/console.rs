//! The character operations of a console.
//!
//! Input flows from the host into the bounded input queue, through the input
//! automaton where the console has terminal support, and is taken out by the
//! device one byte at a time. A full queue drops what arrives. Output is
//! handed to the host as actions and recorded in the replay ring, which
//! keeps the most recent bytes.

use super::action::plan_append;
use super::action::plan_of;
use super::action::plan_push;
use super::input::effect_request;
use super::input::input_run;
use super::input::input_step;
use super::input::is_plain;
use super::input::law_plain_text_is_stored_unchanged;
use super::input::ttype_request;
use super::input::vtty_input;
use super::ring::ring_is_empty;
use super::ring::ring_pop_front;
use super::ring::ring_push_back;
use super::ring::ring_try_push_back;
use super::tcp::VttyTcp;
use super::term::VttyTerm;
use super::Telnet;
use super::Vtty;
use super::VttyAction;
use super::VttyActionView;
use super::VttyEffect;
use super::VttyInput;
use super::VttyType;
use super::VttyView;
use super::VTTY_BUFFER_SIZE;
use crate::c::prelude::vm_instance;
use vstd::prelude::*;

verus! {

/// Whether a slot holds a handle: -1 marks a slot that is closed.
pub open spec fn is_live(fd: i32) -> bool {
    fd != -1
}

/// The handles in `fds`, in order, without the closed slots.
pub open spec fn live(fds: Seq<i32>) -> Seq<i32> {
    fds.filter(|fd: i32| is_live(fd))
}

/// The input queue `queue` after `c` was offered to it: appended where there
/// is room, dropped where there is none.
pub open spec fn fifo_push(queue: Seq<u8>, c: u8) -> Seq<u8> {
    if queue.len() < VTTY_BUFFER_SIZE {
        queue.push(c)
    } else {
        queue
    }
}

/// Whether the input queue `queue` takes no further byte.
pub open spec fn fifo_full(queue: Seq<u8>) -> bool {
    queue.len() >= VTTY_BUFFER_SIZE
}

/// The number of bytes that `queue` still takes.
pub open spec fn fifo_room(queue: Seq<u8>) -> nat {
    if queue.len() < VTTY_BUFFER_SIZE {
        (VTTY_BUFFER_SIZE - queue.len()) as nat
    } else {
        0
    }
}

/// The number of bytes of `data` that `queue` takes.
pub open spec fn fifo_taken(queue: Seq<u8>, data: Seq<u8>) -> nat {
    if data.len() <= fifo_room(queue) {
        data.len()
    } else {
        fifo_room(queue)
    }
}

/// The input queue `queue` after the bytes of `data` were offered to it one
/// by one: it takes what it has room for and drops the rest.
pub open spec fn fifo_extend(queue: Seq<u8>, data: Seq<u8>) -> Seq<u8> {
    queue + data.take(fifo_taken(queue, data) as int)
}

/// The most recent `VTTY_BUFFER_SIZE` bytes of `bytes`.
pub open spec fn recent(bytes: Seq<u8>) -> Seq<u8> {
    if bytes.len() <= VTTY_BUFFER_SIZE {
        bytes
    } else {
        bytes.skip(bytes.len() - VTTY_BUFFER_SIZE)
    }
}

/// The replay ring `ring` after `c` was recorded in it: appended where the
/// ring has room, in place of its oldest byte where it has none.
pub open spec fn replay_put(ring: Seq<u8>, c: u8) -> Seq<u8> {
    if ring.len() < VTTY_BUFFER_SIZE {
        ring.push(c)
    } else {
        ring.drop_first().push(c)
    }
}

/// The replay ring `ring` after the bytes of `data` were recorded in it one
/// by one.
pub open spec fn replay_after(ring: Seq<u8>, data: Seq<u8>) -> Seq<u8>
    decreases data.len(),
{
    if data.len() == 0 {
        ring
    } else {
        replay_put(replay_after(ring, data.drop_last()), data.last())
    }
}

/// The escape sequence that sets the window title of the peer's terminal to
/// `name`: `ESC ] 0 ; name BEL`.
pub open spec fn title_bytes(name: Seq<u8>) -> Seq<u8> {
    seq![0x1bu8, 0x5du8, 0x30u8, 0x3bu8] + name + seq![0x07u8]
}

/// The action that brings `data` to the handle `fd`: a send to a client of
/// a TCP console, a write to any other handle.
pub open spec fn put_action(tcp: bool, fd: i32, data: Seq<u8>) -> VttyActionView {
    if tcp {
        VttyActionView::Send { fd, data }
    } else {
        VttyActionView::Write { fd, data }
    }
}

/// The actions that bring the byte `ch` to each of `targets`, in order.
pub open spec fn put_plan_to(tcp: bool, targets: Seq<i32>, ch: u8) -> Seq<VttyActionView> {
    Seq::new(targets.len(), |i: int| put_action(tcp, targets[i], seq![ch]))
}

/// The actions that bring the bytes of `buf` to each of `targets`, byte
/// after byte.
pub open spec fn put_buffer_plan_to(tcp: bool, targets: Seq<i32>, buf: Seq<u8>) -> Seq<
    VttyActionView,
>
    decreases buf.len(),
{
    if buf.len() == 0 {
        Seq::empty()
    } else {
        put_buffer_plan_to(tcp, targets, buf.drop_last()) + put_plan_to(tcp, targets, buf.last())
    }
}

impl VttyView {
    /// The console after `c` was offered to its input queue.
    pub open spec fn store(self, c: u8) -> VttyView {
        VttyView { buffer: fifo_push(self.buffer, c), ..self }
    }

    /// The handles that output goes to.
    pub open spec fn put_targets(self) -> Seq<i32> {
        match self.type_ {
            VttyType::Null => Seq::empty(),
            VttyType::Term | VttyType::Serial => live(self.fd_array),
            VttyType::Tcp => live(self.fd_pool),
        }
    }

    /// The actions that bring the byte `ch` to every handle that output
    /// goes to.
    pub open spec fn put_plan(self, ch: u8) -> Seq<VttyActionView> {
        put_plan_to(self.type_ == VttyType::Tcp, self.put_targets(), ch)
    }

    /// The actions that bring the bytes of `buf` to every handle that output
    /// goes to, byte after byte.
    pub open spec fn put_buffer_plan(self, buf: Seq<u8>) -> Seq<VttyActionView> {
        put_buffer_plan_to(self.type_ == VttyType::Tcp, self.put_targets(), buf)
    }

    /// The actions that flush the output of the console: handles of a
    /// terminal or of a serial line are synced, sockets need nothing.
    pub open spec fn flush_plan(self) -> Seq<VttyActionView> {
        match self.type_ {
            VttyType::Term | VttyType::Serial => Seq::new(
                live(self.fd_array).len(),
                |i: int| VttyActionView::Sync { fd: live(self.fd_array)[i] },
            ),
            _ => Seq::empty(),
        }
    }

    /// The handles to read from, in order, when the handle `fd_slot` of the
    /// console is ready: the client itself on a TCP console, every open
    /// handle on a terminal or a serial line.
    pub open spec fn read_handles(self, fd_slot: i32) -> Seq<i32> {
        match self.type_ {
            VttyType::Null => Seq::empty(),
            VttyType::Term | VttyType::Serial => live(self.fd_array),
            VttyType::Tcp => seq![fd_slot],
        }
    }

    /// The console after the host read `got` from the handle `fd` and the
    /// console took it in.
    pub open spec fn after_read(self, got: Option<u8>, ctrl_code_ok: bool) -> VttyView {
        match got {
            None => self,
            Some(c) => {
                if !self.terminal_support {
                    VttyView { input_pending: true, buffer: fifo_push(self.buffer, c), ..self }
                } else {
                    let step = input_step(self.input_state, c, ctrl_code_ok);
                    VttyView {
                        input_pending: true,
                        input_state: step.next,
                        buffer: fifo_extend(self.buffer, step.store),
                        replay_buffer: if step.effect == VttyEffect::AskTtype {
                            replay_after(self.replay_buffer, ttype_request())
                        } else {
                            self.replay_buffer
                        },
                        ..self
                    }
                }
            },
        }
    }

    /// What the host is to do after it read `got` from the handle `fd` and
    /// the console took it in. `owner` is the name of the owning machine.
    pub open spec fn read_plan(
        self,
        fd: i32,
        got: Option<u8>,
        ctrl_code_ok: bool,
        owner: Seq<u8>,
    ) -> Seq<VttyActionView> {
        match got {
            None => {
                if self.type_ == VttyType::Tcp {
                    seq![VttyActionView::Hangup { fd }]
                } else {
                    Seq::empty()
                }
            },
            Some(c) => {
                if !self.terminal_support {
                    Seq::empty()
                } else {
                    match input_step(self.input_state, c, ctrl_code_ok).effect {
                        VttyEffect::Quiet => Seq::empty(),
                        VttyEffect::Remote(b) => seq![VttyActionView::Remote { c: b }],
                        VttyEffect::AskTtype => self.put_buffer_plan(ttype_request()),
                        VttyEffect::Title => seq![
                            VttyActionView::Write { fd, data: title_bytes(owner) },
                        ],
                    }
                }
            },
        }
    }
}

/// Offering the bytes of `data` and then `c` is offering `data` with `c`
/// appended.
pub proof fn lemma_fifo_extend_push(queue: Seq<u8>, data: Seq<u8>, c: u8)
    ensures
        fifo_extend(queue, data.push(c)) == fifo_push(fifo_extend(queue, data), c),
{
    let more = data.push(c);
    if more.len() <= fifo_room(queue) {
        assert(more.take(more.len() as int) == more);
        assert(data.take(data.len() as int) == data);
        assert(queue + more == (queue + data).push(c));
    } else {
        assert(more.take(fifo_taken(queue, more) as int) == data.take(
            fifo_taken(queue, data) as int,
        ));
    }
}

/// Offering nothing leaves the queue as it is.
pub proof fn lemma_fifo_extend_empty(queue: Seq<u8>)
    ensures
        fifo_extend(queue, Seq::empty()) == queue,
{
    assert(Seq::<u8>::empty().take(0) == Seq::<u8>::empty());
    assert(queue + Seq::<u8>::empty() == queue);
}

/// Recording `c` after `bytes` in a ring that holds `held`, itself no more
/// than the ring's size, keeps the most recent bytes of all of them.
pub proof fn lemma_recent_push(held: Seq<u8>, bytes: Seq<u8>, c: u8)
    requires
        held.len() <= VTTY_BUFFER_SIZE,
    ensures
        recent(recent(held + bytes).push(c)) == recent(held + bytes.push(c)),
{
    let all = held + bytes;
    assert(held + bytes.push(c) == all.push(c));
    if all.len() > VTTY_BUFFER_SIZE {
        assert(recent(all).push(c).skip(1) == all.push(c).skip(all.len() + 1 - VTTY_BUFFER_SIZE));
    }
}

/// The number of bytes of `data` that are dropped when they are offered to
/// `queue` one by one: each byte that finds the queue full.
pub open spec fn fifo_dropped(queue: Seq<u8>, data: Seq<u8>) -> nat
    decreases data.len(),
{
    if data.len() == 0 {
        0
    } else {
        fifo_dropped(queue, data.drop_last()) + (if fifo_full(
            fifo_extend(queue, data.drop_last()),
        ) {
            1nat
        } else {
            0nat
        })
    }
}

/// Of the bytes offered to a queue, those that it has no room for are
/// dropped and no others.
pub proof fn lemma_fifo_dropped(queue: Seq<u8>, data: Seq<u8>)
    ensures
        fifo_dropped(queue, data) == data.len() - fifo_taken(queue, data),
    decreases data.len(),
{
    if data.len() > 0 {
        lemma_fifo_dropped(queue, data.drop_last());
    }
}

/// Backpressure: where one byte more than the input queue holds is stored
/// into an empty queue, exactly one store fails, and the queue holds the
/// bytes before it, in the order in which they came.
pub proof fn law_overfull_queue_drops_last(data: Seq<u8>)
    requires
        data.len() == VTTY_BUFFER_SIZE + 1,
    ensures
        fifo_dropped(Seq::empty(), data) == 1,
        fifo_extend(Seq::empty(), data) == data.take(VTTY_BUFFER_SIZE as int),
        fifo_full(fifo_extend(Seq::empty(), data.drop_last())),
{
    lemma_fifo_dropped(Seq::empty(), data);
    assert(Seq::<u8>::empty() + data.take(VTTY_BUFFER_SIZE as int) == data.take(
        VTTY_BUFFER_SIZE as int,
    ));
}

/// A ring that holds no more than its size holds, after any bytes were
/// recorded in it one by one, the most recent bytes of what it held and
/// what was recorded.
pub proof fn lemma_replay_after_recent(ring: Seq<u8>, data: Seq<u8>)
    requires
        ring.len() <= VTTY_BUFFER_SIZE,
    ensures
        replay_after(ring, data) == recent(ring + data),
    decreases data.len(),
{
    if data.len() == 0 {
        assert(ring + data == ring);
    } else {
        let front = data.drop_last();
        lemma_replay_after_recent(ring, front);
        lemma_recent_push(ring, front, data.last());
        assert(front.push(data.last()) == data);
        let held = recent(ring + front);
        if held.len() >= VTTY_BUFFER_SIZE {
            assert(held.push(data.last()).skip(1) == held.drop_first().push(data.last()));
        }
    }
}

/// The replay ring keeps the most recent bytes: after any bytes were put
/// into an empty ring one by one, it holds the last `VTTY_BUFFER_SIZE` of
/// them, or all of them where they are fewer, in the order in which they
/// were put.
pub proof fn law_replay_keeps_most_recent(data: Seq<u8>)
    ensures
        replay_after(Seq::empty(), data) == recent(data),
        data.len() <= VTTY_BUFFER_SIZE ==> recent(data) == data,
        data.len() > VTTY_BUFFER_SIZE ==> recent(data) == data.skip(
            data.len() - VTTY_BUFFER_SIZE,
        ),
{
    lemma_replay_after_recent(Seq::empty(), data);
    assert(Seq::<u8>::empty() + data == data);
}

/// Offering `first` and then `second` is offering the two joined.
pub proof fn lemma_fifo_extend_concat(queue: Seq<u8>, first: Seq<u8>, second: Seq<u8>)
    ensures
        fifo_extend(fifo_extend(queue, first), second) == fifo_extend(queue, first + second),
    decreases second.len(),
{
    if second.len() == 0 {
        lemma_fifo_extend_empty(fifo_extend(queue, first));
        assert(first + second == first);
    } else {
        let front = second.drop_last();
        lemma_fifo_extend_concat(queue, first, front);
        lemma_fifo_extend_push(fifo_extend(queue, first), front, second.last());
        lemma_fifo_extend_push(queue, first + front, second.last());
        assert(front.push(second.last()) == second);
        assert((first + front).push(second.last()) == first + second);
    }
}

/// Recording `more` after `bytes` in a ring that holds `held`, itself no
/// more than the ring's size, keeps the most recent bytes of all of them.
pub proof fn lemma_recent_concat(held: Seq<u8>, bytes: Seq<u8>, more: Seq<u8>)
    requires
        held.len() <= VTTY_BUFFER_SIZE,
    ensures
        recent(recent(held + bytes) + more) == recent(held + bytes + more),
{
    let all = held + bytes;
    if all.len() > VTTY_BUFFER_SIZE {
        let cut = all.len() - VTTY_BUFFER_SIZE;
        assert((recent(all) + more).skip((recent(all) + more).len() - VTTY_BUFFER_SIZE) == (all
            + more).skip((all + more).len() - VTTY_BUFFER_SIZE)) by {
            assert(recent(all) + more == (all + more).skip(cut));
        }
    }
}

impl VttyView {
    /// The console after the host read the bytes of `bytes` one after the
    /// other and the console took each in.
    pub open spec fn after_reads(self, bytes: Seq<u8>, ctrl_code_ok: bool) -> VttyView
        decreases bytes.len(),
    {
        if bytes.len() == 0 {
            self
        } else {
            self.after_reads(bytes.drop_last(), ctrl_code_ok).after_read(
                Some(bytes.last()),
                ctrl_code_ok,
            )
        }
    }
}

/// What a console with terminal support takes in is what the input
/// automaton makes of it: after any bytes were read, the automaton is in
/// the state that its run over the bytes ends in, the input queue was
/// offered exactly the bytes that the run stores, and the replay ring
/// recorded exactly the requests that the run sends.
pub proof fn law_console_follows_the_automaton(v: VttyView, bytes: Seq<u8>, ctrl_code_ok: bool)
    requires
        v.wf(),
        v.terminal_support,
    ensures
        ({
            let run = input_run(v.input_state, bytes, ctrl_code_ok);
            v.after_reads(bytes, ctrl_code_ok) == (VttyView {
                input_pending: v.input_pending || bytes.len() > 0,
                input_state: run.state,
                buffer: fifo_extend(v.buffer, run.stored),
                replay_buffer: recent(v.replay_buffer + run.sent),
                ..v
            })
        }),
    decreases bytes.len(),
{
    if bytes.len() == 0 {
        lemma_fifo_extend_empty(v.buffer);
        assert(v.replay_buffer + Seq::<u8>::empty() == v.replay_buffer);
    } else {
        let front = bytes.drop_last();
        law_console_follows_the_automaton(v, front, ctrl_code_ok);
        let before = input_run(v.input_state, front, ctrl_code_ok);
        let step = input_step(before.state, bytes.last(), ctrl_code_ok);
        lemma_fifo_extend_concat(v.buffer, before.stored, step.store);
        lemma_recent_concat(v.replay_buffer, before.sent, effect_request(step.effect));
        lemma_replay_after_recent(recent(v.replay_buffer + before.sent), ttype_request());
        assert(v.replay_buffer + before.sent + effect_request(step.effect) == v.replay_buffer + (
        before.sent + effect_request(step.effect)));
        if step.effect != VttyEffect::AskTtype {
            assert(before.sent + effect_request(step.effect) == before.sent);
        }
    }
}

/// Plain text reaches the device unchanged: where a console with terminal
/// support, its automaton in the text state, reads bytes none of which is
/// `0x1b`, `0x1d`, `0xb3`, `0xff`, `0x00` or `0x0a`, its input queue is
/// offered exactly those bytes, in order, and the automaton stays in the
/// text state.
pub proof fn law_plain_text_reaches_the_queue(v: VttyView, bytes: Seq<u8>, ctrl_code_ok: bool)
    requires
        v.wf(),
        v.terminal_support,
        v.input_state == VttyInput::Text,
        forall|i: int| 0 <= i < bytes.len() ==> is_plain(#[trigger] bytes[i]),
    ensures
        v.after_reads(bytes, ctrl_code_ok).buffer == fifo_extend(v.buffer, bytes),
        v.after_reads(bytes, ctrl_code_ok).input_state == VttyInput::Text,
        v.after_reads(bytes, ctrl_code_ok).replay_buffer == v.replay_buffer,
{
    law_console_follows_the_automaton(v, bytes, ctrl_code_ok);
    law_plain_text_is_stored_unchanged(bytes, ctrl_code_ok);
    assert(v.replay_buffer + Seq::<u8>::empty() == v.replay_buffer);
}

/// Store a character in the FIFO buffer.
///
/// Returns 0 where the byte was stored, -1 where the buffer is full and the
/// byte was dropped.
pub fn vtty_store(vtty: &mut Vtty, c: u8) -> (r: i32)
    ensures
        final(vtty)@ == old(vtty)@.store(c),
        r == (if fifo_full(old(vtty)@.buffer) {
            -1i32
        } else {
            0i32
        }),
        old(vtty)@.wf() ==> final(vtty)@.wf(),
{
    match ring_try_push_back(&mut vtty.buffer, c) {
        Ok(()) => 0,
        Err(_) => -1,
    }
}

/// Store arbitrary data in the FIFO buffer.
///
/// Stores the bytes of `data` one at a time and stops at the first that
/// finds the buffer full. Returns the number of bytes stored and marks input
/// as pending.
pub fn vtty_store_data(vtty: &mut Vtty, data: &[u8]) -> (bytes: i32)
    ensures
        bytes == fifo_taken(old(vtty)@.buffer, data@),
        final(vtty)@ == (VttyView {
            buffer: fifo_extend(old(vtty)@.buffer, data@),
            input_pending: true,
            ..old(vtty)@
        }),
        old(vtty)@.wf() ==> final(vtty)@.wf(),
{
    let mut bytes: usize = 0;
    while bytes < data.len()
        invariant_except_break
            vtty@ == (VttyView {
                buffer: old(vtty)@.buffer + data@.take(bytes as int),
                ..old(vtty)@
            }),
            bytes <= data.len(),
            bytes <= fifo_room(old(vtty)@.buffer),
        ensures
            vtty@ == (VttyView {
                buffer: old(vtty)@.buffer + data@.take(bytes as int),
                ..old(vtty)@
            }),
            bytes == fifo_taken(old(vtty)@.buffer, data@),
        decreases data.len() - bytes,
    {
        proof {
            assert(data@.take(bytes as int + 1) == data@.take(bytes as int).push(
                data@[bytes as int],
            ));
            assert(old(vtty)@.buffer + data@.take(bytes as int + 1) == (old(vtty)@.buffer
                + data@.take(bytes as int)).push(data@[bytes as int]));
        }
        if vtty_store(vtty, data[bytes]) == -1 {
            break ;
        }
        bytes += 1;
    }
    vtty.input_pending = true;
    bytes as i32
}

/// Read a character from the buffer (-1 if the buffer is empty).
pub fn vtty_get_char(vtty: &mut Vtty) -> (c: i32)
    ensures
        old(vtty)@.buffer.len() == 0 ==> c == -1 && final(vtty)@ == old(vtty)@,
        old(vtty)@.buffer.len() > 0 ==> c == old(vtty)@.buffer[0] && final(vtty)@ == (VttyView {
            buffer: old(vtty)@.buffer.drop_first(),
            ..old(vtty)@
        }),
        old(vtty)@.wf() ==> final(vtty)@.wf(),
{
    match ring_pop_front(&mut vtty.buffer) {
        Some(c) => c as i32,
        None => -1,
    }
}

/// Returns 1 if a character is available in the buffer, 0 if not.
pub fn vtty_is_char_avail(vtty: &Vtty) -> (avail: i32)
    ensures
        avail == (if vtty@.buffer.len() > 0 {
            1i32
        } else {
            0i32
        }),
{
    if ring_is_empty(&vtty.buffer) {
        0
    } else {
        1
    }
}

/// Store CTRL+C in the buffer. Returns 0, whether or not there was room.
pub fn vtty_store_ctrlc(vtty: &mut Vtty) -> (r: i32)
    ensures
        r == 0,
        final(vtty)@ == old(vtty)@.store(0x03),
        old(vtty)@.wf() ==> final(vtty)@.wf(),
{
    vtty_store(vtty, 0x03);
    0
}

/// The handles of `fds` that are open, in order.
pub fn live_handles(fds: &Vec<i32>) -> (out: Vec<i32>)
    ensures
        out@ == live(fds@),
{
    let mut out: Vec<i32> = Vec::new();
    let mut i: usize = 0;
    while i < fds.len()
        invariant
            i <= fds.len(),
            out@ == live(fds@.take(i as int)),
        decreases fds.len() - i,
    {
        proof {
            assert(fds@.take(i as int + 1) == fds@.take(i as int).push(fds@[i as int]));
            fds@.take(i as int).lemma_filter_push(fds@[i as int], |fd: i32| is_live(fd));
        }
        if fds[i] != -1 {
            out.push(fds[i]);
        }
        i += 1;
    }
    assert(fds@.take(fds.len() as int) == fds@);
    out
}

/// The handles that the output of the console goes to.
pub fn put_targets(vtty: &Vtty) -> (out: Vec<i32>)
    ensures
        out@ == vtty@.put_targets(),
{
    match vtty.type_ {
        VttyType::Null => Vec::new(),
        VttyType::Term | VttyType::Serial => live_handles(&vtty.fd_array),
        VttyType::Tcp => live_handles(&vtty.fd_pool),
    }
}

/// Put char to vtty.
///
/// The byte goes to every open handle of a terminal or a serial line, or to
/// every client of a TCP console, and is then recorded in the replay ring,
/// whatever becomes of the writes.
pub fn vtty_put_char(vtty: &mut Vtty, ch: u8) -> (plan: Vec<VttyAction>)
    ensures
        plan_of(plan@) == old(vtty)@.put_plan(ch),
        final(vtty)@ == (VttyView {
            replay_buffer: replay_put(old(vtty)@.replay_buffer, ch),
            ..old(vtty)@
        }),
        old(vtty)@.wf() ==> final(vtty)@.wf(),
{
    let targets = put_targets(vtty);
    let tcp = vtty.type_ == VttyType::Tcp;
    let mut plan: Vec<VttyAction> = Vec::new();
    let mut i: usize = 0;
    while i < targets.len()
        invariant
            i <= targets.len(),
            targets@ == vtty@.put_targets(),
            tcp == (vtty@.type_ == VttyType::Tcp),
            plan_of(plan@) == vtty@.put_plan(ch).take(i as int),
        decreases targets.len() - i,
    {
        let mut data: Vec<u8> = Vec::new();
        data.push(ch);
        assert(data@ == seq![ch]);
        let action = if tcp {
            VttyAction::Send { fd: targets[i], data }
        } else {
            VttyAction::Write { fd: targets[i], data }
        };
        assert(action@ == put_action(tcp, targets@[i as int], seq![ch]));
        plan_push(&mut plan, action);
        assert(vtty@.put_plan(ch).take(i as int + 1) == vtty@.put_plan(ch).take(i as int).push(
            vtty@.put_plan(ch)[i as int],
        ));
        i += 1;
    }
    assert(vtty@.put_plan(ch).take(targets.len() as int) == vtty@.put_plan(ch));
    // store char for replay
    ring_push_back(&mut vtty.replay_buffer, ch);
    plan
}

/// Flush VTTY output.
pub fn vtty_flush(vtty: &Vtty) -> (plan: Vec<VttyAction>)
    ensures
        plan_of(plan@) == vtty@.flush_plan(),
{
    let mut plan: Vec<VttyAction> = Vec::new();
    match vtty.type_ {
        VttyType::Term | VttyType::Serial => {
            let fds = live_handles(&vtty.fd_array);
            let mut i: usize = 0;
            while i < fds.len()
                invariant
                    i <= fds.len(),
                    fds@ == live(vtty@.fd_array),
                    vtty@.type_ == VttyType::Term || vtty@.type_ == VttyType::Serial,
                    plan_of(plan@) == vtty@.flush_plan().take(i as int),
                decreases fds.len() - i,
            {
                plan_push(&mut plan, VttyAction::Sync { fd: fds[i] });
                assert(vtty@.flush_plan().take(i as int + 1) == vtty@.flush_plan().take(
                    i as int,
                ).push(vtty@.flush_plan()[i as int]));
                i += 1;
            }
            assert(vtty@.flush_plan().take(fds.len() as int) == vtty@.flush_plan());
        },
        _ => {},
    }
    plan
}

/// Puts every byte of `buf` as by `vtty_put_char`, without a flush.
pub(crate) fn put_bytes(vtty: &mut Vtty, buf: &[u8]) -> (plan: Vec<VttyAction>)
    ensures
        plan_of(plan@) == old(vtty)@.put_buffer_plan(buf@),
        final(vtty)@ == (VttyView {
            replay_buffer: replay_after(old(vtty)@.replay_buffer, buf@),
            ..old(vtty)@
        }),
        old(vtty)@.wf() ==> final(vtty)@.wf() && final(vtty)@.replay_buffer == recent(
            old(vtty)@.replay_buffer + buf@,
        ),
{
    let mut plan: Vec<VttyAction> = Vec::new();
    let mut i: usize = 0;
    proof {
        assert(buf@.take(0) == Seq::<u8>::empty());
    }
    while i < buf.len()
        invariant
            i <= buf.len(),
            plan_of(plan@) == old(vtty)@.put_buffer_plan(buf@.take(i as int)),
            vtty@ == (VttyView {
                replay_buffer: replay_after(old(vtty)@.replay_buffer, buf@.take(i as int)),
                ..old(vtty)@
            }),
        decreases buf.len() - i,
    {
        let more = vtty_put_char(vtty, buf[i]);
        plan_append(&mut plan, more);
        proof {
            let upto = buf@.take(i as int + 1);
            assert(upto.drop_last() == buf@.take(i as int));
            assert(upto.last() == buf@[i as int]);
        }
        i += 1;
    }
    proof {
        assert(buf@.take(buf.len() as int) == buf@);
        if old(vtty)@.wf() {
            lemma_replay_after_recent(old(vtty)@.replay_buffer, buf@);
        }
    }
    plan
}

/// Put a buffer to vtty: every byte as by `vtty_put_char`, then a flush.
pub fn vtty_put_buffer(vtty: &mut Vtty, buf: &[u8]) -> (plan: Vec<VttyAction>)
    ensures
        plan_of(plan@) == old(vtty)@.put_buffer_plan(buf@) + old(vtty)@.flush_plan(),
        final(vtty)@ == (VttyView {
            replay_buffer: replay_after(old(vtty)@.replay_buffer, buf@),
            ..old(vtty)@
        }),
        old(vtty)@.wf() ==> final(vtty)@.wf() && final(vtty)@.replay_buffer == recent(
            old(vtty)@.replay_buffer + buf@,
        ),
{
    let mut plan = put_bytes(vtty, buf);
    let tail = vtty_flush(vtty);
    plan_append(&mut plan, tail);
    plan
}

/// Read a character from the virtual TTY.
///
/// `got` is what the host read from the handles of `read_handles`: the byte,
/// or nothing where the read failed. Returns the byte, or -1 where there is
/// none. A client of a TCP console whose read failed is given up: its slot
/// is set to -1 and the host is asked to hang up.
pub fn vtty_read(vtty: &Vtty, fd_slot: &mut i32, got: Option<u8>) -> (r: (i32, Vec<VttyAction>))
    ensures
        got matches Some(c) ==> r.0 == c && plan_of(r.1@) == Seq::<VttyActionView>::empty()
            && *final(fd_slot) == *old(fd_slot),
        got is None ==> r.0 == -1,
        got is None && vtty@.type_ == VttyType::Tcp ==> *final(fd_slot) == -1 && plan_of(r.1@)
            == seq![VttyActionView::Hangup { fd: *old(fd_slot) }],
        got is None && vtty@.type_ != VttyType::Tcp ==> *final(fd_slot) == *old(fd_slot)
            && plan_of(r.1@) == Seq::<VttyActionView>::empty(),
{
    match vtty.type_ {
        VttyType::Term | VttyType::Serial => (VttyTerm::read(vtty, got), Vec::new()),
        VttyType::Tcp => VttyTcp::read(fd_slot, got),
        VttyType::Null => {
            match got {
                Some(c) => (c as i32, Vec::new()),
                None => (-1, Vec::new()),
            }
        },
    }
}

/// The handles to read from, in order, when the handle `fd_slot` of the
/// console is ready; the first that gives a byte ends the read.
pub fn read_handles(vtty: &Vtty, fd_slot: i32) -> (fds: Vec<i32>)
    ensures
        fds@ == vtty@.read_handles(fd_slot),
{
    match vtty.type_ {
        VttyType::Null => Vec::new(),
        VttyType::Term | VttyType::Serial => live_handles(&vtty.fd_array),
        VttyType::Tcp => {
            let mut fds: Vec<i32> = Vec::new();
            fds.push(fd_slot);
            fds
        },
    }
}

/// The bytes that set the window title of the peer's terminal to `name`.
pub fn title(name: &[u8]) -> (out: Vec<u8>)
    ensures
        out@ == title_bytes(name@),
{
    let mut out: Vec<u8> = Vec::new();
    out.push(0x1b);
    out.push(0x5d);
    out.push(0x30);
    out.push(0x3b);
    let mut i: usize = 0;
    while i < name.len()
        invariant
            i <= name.len(),
            out@ == seq![0x1bu8, 0x5du8, 0x30u8, 0x3bu8] + name@.take(i as int),
        decreases name.len() - i,
    {
        out.push(name[i]);
        assert(name@.take(i as int + 1) == name@.take(i as int).push(name@[i as int]));
        i += 1;
    }
    assert(name@.take(name.len() as int) == name@);
    out.push(0x07);
    out
}

/// Read a character and store it in the buffer.
///
/// `got` is what the host read after the handle `*fd_slot` became ready. A
/// failed read stores nothing. A byte marks input as pending; on a console
/// without terminal support it is stored as it is, on one with terminal
/// support it passes through the input automaton, which stores what the
/// device is to see and may ask for a reply to the peer, a window title or
/// a call of the remote control. The control escape is recognised where
/// `ctrl_code_ok` is 1.
pub fn vtty_read_and_store(
    vtty: &mut Vtty,
    fd_slot: &mut i32,
    got: Option<u8>,
    ctrl_code_ok: i32,
    vm: &vm_instance,
) -> (plan: Vec<VttyAction>)
    ensures
        final(vtty)@ == old(vtty)@.after_read(got, ctrl_code_ok == 1),
        plan_of(plan@) == old(vtty)@.read_plan(
            *old(fd_slot),
            got,
            ctrl_code_ok == 1,
            vm@.name,
        ),
        *final(fd_slot) == (if got is None && old(vtty)@.type_ == VttyType::Tcp {
            -1i32
        } else {
            *old(fd_slot)
        }),
        old(vtty)@.wf() ==> final(vtty)@.wf(),
{
    let fd = *fd_slot;
    let (c, mut plan) = vtty_read(vtty, fd_slot, got);
    // if read error, do nothing
    if c < 0 {
        return plan;
    }
    let c = c as u8;
    // If something was read, make sure the handler is informed
    vtty.input_pending = true;
    if !vtty.terminal_support {
        vtty_store(vtty, c);
        return plan;
    }
    let (next, store, effect) = vtty_input(vtty.input_state, c, ctrl_code_ok == 1);
    let mut i: usize = 0;
    proof {
        assert(store@.take(0) == Seq::<u8>::empty());
        lemma_fifo_extend_empty(old(vtty)@.buffer);
    }
    while i < store.len()
        invariant
            i <= store.len(),
            vtty@ == (VttyView {
                input_pending: true,
                buffer: fifo_extend(old(vtty)@.buffer, store@.take(i as int)),
                ..old(vtty)@
            }),
        decreases store.len() - i,
    {
        proof {
            assert(store@.take(i as int + 1) == store@.take(i as int).push(store@[i as int]));
            lemma_fifo_extend_push(old(vtty)@.buffer, store@.take(i as int), store@[i as int]);
        }
        vtty_store(vtty, store[i]);
        i += 1;
    }
    assert(store@.take(store.len() as int) == store@);
    vtty.input_state = next;
    match effect {
        VttyEffect::Quiet => {},
        VttyEffect::Remote(b) => {
            plan_push(&mut plan, VttyAction::Remote { c: b });
        },
        VttyEffect::AskTtype => {
            // the client can tell its terminal type: ask it to send the string
            let request = [
                Telnet::IAC,
                Telnet::SB,
                Telnet::TELOPT_TTYPE,
                Telnet::TELQUAL_SEND,
                Telnet::IAC,
                Telnet::SE,
            ];
            assert(request@ == ttype_request());
            let more = put_bytes(vtty, request.as_slice());
            plan_append(&mut plan, more);
        },
        VttyEffect::Title => {
            // the client is an xterm or a vt: set the title bar
            let data = title(vm.name.as_str().as_bytes());
            plan_push(&mut plan, VttyAction::Write { fd, data });
        },
    }
    plan
}

} // verus!
