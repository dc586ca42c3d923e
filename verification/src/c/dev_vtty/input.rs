//! The input automaton of a console.
//!
//! Every byte that arrives on a console with terminal support passes through
//! one step of this automaton. A step consumes exactly one byte and is
//! defined for every state and every byte: it names the next state, the
//! bytes to store for the device (at most three) and at most one side
//! effect. Arrow-key escape sequences are folded into control codes, telnet
//! commands are taken out of the stream, and the control escape hands the
//! following byte to the remote control hook.

use super::Telnet;
use super::VttyInput;
use vstd::prelude::*;

verus! {

/// What a step asks for besides storing bytes.
#[derive(Debug, Clone, Copy, PartialEq, Eq, Structural)]
pub enum VttyEffect {
    /// Nothing.
    Quiet,
    /// Hand the byte to the remote control hook.
    Remote(u8),
    /// The peer offers its terminal type: ask it to send the type string.
    AskTtype,
    /// The peer's terminal understands window titles: set the title.
    Title,
}

/// The outcome of one step of the automaton.
pub struct InputStep {
    /// The state after the byte.
    pub next: VttyInput,
    /// The bytes to store, in order.
    pub store: Seq<u8>,
    /// The side effect asked for.
    pub effect: VttyEffect,
}

/// The request for the peer's terminal type: `IAC SB TTYPE SEND IAC SE`.
pub open spec fn ttype_request() -> Seq<u8> {
    seq![
        Telnet::IAC,
        Telnet::SB,
        Telnet::TELOPT_TTYPE,
        Telnet::TELQUAL_SEND,
        Telnet::IAC,
        Telnet::SE,
    ]
}

/// Whether `c` is one of the four telnet option commands.
pub open spec fn is_option_command(c: u8) -> bool {
    c == Telnet::WILL || c == Telnet::WONT || c == Telnet::DO || c == Telnet::DONT
}

/// Whether `c` opens a terminal type string of an xterm or a vt terminal.
pub open spec fn is_title_capable(c: u8) -> bool {
    c == 0x78 || c == 0x58 || c == 0x76 || c == 0x56
}

/// One step of the automaton: state `state` meets byte `c`. The control
/// escape (`0x1d`, `0xb3`) is recognised only where `ctrl_code_ok` holds.
pub open spec fn input_step(state: VttyInput, c: u8, ctrl_code_ok: bool) -> InputStep {
    let quiet = |next: VttyInput|
        InputStep { next, store: Seq::empty(), effect: VttyEffect::Quiet };
    let text = |store: Seq<u8>|
        InputStep { next: VttyInput::Text, store, effect: VttyEffect::Quiet };
    match state {
        VttyInput::Text => {
            if c == 0x1b {
                quiet(VttyInput::Vt1)
            } else if (c == 0x1d || c == 0xb3) && ctrl_code_ok {
                quiet(VttyInput::Remote)
            } else if c == Telnet::IAC {
                quiet(VttyInput::Telnet)
            } else if c == 0x00 || c == 0x0a {
                quiet(VttyInput::Text)
            } else {
                text(seq![c])
            }
        },
        VttyInput::Vt1 => {
            if c == 0x5b {
                quiet(VttyInput::Vt2)
            } else {
                text(seq![0x1bu8, c])
            }
        },
        VttyInput::Vt2 => {
            if c == 0x41 {
                text(seq![0x10u8])
            } else if c == 0x42 {
                text(seq![0x0eu8])
            } else if c == 0x43 {
                text(seq![0x06u8])
            } else if c == 0x44 {
                text(seq![0x02u8])
            } else {
                text(seq![0x1bu8, 0x5bu8, c])
            }
        },
        VttyInput::Remote => InputStep {
            next: VttyInput::Text,
            store: Seq::empty(),
            effect: VttyEffect::Remote(c),
        },
        VttyInput::Telnet => {
            if is_option_command(c) {
                quiet(VttyInput::TelnetIyou(c))
            } else if c == Telnet::SB {
                quiet(VttyInput::TelnetSb1(c))
            } else if c == Telnet::IAC {
                text(seq![Telnet::IAC])
            } else {
                quiet(VttyInput::Text)
            }
        },
        VttyInput::TelnetIyou(cmd) => InputStep {
            next: VttyInput::Text,
            store: Seq::empty(),
            effect: if cmd == Telnet::WILL && c == Telnet::TELOPT_TTYPE {
                VttyEffect::AskTtype
            } else {
                VttyEffect::Quiet
            },
        },
        VttyInput::TelnetSb1(cmd) => quiet(VttyInput::TelnetSb2(cmd, c)),
        VttyInput::TelnetSb2(cmd, opt) => {
            if opt == Telnet::TELOPT_TTYPE && c == Telnet::TELQUAL_IS {
                quiet(VttyInput::TelnetSbTtype(cmd, opt, c))
            } else {
                quiet(VttyInput::TelnetNext)
            }
        },
        VttyInput::TelnetSbTtype(_, _, _) => InputStep {
            next: VttyInput::TelnetNext,
            store: Seq::empty(),
            effect: if is_title_capable(c) {
                VttyEffect::Title
            } else {
                VttyEffect::Quiet
            },
        },
        VttyInput::TelnetNext => {
            if c == Telnet::IAC {
                quiet(VttyInput::Telnet)
            } else {
                quiet(VttyInput::TelnetNext)
            }
        },
    }
}

/// The outcome of feeding a whole byte sequence to the automaton.
pub struct InputRun {
    /// The state after the last byte.
    pub state: VttyInput,
    /// Every byte stored, in order.
    pub stored: Seq<u8>,
    /// Every byte sent back to the peer as a telnet request, in order.
    pub sent: Seq<u8>,
}

/// The bytes a side effect sends back to the peer as a telnet request.
pub open spec fn effect_request(effect: VttyEffect) -> Seq<u8> {
    if effect == VttyEffect::AskTtype {
        ttype_request()
    } else {
        Seq::empty()
    }
}

/// The automaton started in `state` and fed `bytes` from first to last.
pub open spec fn input_run(state: VttyInput, bytes: Seq<u8>, ctrl_code_ok: bool) -> InputRun
    decreases bytes.len(),
{
    if bytes.len() == 0 {
        InputRun { state, stored: Seq::empty(), sent: Seq::empty() }
    } else {
        let before = input_run(state, bytes.drop_last(), ctrl_code_ok);
        let step = input_step(before.state, bytes.last(), ctrl_code_ok);
        InputRun {
            state: step.next,
            stored: before.stored + step.store,
            sent: before.sent + effect_request(step.effect),
        }
    }
}

/// Whether `c` passes through the text state untouched whatever the
/// control escape setting.
pub open spec fn is_plain(c: u8) -> bool {
    c != 0x1b && c != 0x1d && c != 0xb3 && c != 0xff && c != 0x00 && c != 0x0a
}

/// One step of the automaton, computed.
pub fn vtty_input(state: VttyInput, c: u8, ctrl_code_ok: bool) -> (r: (
    VttyInput,
    Vec<u8>,
    VttyEffect,
))
    ensures
        r.0 == input_step(state, c, ctrl_code_ok).next,
        r.1@ == input_step(state, c, ctrl_code_ok).store,
        r.2 == input_step(state, c, ctrl_code_ok).effect,
{
    let mut store: Vec<u8> = Vec::new();
    let mut effect = VttyEffect::Quiet;
    let mut next = VttyInput::Text;
    match state {
        VttyInput::Text => {
            if c == 0x1b {
                next = VttyInput::Vt1;
            } else if (c == 0x1d || c == 0xb3) && ctrl_code_ok {
                // Ctrl + ']' (0x1d, 29), or Alt-Gr + '*' (0xb3, 179)
                next = VttyInput::Remote;
            } else if c == Telnet::IAC {
                next = VttyInput::Telnet;
            } else if c == 0x00 || c == 0x0a {
                // NUL is generated by some telnet clients, LF follows CR on
                // others: neither reaches the device.
            } else {
                store.push(c);
            }
        },
        VttyInput::Vt1 => {
            if c == 0x5b {
                next = VttyInput::Vt2;
            } else {
                store.push(0x1b);
                store.push(c);
            }
        },
        VttyInput::Vt2 => {
            if c == 0x41 {
                // Up Arrow
                store.push(16);
            } else if c == 0x42 {
                // Down Arrow
                store.push(14);
            } else if c == 0x43 {
                // Right Arrow
                store.push(6);
            } else if c == 0x44 {
                // Left Arrow
                store.push(2);
            } else {
                store.push(0x1b);
                store.push(0x5b);
                store.push(c);
            }
        },
        VttyInput::Remote => {
            effect = VttyEffect::Remote(c);
        },
        VttyInput::Telnet => {
            if c == Telnet::WILL || c == Telnet::WONT || c == Telnet::DO || c == Telnet::DONT {
                next = VttyInput::TelnetIyou(c);
            } else if c == Telnet::SB {
                next = VttyInput::TelnetSb1(c);
            } else if c == Telnet::IAC {
                store.push(Telnet::IAC);
            }
        },
        VttyInput::TelnetIyou(cmd) => {
            // if the client can tell its terminal type, ask for it
            if cmd == Telnet::WILL && c == Telnet::TELOPT_TTYPE {
                effect = VttyEffect::AskTtype;
            }
        },
        VttyInput::TelnetSb1(cmd) => {
            next = VttyInput::TelnetSb2(cmd, c);
        },
        VttyInput::TelnetSb2(cmd, opt) => {
            if opt == Telnet::TELOPT_TTYPE && c == Telnet::TELQUAL_IS {
                next = VttyInput::TelnetSbTtype(cmd, opt, c);
            } else {
                next = VttyInput::TelnetNext;
            }
        },
        VttyInput::TelnetSbTtype(_, _, _) => {
            // the first character of the type string is sufficient
            if c == 0x78 || c == 0x58 || c == 0x76 || c == 0x56 {
                effect = VttyEffect::Title;
            }
            next = VttyInput::TelnetNext;
        },
        VttyInput::TelnetNext => {
            // ignore everything until the next IAC
            if c == Telnet::IAC {
                next = VttyInput::Telnet;
            } else {
                next = VttyInput::TelnetNext;
            }
        },
    }
    (next, store, effect)
}

/// A run over `bytes + more` is the run over `bytes` continued over `more`.
pub proof fn lemma_input_run_concat(
    state: VttyInput,
    bytes: Seq<u8>,
    more: Seq<u8>,
    ctrl_code_ok: bool,
)
    ensures
        ({
            let first = input_run(state, bytes, ctrl_code_ok);
            let second = input_run(first.state, more, ctrl_code_ok);
            let whole = input_run(state, bytes + more, ctrl_code_ok);
            &&& whole.state == second.state
            &&& whole.stored == first.stored + second.stored
            &&& whole.sent == first.sent + second.sent
        }),
    decreases more.len(),
{
    let first = input_run(state, bytes, ctrl_code_ok);
    if more.len() == 0 {
        assert(bytes + more == bytes);
        assert(first.stored + Seq::<u8>::empty() == first.stored);
        assert(first.sent + Seq::<u8>::empty() == first.sent);
    } else {
        lemma_input_run_concat(state, bytes, more.drop_last(), ctrl_code_ok);
        assert((bytes + more).drop_last() == bytes + more.drop_last());
        assert((bytes + more).last() == more.last());
        let second = input_run(first.state, more.drop_last(), ctrl_code_ok);
        let step = input_step(second.state, more.last(), ctrl_code_ok);
        assert((first.stored + second.stored) + step.store == first.stored + (second.stored
            + step.store));
        assert((first.sent + second.sent) + effect_request(step.effect) == first.sent + (
        second.sent + effect_request(step.effect)));
    }
}

/// A run over a single byte is one step.
pub proof fn lemma_input_run_one(state: VttyInput, c: u8, ctrl_code_ok: bool)
    ensures
        input_run(state, seq![c], ctrl_code_ok).state == input_step(state, c, ctrl_code_ok).next,
        input_run(state, seq![c], ctrl_code_ok).stored == input_step(state, c, ctrl_code_ok).store,
        input_run(state, seq![c], ctrl_code_ok).sent == effect_request(
            input_step(state, c, ctrl_code_ok).effect,
        ),
{
    let s = seq![c];
    assert(s.drop_last() == Seq::<u8>::empty());
    assert(s.last() == c);
    let before = input_run(state, s.drop_last(), ctrl_code_ok);
    assert(before.state == state);
    let step = input_step(state, c, ctrl_code_ok);
    assert(Seq::<u8>::empty() + step.store == step.store);
    assert(Seq::<u8>::empty() + effect_request(step.effect) == effect_request(step.effect));
}

/// Plain text passes unchanged: a run from the text state over bytes none of
/// which is `0x1b`, `0x1d`, `0xb3`, `0xff`, `0x00` or `0x0a` stores exactly
/// those bytes, in order, sends nothing and ends in the text state.
pub proof fn law_plain_text_is_stored_unchanged(bytes: Seq<u8>, ctrl_code_ok: bool)
    requires
        forall|i: int| 0 <= i < bytes.len() ==> is_plain(#[trigger] bytes[i]),
    ensures
        input_run(VttyInput::Text, bytes, ctrl_code_ok).stored == bytes,
        input_run(VttyInput::Text, bytes, ctrl_code_ok).sent == Seq::<u8>::empty(),
        input_run(VttyInput::Text, bytes, ctrl_code_ok).state == VttyInput::Text,
    decreases bytes.len(),
{
    if bytes.len() > 0 {
        law_plain_text_is_stored_unchanged(bytes.drop_last(), ctrl_code_ok);
        assert(is_plain(bytes[bytes.len() - 1]));
        assert(bytes.drop_last() + seq![bytes.last()] == bytes);
    }
}

/// In the text state a NUL and a line feed are dropped: nothing is stored,
/// nothing is asked for, and the state stays the text state.
pub proof fn law_nul_and_lf_are_never_stored(c: u8, ctrl_code_ok: bool)
    requires
        c == 0x00 || c == 0x0a,
    ensures
        input_step(VttyInput::Text, c, ctrl_code_ok).store == Seq::<u8>::empty(),
        input_step(VttyInput::Text, c, ctrl_code_ok).effect == VttyEffect::Quiet,
        input_step(VttyInput::Text, c, ctrl_code_ok).next == VttyInput::Text,
{
}

/// The control code that stands for an arrow key's final byte.
pub open spec fn arrow_code(key: u8) -> u8 {
    if key == 0x41 {
        0x10
    } else if key == 0x42 {
        0x0e
    } else if key == 0x43 {
        0x06
    } else {
        0x02
    }
}

/// An arrow key sequence `ESC [ A` .. `ESC [ D` met in the text state stores
/// exactly one byte, the control code of the key, and returns to the text
/// state.
pub proof fn law_arrow_keys_become_control_codes(key: u8, ctrl_code_ok: bool)
    requires
        0x41 <= key <= 0x44,
    ensures
        input_run(VttyInput::Text, seq![0x1bu8, 0x5bu8, key], ctrl_code_ok).stored == seq![
            arrow_code(key),
        ],
        input_run(VttyInput::Text, seq![0x1bu8, 0x5bu8, key], ctrl_code_ok).state
            == VttyInput::Text,
{
    lemma_input_run_one(VttyInput::Text, 0x1b, ctrl_code_ok);
    lemma_input_run_one(VttyInput::Vt1, 0x5b, ctrl_code_ok);
    lemma_input_run_one(VttyInput::Vt2, key, ctrl_code_ok);
    lemma_input_run_concat(VttyInput::Text, seq![0x1bu8], seq![0x5bu8], ctrl_code_ok);
    assert(seq![0x1bu8] + seq![0x5bu8] == seq![0x1bu8, 0x5bu8]);
    lemma_input_run_concat(VttyInput::Text, seq![0x1bu8, 0x5bu8], seq![key], ctrl_code_ok);
    assert(seq![0x1bu8, 0x5bu8] + seq![key] == seq![0x1bu8, 0x5bu8, key]);
    assert(Seq::<u8>::empty() + Seq::<u8>::empty() == Seq::<u8>::empty());
    assert(Seq::<u8>::empty() + seq![arrow_code(key)] == seq![arrow_code(key)]);
}

/// An escape that opens no arrow sequence is kept: `ESC` followed by any
/// byte but `[`, met in the text state, stores both bytes unchanged.
pub proof fn law_lone_escape_is_kept(other: u8, ctrl_code_ok: bool)
    requires
        other != 0x5b,
    ensures
        input_run(VttyInput::Text, seq![0x1bu8, other], ctrl_code_ok).stored == seq![
            0x1bu8,
            other,
        ],
        input_run(VttyInput::Text, seq![0x1bu8, other], ctrl_code_ok).state == VttyInput::Text,
{
    lemma_input_run_one(VttyInput::Text, 0x1b, ctrl_code_ok);
    lemma_input_run_one(VttyInput::Vt1, other, ctrl_code_ok);
    lemma_input_run_concat(VttyInput::Text, seq![0x1bu8], seq![other], ctrl_code_ok);
    assert(seq![0x1bu8] + seq![other] == seq![0x1bu8, other]);
    assert(Seq::<u8>::empty() + seq![0x1bu8, other] == seq![0x1bu8, other]);
}

/// A terminal type offer `IAC WILL TTYPE` met in the text state is answered
/// with exactly `IAC SB TTYPE SEND IAC SE`, and no byte is stored.
pub proof fn law_ttype_offer_is_answered(ctrl_code_ok: bool)
    ensures
        input_run(
            VttyInput::Text,
            seq![Telnet::IAC, Telnet::WILL, Telnet::TELOPT_TTYPE],
            ctrl_code_ok,
        ).sent == seq![255u8, 250u8, 24u8, 1u8, 255u8, 240u8],
        input_run(
            VttyInput::Text,
            seq![Telnet::IAC, Telnet::WILL, Telnet::TELOPT_TTYPE],
            ctrl_code_ok,
        ).stored == Seq::<u8>::empty(),
        input_run(
            VttyInput::Text,
            seq![Telnet::IAC, Telnet::WILL, Telnet::TELOPT_TTYPE],
            ctrl_code_ok,
        ).state == VttyInput::Text,
{
    let iac = Telnet::IAC;
    let will = Telnet::WILL;
    let ttype = Telnet::TELOPT_TTYPE;
    lemma_input_run_one(VttyInput::Text, iac, ctrl_code_ok);
    lemma_input_run_one(VttyInput::Telnet, will, ctrl_code_ok);
    lemma_input_run_one(VttyInput::TelnetIyou(will), ttype, ctrl_code_ok);
    lemma_input_run_concat(VttyInput::Text, seq![iac], seq![will], ctrl_code_ok);
    assert(seq![iac] + seq![will] == seq![iac, will]);
    lemma_input_run_concat(VttyInput::Text, seq![iac, will], seq![ttype], ctrl_code_ok);
    assert(seq![iac, will] + seq![ttype] == seq![iac, will, ttype]);
    assert(Seq::<u8>::empty() + Seq::<u8>::empty() == Seq::<u8>::empty());
    assert(Seq::<u8>::empty() + ttype_request() == ttype_request());
    assert(ttype_request() == seq![255u8, 250u8, 24u8, 1u8, 255u8, 240u8]);
}

} // verus!
