//! The console session: an interactive, echoing byte-stream protocol over
//! the polled UART.
//!
//! The session is a three-state machine over single input bytes. Normal
//! bytes echo; carriage return re-emits the prompt; an escape byte opens an
//! ANSI escape sequence, whose arrow-key finals emit a direction label;
//! backspace and delete emit a visual erase; Ctrl-C, in the Normal state
//! only, ends the session with a termination banner. Malformed escape
//! sequences are absorbed silently and the machine returns to Normal —
//! nothing is ever rejected or reported upward.

use vstd::prelude::*;

use crate::text::{push_str, str_bytes};
use crate::uart::UartDriver;

verus! {

/// Ctrl-C: end the session.
pub const CTRL_C: u8 = 0x03;
/// Carriage return: the Enter key.
pub const CR: u8 = 0x0D;
/// Escape: opens an ANSI escape sequence.
pub const ESC: u8 = 0x1B;
/// Backspace.
pub const BS: u8 = 0x08;
/// Delete, treated like backspace.
pub const DEL: u8 = 0x7F;
/// The left bracket that continues an ANSI escape sequence.
pub const LBRACKET: u8 = 0x5B;

/// Parse state of the console session.
#[derive(Clone, Copy, PartialEq, Eq, Structural, Debug)]
pub enum ConsoleState {
    /// No escape sequence underway; the initial and default state.
    Normal,
    /// An escape byte has been seen.
    EscapeSeen,
    /// An escape byte and then a left bracket have been seen.
    EscapeBracketSeen,
}

/// The prompt, re-emitted after every Enter.
pub open spec fn prompt_text() -> Seq<u8> {
    str_bytes("~ ")
}

/// What Enter emits: a fresh line and the prompt again.
pub open spec fn enter_text() -> Seq<u8> {
    str_bytes("\r\n~ ")
}

/// The visual erase for backspace: step back, blank the cell, step back.
/// No buffer is maintained or edited.
pub open spec fn erase_text() -> Seq<u8> {
    str_bytes("\u{8} \u{8}")
}

/// The termination banner Ctrl-C emits.
pub open spec fn exit_text() -> Seq<u8> {
    str_bytes("\r\n^C: minux exiting\r\n")
}

/// The label for the up arrow.
pub open spec fn up_text() -> Seq<u8> {
    str_bytes("up\r\n")
}

/// The label for the down arrow.
pub open spec fn down_text() -> Seq<u8> {
    str_bytes("down\r\n")
}

/// The label for the right arrow.
pub open spec fn right_text() -> Seq<u8> {
    str_bytes("right\r\n")
}

/// The label for the left arrow.
pub open spec fn left_text() -> Seq<u8> {
    str_bytes("left\r\n")
}

/// Where one byte takes the parse state. Only an escape byte in Normal and
/// a left bracket after it lead away from Normal; every other byte, in
/// every state, leads back to Normal.
pub open spec fn next_state(s: ConsoleState, b: u8) -> ConsoleState {
    match s {
        ConsoleState::Normal => if b == ESC {
            ConsoleState::EscapeSeen
        } else {
            ConsoleState::Normal
        },
        ConsoleState::EscapeSeen => if b == LBRACKET {
            ConsoleState::EscapeBracketSeen
        } else {
            ConsoleState::Normal
        },
        ConsoleState::EscapeBracketSeen => ConsoleState::Normal,
    }
}

/// Whether one byte ends the session: Ctrl-C, and only in Normal. In the
/// two escape states Ctrl-C is just an unrecognized byte.
pub open spec fn step_exits(s: ConsoleState, b: u8) -> bool {
    s == ConsoleState::Normal && b == CTRL_C
}

/// What one byte makes the session emit.
pub open spec fn step_output(s: ConsoleState, b: u8) -> Seq<u8> {
    match s {
        ConsoleState::Normal => if b == CTRL_C {
            exit_text()
        } else if b == CR {
            enter_text()
        } else if b == ESC {
            Seq::<u8>::empty()
        } else if b == BS || b == DEL {
            erase_text()
        } else {
            seq![b]
        },
        ConsoleState::EscapeSeen => Seq::<u8>::empty(),
        ConsoleState::EscapeBracketSeen => if b == 'A' as u8 {
            up_text()
        } else if b == 'B' as u8 {
            down_text()
        } else if b == 'C' as u8 {
            right_text()
        } else if b == 'D' as u8 {
            left_text()
        } else {
            Seq::<u8>::empty()
        },
    }
}

/// Feed one byte to the session: append what it emits to `out`, and report
/// the next parse state and whether the session is over.
pub fn console_step(state: ConsoleState, byte: u8, out: &mut Vec<u8>) -> (r: (ConsoleState, bool))
    ensures
        r.0 == next_state(state, byte),
        r.1 == step_exits(state, byte),
        final(out)@ == old(out)@ + step_output(state, byte),
{
    let r = match state {
        ConsoleState::Normal => {
            if byte == CTRL_C {
                push_str(out, "\r\n^C: minux exiting\r\n");
                (ConsoleState::Normal, true)
            } else if byte == CR {
                push_str(out, "\r\n~ ");
                (ConsoleState::Normal, false)
            } else if byte == ESC {
                (ConsoleState::EscapeSeen, false)
            } else if byte == BS || byte == DEL {
                push_str(out, "\u{8} \u{8}");
                (ConsoleState::Normal, false)
            } else {
                out.push(byte);
                (ConsoleState::Normal, false)
            }
        },
        ConsoleState::EscapeSeen => {
            if byte == LBRACKET {
                (ConsoleState::EscapeBracketSeen, false)
            } else {
                (ConsoleState::Normal, false)
            }
        },
        ConsoleState::EscapeBracketSeen => {
            if byte == 'A' as u8 {
                push_str(out, "up\r\n");
            } else if byte == 'B' as u8 {
                push_str(out, "down\r\n");
            } else if byte == 'C' as u8 {
                push_str(out, "right\r\n");
            } else if byte == 'D' as u8 {
                push_str(out, "left\r\n");
            }
            (ConsoleState::Normal, false)
        },
    };
    assert(out@ =~= old(out)@ + step_output(state, byte));
    r
}

/// What a whole session does from a given state over a given input.
pub struct ConsoleRun {
    /// Everything the session emits.
    pub output: Seq<u8>,
    /// The parse state when the session stops consuming.
    pub state: ConsoleState,
    /// Whether Ctrl-C ended the session.
    pub exited: bool,
    /// The input left unconsumed after a Ctrl-C exit.
    pub remaining: Seq<u8>,
}

/// Run the session over `input`: consume byte after byte until Ctrl-C ends
/// it in Normal, or the input is exhausted — the polled device has no more
/// data, where real hardware would leave the loop busy-spinning.
pub open spec fn console_run(s: ConsoleState, input: Seq<u8>) -> ConsoleRun
    decreases input.len(),
{
    if input.len() == 0 {
        ConsoleRun { output: Seq::<u8>::empty(), state: s, exited: false, remaining: input }
    } else if step_exits(s, input[0]) {
        ConsoleRun {
            output: step_output(s, input[0]),
            state: next_state(s, input[0]),
            exited: true,
            remaining: input.drop_first(),
        }
    } else {
        let rest = console_run(next_state(s, input[0]), input.drop_first());
        ConsoleRun {
            output: step_output(s, input[0]) + rest.output,
            state: rest.state,
            exited: rest.exited,
            remaining: rest.remaining,
        }
    }
}

/// Drive a console session over the UART, starting in Normal: poll for a
/// byte, feed it to the state machine, transmit what it emits, and stop on
/// Ctrl-C or when no more data is pending. Returns the final parse state
/// and whether Ctrl-C ended the session. While the transmitter is busy the
/// session's whole output is dropped byte by byte, as the transmit path
/// accepts.
pub fn console_session(uart: &mut UartDriver) -> (r: (ConsoleState, bool))
    requires
        !old(uart).dlab(),
    ensures
        ({
            let run = console_run(ConsoleState::Normal, old(uart).rx_fifo@);
            final(uart).cfg_eq(*old(uart)) && final(uart).rx_fifo@ == run.remaining
                && final(uart).tx_log@ == old(uart).tx_log@ + (
            if old(uart).tx_ready {
                run.output
            } else {
                Seq::<u8>::empty()
            }) && r.0 == run.state && r.1 == run.exited
        }),
{
    let ghost full = console_run(ConsoleState::Normal, old(uart).rx_fifo@);
    let mut state = ConsoleState::Normal;
    let mut exited = false;
    let ghost mut emitted = Seq::<u8>::empty();
    loop
        invariant_except_break
            !exited,
            !uart.dlab(),
            uart.cfg_eq(*old(uart)),
            full == console_run(ConsoleState::Normal, old(uart).rx_fifo@),
            full.output == emitted + console_run(state, uart.rx_fifo@).output,
            full.state == console_run(state, uart.rx_fifo@).state,
            full.exited == console_run(state, uart.rx_fifo@).exited,
            full.remaining == console_run(state, uart.rx_fifo@).remaining,
            uart.tx_log@ == old(uart).tx_log@ + (
            if old(uart).tx_ready {
                emitted
            } else {
                Seq::<u8>::empty()
            }),
        ensures
            uart.cfg_eq(*old(uart)),
            uart.rx_fifo@ == full.remaining,
            uart.tx_log@ == old(uart).tx_log@ + (
            if old(uart).tx_ready {
                full.output
            } else {
                Seq::<u8>::empty()
            }),
            state == full.state,
            exited == full.exited,
        decreases uart.rx_fifo@.len(),
    {
        let ghost rx_before = uart.rx_fifo@;
        let next = uart.uart_getc();
        match next {
            None => {
                proof {
                    assert(emitted + console_run(state, rx_before).output =~= emitted);
                }
                break ;
            },
            Some(c) => {
                let mut out: Vec<u8> = Vec::new();
                let (next_st, quit) = console_step(state, c, &mut out);
                uart.put_bytes(out.as_slice());
                proof {
                    assert(rx_before =~= seq![c] + uart.rx_fifo@);
                    assert(rx_before[0] == c);
                    let step = step_output(state, c);
                    if old(uart).tx_ready {
                        assert(uart.tx_log@ =~= old(uart).tx_log@ + (emitted + step));
                    }
                    if !step_exits(state, c) {
                        let rest = console_run(next_st, uart.rx_fifo@);
                        assert(console_run(state, rx_before).output == step + rest.output);
                        assert(emitted + (step + rest.output) =~= (emitted + step) + rest.output);
                    }
                    emitted = emitted + step;
                }
                state = next_st;
                if quit {
                    exited = true;
                    proof {
                        assert(full.output =~= emitted);
                    }
                    break ;
                }
            },
        }
    }
    (state, exited)
}

/// The console state machine never leaves its three states, and every byte
/// that is not the recognized continuation of the state it arrives in
/// returns the machine to Normal: an escape byte in Normal opens a
/// sequence, a left bracket continues one, and everything else — arrow
/// finals included, since they also end their sequence — lands in Normal.
pub proof fn lemma_state_machine_total(s: ConsoleState, b: u8)
    ensures
        next_state(s, b) == ConsoleState::Normal || next_state(s, b) == ConsoleState::EscapeSeen
            || next_state(s, b) == ConsoleState::EscapeBracketSeen,
        next_state(s, b) == ConsoleState::EscapeSeen <==> (s == ConsoleState::Normal && b == ESC),
        next_state(s, b) == ConsoleState::EscapeBracketSeen <==> (s == ConsoleState::EscapeSeen
            && b == LBRACKET),
{
}

/// Ctrl-C ends the session exactly when it arrives in Normal; in either
/// escape state it is an unrecognized byte like any other — absorbed
/// without output, returning the machine to Normal, and the session goes
/// on.
pub proof fn lemma_ctrl_c(s: ConsoleState)
    ensures
        step_exits(s, CTRL_C) <==> s == ConsoleState::Normal,
        s != ConsoleState::Normal ==> !step_exits(s, CTRL_C) && next_state(s, CTRL_C)
            == ConsoleState::Normal && step_output(s, CTRL_C) == Seq::<u8>::empty(),
{
    assert(CTRL_C != LBRACKET && CTRL_C != 'A' as u8 && CTRL_C != 'B' as u8 && CTRL_C != 'C' as u8
        && CTRL_C != 'D' as u8);
}

/// Ctrl-C received in Normal ends the session at once: the termination
/// banner is everything it emits, the state machine rests in Normal, and
/// whatever followed on the wire is left unconsumed.
pub proof fn lemma_ctrl_c_in_normal_terminates(rest: Seq<u8>)
    ensures
        ({
            let run = console_run(ConsoleState::Normal, seq![CTRL_C] + rest);
            run.exited && run.output == exit_text() && run.remaining == rest && run.state
                == ConsoleState::Normal
        }),
{
    assert((seq![CTRL_C] + rest)[0] == CTRL_C);
    assert((seq![CTRL_C] + rest).drop_first() =~= rest);
}

/// A session fed no Ctrl-C at all never terminates on its own: it consumes
/// the whole input, from any starting state, and is still polling when the
/// data runs out.
pub proof fn lemma_no_ctrl_c_never_terminates(s: ConsoleState, input: Seq<u8>)
    requires
        forall|i: int| 0 <= i < input.len() ==> input[i] != CTRL_C,
    ensures
        !console_run(s, input).exited,
        console_run(s, input).remaining == Seq::<u8>::empty(),
    decreases input.len(),
{
    if input.len() == 0 {
        assert(input =~= Seq::<u8>::empty());
    } else {
        assert(input[0] != CTRL_C);
        assert(forall|i: int|
            0 <= i < input.drop_first().len() ==> input.drop_first()[i] == input[i + 1]
                && input.drop_first()[i] != CTRL_C);
        lemma_no_ctrl_c_never_terminates(next_state(s, input[0]), input.drop_first());
    }
}

/// In Normal, every byte that is not one of the recognized control codes —
/// Ctrl-C, carriage return, escape, backspace, delete — is echoed back
/// exactly once, byte for byte.
pub proof fn lemma_printable_echoed_once(b: u8)
    requires
        b != CTRL_C,
        b != CR,
        b != ESC,
        b != BS,
        b != DEL,
    ensures
        step_output(ConsoleState::Normal, b) == seq![b],
{
}

} // verus!
