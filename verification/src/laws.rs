//! Properties of the instruction set, proved of the model that the
//! contracts of the machine's operations speak of.

use vstd::prelude::*;
use crate::cpu::reads_random;
use crate::decode::{op_family, op_n, op_nn, op_nnn, op_x, op_y};
use crate::machine::Machine;
use crate::semantics::{
    after_execute, apply_spec, at_fetch, cycle_outcome, cycle_spec, execute_outcome, execute_spec,
    fetch_spec, key_wait_spec, lemma_lowest_down_is_unique, reported, settled, sprite_covers,
    steps, tick_spec,
};
use crate::state::{ChipState, Chip8Error};

verus! {

/// Whether `op` is an instruction of the machine.
pub open spec fn recognized(op: u16) -> bool {
    let f = op_family(op);
    let n = op_n(op);
    let nn = op_nn(op);
    if f == 0x0 {
        op_nnn(op) == 0x0E0 || op_nnn(op) == 0x0EE
    } else if f == 0x5 || f == 0x9 {
        n == 0
    } else if f == 0x8 {
        n <= 7 || n == 0xE
    } else if f == 0xE {
        nn == 0x9E || nn == 0xA1
    } else if f == 0xF {
        nn == 0x07 || nn == 0x0A || nn == 0x15 || nn == 0x18 || nn == 0x1E || nn == 0x29 || nn
            == 0x33 || nn == 0x55 || nn == 0x65
    } else {
        true
    }
}

/// Every step keeps the machine well formed, whatever it executes.
pub proof fn law_steps_keep_well_formed(m: Machine, random: u8)
    requires
        m.wf(),
    ensures
        after_execute(m, random).wf(),
        cycle_spec(m, random).wf(),
        tick_spec(m).wf(),
{
}

/// A halted machine is never changed again: not by executing, not by a
/// step of the driving loop, not by a tick. Each attempt reports the error
/// that halted it.
pub proof fn law_halted_is_terminal(m: Machine, e: Chip8Error, random: u8)
    requires
        m.state == ChipState::Halt(e),
    ensures
        after_execute(m, random) == m,
        execute_outcome(m, random) == Err::<(), Chip8Error>(e),
        cycle_spec(m, random) == m,
        cycle_outcome(m, random) == Err::<(), Chip8Error>(e),
        tick_spec(m) == m,
{
}

/// A paused machine is not changed by executing, by a step of the driving
/// loop or by a tick, and loses nothing.
pub proof fn law_paused_keeps_still(m: Machine, random: u8)
    requires
        m.state == ChipState::Pause,
    ensures
        after_execute(m, random) == m,
        execute_outcome(m, random) == Ok::<(), Chip8Error>(()),
        cycle_spec(m, random) == m,
        cycle_outcome(m, random) == Ok::<(), Chip8Error>(()),
        tick_spec(m) == m,
{
}

/// A machine that executes instructions applies the word at its program
/// counter and nothing else: what holds of a word's effect holds of the
/// machine after the step.
pub proof fn law_execute_applies_the_fetched_word(m: Machine, op: u16, random: u8)
    requires
        steps(m.state),
        fetch_spec(m) == Ok::<u16, Chip8Error>(op),
    ensures
        after_execute(m, random) == settled(m, apply_spec(m, op, random)),
        execute_outcome(m, random) == reported(apply_spec(m, op, random)),
        cycle_spec(m, random) == settled(at_fetch(m), apply_spec(at_fetch(m), op, random)),
        cycle_outcome(m, random) == reported(apply_spec(at_fetch(m), op, random)),
{
    assert(fetch_spec(at_fetch(m)) == fetch_spec(m));
}

/// A step reports an error exactly when it halts a machine that was not
/// halted before, and then nothing but the execution state has changed.
pub proof fn law_errors_halt(m: Machine, random: u8)
    requires
        !(m.state is Halt),
    ensures
        match cycle_outcome(m, random) {
            Ok(_) => !(cycle_spec(m, random).state is Halt),
            Err(e) => cycle_spec(m, random) == m.halted(e),
        },
{
}

/// Only `Cxnn` depends on the random byte.
pub proof fn law_random_byte_matters_only_to_cxnn(m: Machine, first: u8, second: u8)
    requires
        !reads_random(m),
    ensures
        after_execute(m, first) == after_execute(m, second),
        execute_outcome(m, first) == execute_outcome(m, second),
{
}

/// An instruction word outside the instruction set halts the machine with
/// `UnknownOpcode` and changes nothing else; no word of the instruction set
/// gives that error.
pub proof fn law_unknown_opcode_halts(m: Machine, op: u16, random: u8)
    requires
        steps(m.state),
        fetch_spec(m) == Ok::<u16, Chip8Error>(op),
    ensures
        !recognized(op) ==> after_execute(m, random) == m.halted(Chip8Error::UnknownOpcode)
            && execute_outcome(m, random) == Err::<(), Chip8Error>(Chip8Error::UnknownOpcode),
        recognized(op) ==> execute_outcome(m, random) != Err::<(), Chip8Error>(
            Chip8Error::UnknownOpcode,
        ),
{
}

/// `7xnn` never fails: it leaves the sum of `Vx` and `nn` modulo 256 in `Vx`
/// and touches no other register, the flag register included.
pub proof fn law_add_immediate_wraps(m: Machine, op: u16, random: u8)
    requires
        m.wf(),
        op_family(op) == 0x7,
    ensures
        apply_spec(m, op, random) is Ok,
        ({
            let next = apply_spec(m, op, random)->Ok_0;
            &&& next.v[op_x(op)] == (m.v[op_x(op)] + op_nn(op)) % 256
            &&& forall|j: int| 0 <= j < 16 && j != op_x(op) ==> next.v[j] == m.v[j]
            &&& next == Machine { v: next.v, pc: m.pc + 2, ..m }
        }),
{
}

/// `8xy4`, for `x` other than the flag register itself: `Vx` becomes the sum
/// modulo 256, and the flag is 1 exactly when the full sum is beyond 255,
/// else 0.
pub proof fn law_add_registers_carries(m: Machine, op: u16, random: u8)
    requires
        m.wf(),
        op_family(op) == 0x8,
        op_n(op) == 0x4,
        op_x(op) != 0xF,
    ensures
        apply_spec(m, op, random) is Ok,
        ({
            let next = apply_spec(m, op, random)->Ok_0;
            let sum = m.v[op_x(op)] + m.v[op_y(op)];
            &&& next.v[op_x(op)] == sum % 256
            &&& (next.v[0xF] == 1 <==> sum > 255)
            &&& (next.v[0xF] == 0 <==> sum <= 255)
        }),
{
}

/// `8xy5`, for `x` other than the flag register itself: `Vx` becomes the
/// difference modulo 256, and the flag is 1 exactly when `Vx` was at least
/// `Vy`, else 0.
pub proof fn law_subtract_registers_borrows(m: Machine, op: u16, random: u8)
    requires
        m.wf(),
        op_family(op) == 0x8,
        op_n(op) == 0x5,
        op_x(op) != 0xF,
    ensures
        apply_spec(m, op, random) is Ok,
        ({
            let next = apply_spec(m, op, random)->Ok_0;
            let minuend = m.v[op_x(op)];
            let subtrahend = m.v[op_y(op)];
            &&& next.v[op_x(op)] == (minuend - subtrahend) % 256
            &&& (next.v[0xF] == 1 <==> minuend >= subtrahend)
            &&& (next.v[0xF] == 0 <==> minuend < subtrahend)
        }),
{
}

/// Drawing is its own inverse. Where neither coordinate is taken from the
/// flag register, so that the second draw is at the place of the first: two
/// draws of the same sprite leave the display as it was, and the second one
/// raises the flag exactly when the first one lit a pixel.
pub proof fn law_draw_twice_restores(m: Machine, op: u16, random: u8)
    requires
        m.wf(),
        op_family(op) == 0xD,
        op_x(op) != 0xF,
        op_y(op) != 0xF,
        apply_spec(m, op, random) is Ok,
    ensures
        ({
            let once = apply_spec(m, op, random)->Ok_0;
            let twice = apply_spec(once, op, random);
            &&& twice is Ok
            &&& twice->Ok_0.gfx == m.gfx
            &&& (twice->Ok_0.v[0xF] == 1 <==> exists|k: int| #[trigger]
                sprite_covers(m, op, k) && m.gfx[k] == 0)
        }),
{
    let once = apply_spec(m, op, random)->Ok_0;
    let twice = apply_spec(once, op, random);
    assert forall|k: int| sprite_covers(once, op, k) == sprite_covers(m, op, k) by {}
    assert(twice->Ok_0.gfx =~= m.gfx);
    if twice->Ok_0.v[0xF] == 1 {
        let k = choose|k: int| #[trigger] sprite_covers(once, op, k) && once.gfx[k] == 1;
        assert(sprite_covers(m, op, k) && m.gfx[k] == 0);
    }
    if exists|k: int| #[trigger] sprite_covers(m, op, k) && m.gfx[k] == 0 {
        let k = choose|k: int| #[trigger] sprite_covers(m, op, k) && m.gfx[k] == 0;
        assert(sprite_covers(once, op, k) && once.gfx[k] == 1);
    }
}

/// `Fx55` followed by `Fx65` with the same `x` gives the registers `V0` to
/// `Vx` back as they were stored, whatever the registers held in between.
/// Both succeed exactly when `I + x` lies in memory, and neither changes `I`.
pub proof fn law_dump_then_load_round_trips(
    m: Machine,
    dump: u16,
    load: u16,
    scratch: Seq<u8>,
    random: u8,
)
    requires
        m.wf(),
        scratch.len() == 16,
        op_family(dump) == 0xF,
        op_nn(dump) == 0x55,
        op_family(load) == 0xF,
        op_nn(load) == 0x65,
        op_x(dump) == op_x(load),
    ensures
        apply_spec(m, dump, random) is Ok <==> m.i + op_x(dump) < 4096,
        apply_spec(m, dump, random) is Ok ==> ({
            let dumped = apply_spec(m, dump, random)->Ok_0;
            let loaded = apply_spec(Machine { v: scratch, ..dumped }, load, random);
            &&& dumped.i == m.i
            &&& dumped.v == m.v
            &&& loaded is Ok
            &&& loaded->Ok_0.i == m.i
            &&& loaded->Ok_0.memory == dumped.memory
            &&& forall|j: int| 0 <= j <= op_x(dump) ==> loaded->Ok_0.v[j] == m.v[j]
        }),
{
}

/// A call followed at once by a return continues behind the call, with the
/// stack pointer as before.
pub proof fn law_call_then_return(m: Machine, call: u16, ret: u16, random: u8)
    requires
        m.wf(),
        m.pc + 1 < 4096,
        m.sp < 16,
        op_family(call) == 0x2,
        ret == 0x00EE,
    ensures
        apply_spec(m, call, random) is Ok,
        ({
            let called = apply_spec(m, call, random)->Ok_0;
            let returned = apply_spec(called, ret, random);
            &&& called.pc == op_nnn(call)
            &&& called.sp == m.sp + 1
            &&& returned is Ok
            &&& returned->Ok_0.pc == m.pc + 2
            &&& returned->Ok_0.sp == m.sp
        }),
{
}

/// The display signals are given for one step only: after a step the
/// machine signals a draw exactly when that step drew a sprite, and a clear
/// exactly when that step was `00E0`.
pub proof fn law_display_signals_are_one_shot(m: Machine, random: u8)
    requires
        m.wf(),
        steps(m.state),
    ensures
        cycle_spec(m, random).state == ChipState::Draw <==> (match fetch_spec(m) {
            Ok(op) => op_family(op) == 0xD && apply_spec(at_fetch(m), op, random) is Ok,
            Err(_) => false,
        }),
        cycle_spec(m, random).state == ChipState::Clear <==> fetch_spec(m) == Ok::<
            u16,
            Chip8Error,
        >(0x00E0),
{
    let start = at_fetch(m);
    assert(fetch_spec(start) == fetch_spec(m));
}

/// A machine that waits for a key runs again only by an `Fx0A` that finds a
/// key down.
pub proof fn law_blocked_resumes_only_by_key(m: Machine, random: u8)
    requires
        m.wf(),
        m.state is Block,
        cycle_spec(m, random).state == ChipState::Run,
    ensures
        !m.no_key_down(),
        match fetch_spec(m) {
            Ok(op) => op_family(op) == 0xF && op_nn(op) == 0x0A,
            Err(_) => false,
        },
{
}

/// While no key is down, a step on `Fx0A` marks the machine as waiting for
/// register `x` and changes nothing else, so the next step finds the same
/// instruction again and does the same.
pub proof fn law_key_wait_blocks(m: Machine, op: u16, random: u8)
    requires
        m.wf(),
        steps(m.state),
        fetch_spec(m) == Ok::<u16, Chip8Error>(op),
        op_family(op) == 0xF,
        op_nn(op) == 0x0A,
        m.no_key_down(),
    ensures
        cycle_spec(m, random) == m.with_state(ChipState::Block(op_x(op) as u8)),
        cycle_outcome(m, random) == Ok::<(), Chip8Error>(()),
        cycle_spec(cycle_spec(m, random), random) == cycle_spec(m, random),
{
    let start = at_fetch(m);
    let waiting = m.with_state(ChipState::Block(op_x(op) as u8));
    assert(start.no_key_down());
    assert(fetch_spec(start) == fetch_spec(m));
    assert(execute_spec(start, random) == Ok::<Machine, Chip8Error>(key_wait_spec(start, op)));
    assert(cycle_spec(m, random) == waiting);
    assert(waiting.no_key_down());
    assert(fetch_spec(waiting) == fetch_spec(m));
    assert(execute_spec(waiting, random) == Ok::<Machine, Chip8Error>(key_wait_spec(waiting, op)));
}

/// Once a key is down, a step on `Fx0A` puts the lowest such key into `Vx`,
/// moves to the next instruction and leaves the machine running.
pub proof fn law_key_wait_takes_lowest_key(m: Machine, op: u16, k: int, random: u8)
    requires
        m.wf(),
        steps(m.state),
        fetch_spec(m) == Ok::<u16, Chip8Error>(op),
        op_family(op) == 0xF,
        op_nn(op) == 0x0A,
        m.lowest_key_down(k),
    ensures
        cycle_spec(m, random) == m.set_v(op_x(op), k as u8).with_state(ChipState::Run).advance(),
        cycle_outcome(m, random) == Ok::<(), Chip8Error>(()),
{
    let start = at_fetch(m);
    lemma_lowest_down_is_unique(start.keys, k);
    assert(fetch_spec(start) == fetch_spec(m));
    assert(execute_spec(start, random) == Ok::<Machine, Chip8Error>(key_wait_spec(start, op)));
}

} // verus!
