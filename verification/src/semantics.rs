//! What each instruction does, stated on the model.
//!
//! Policies for the two places where an address could grow out of range:
//! `Bnnn` sets the program counter to `V0 + nnn`, which is at most 0x10FE and
//! so never leaves the 16-bit address space; a target beyond memory is
//! reported by the next fetch. `Fx1E` wraps `I` modulo 2^16; an access through
//! an `I` beyond memory is reported by the instruction that makes it.

use vstd::prelude::*;
use crate::decode::{op_family, op_n, op_nn, op_nnn, op_x, op_y, word_of};
use crate::machine::Machine;
use crate::state::{ChipState, Chip8Error};

verus! {

impl Machine {
    /// Moves to the next instruction.
    pub open spec fn advance(self) -> Machine {
        Machine { pc: self.pc + 2, ..self }
    }

    /// Moves to the next instruction, or over it when `cond` holds.
    pub open spec fn skip_if(self, cond: bool) -> Machine {
        Machine { pc: self.pc + if cond { 4int } else { 2int }, ..self }
    }

    /// Continues at `target`.
    pub open spec fn jump(self, target: int) -> Machine {
        Machine { pc: target, ..self }
    }

    /// Writes register `x`.
    pub open spec fn set_v(self, x: int, val: u8) -> Machine {
        Machine { v: self.v.update(x, val), ..self }
    }

    /// Writes the index register.
    pub open spec fn set_i(self, i: int) -> Machine {
        Machine { i, ..self }
    }

    /// Replaces the execution state.
    pub open spec fn with_state(self, state: ChipState) -> Machine {
        Machine { state, ..self }
    }

    /// The same machine, stopped by `e`.
    pub open spec fn halted(self, e: Chip8Error) -> Machine {
        self.with_state(ChipState::Halt(e))
    }

    /// Whether key `k` is held down.
    pub open spec fn key_down(self, k: int) -> bool {
        is_down(self.keys, k)
    }

    /// Whether no key at all is held down.
    pub open spec fn no_key_down(self) -> bool {
        none_down(self.keys)
    }

    /// Whether `k` is the lowest key held down.
    pub open spec fn lowest_key_down(self, k: int) -> bool {
        is_lowest_down(self.keys, k)
    }
}

/// Whether the input latch `keys` holds key `k` as down: any value but zero.
pub open spec fn is_down(keys: Seq<u8>, k: int) -> bool {
    keys[k] != 0
}

/// Whether the latch holds no key as down.
pub open spec fn none_down(keys: Seq<u8>) -> bool {
    forall|k: int| 0 <= k < 16 ==> !is_down(keys, k)
}

/// Whether `k` is the lowest key that the latch holds as down.
pub open spec fn is_lowest_down(keys: Seq<u8>, k: int) -> bool {
    &&& 0 <= k < 16
    &&& is_down(keys, k)
    &&& forall|j: int| 0 <= j < k ==> !is_down(keys, j)
}

/// The lowest key that the latch holds as down, where there is one.
pub open spec fn lowest_down(keys: Seq<u8>) -> int {
    choose|k: int| is_lowest_down(keys, k)
}

/// The lowest key that is down is the one and only key that
/// `is_lowest_down` accepts.
pub proof fn lemma_lowest_down_is_unique(keys: Seq<u8>, k: int)
    requires
        is_lowest_down(keys, k),
    ensures
        lowest_down(keys) == k,
        !none_down(keys),
{
    let chosen = lowest_down(keys);
    assert(is_lowest_down(keys, chosen));
    if chosen < k {
        assert(!is_down(keys, chosen));
    }
    if k < chosen {
        assert(!is_down(keys, k));
    }
}

/// A display cell with its pixel inverted.
pub open spec fn flip(cell: u8) -> u8 {
    if cell == 0 { 1 } else { 0 }
}

/// Whether column `col` (0 is the leftmost) is set in a sprite row.
pub open spec fn sprite_bit(row: u8, col: u8) -> bool {
    row & (0x80u8 >> col) != 0
}

/// Whether the sprite of the draw instruction `op` has a set bit on display cell `k`.
/// The sprite's top left corner is at (Vx, Vy); what falls beyond the right or
/// the bottom edge is not drawn.
pub open spec fn sprite_covers(m: Machine, op: u16, k: int) -> bool {
    let col = k % 64 - m.v[op_x(op)];
    let row = k / 64 - m.v[op_y(op)];
    &&& 0 <= k < 2048
    &&& 0 <= col < 8
    &&& 0 <= row < op_n(op)
    &&& sprite_bit(m.memory[m.i + row], col as u8)
}

/// Whether the draw instruction `op` turns a lit pixel off.
pub open spec fn collides(m: Machine, op: u16) -> bool {
    exists|k: int| #[trigger] sprite_covers(m, op, k) && m.gfx[k] == 1
}

/// The display after the draw instruction `op`.
pub open spec fn drawn_gfx(m: Machine, op: u16) -> Seq<u8> {
    Seq::new(2048, |k: int| if sprite_covers(m, op, k) { flip(m.gfx[k]) } else { m.gfx[k] })
}

/// `Dxyn`: XOR an `n`-row sprite from memory at `I` onto the display.
pub open spec fn draw_spec(m: Machine, op: u16) -> Result<Machine, Chip8Error> {
    if op_n(op) > 0 && m.i + op_n(op) > 4096 {
        Err(Chip8Error::MemoryOutOfBounds)
    } else {
        Ok(
            Machine {
                gfx: drawn_gfx(m, op),
                v: m.v.update(0xF, if collides(m, op) { 1u8 } else { 0u8 }),
                state: ChipState::Draw,
                pc: m.pc + 2,
                ..m
            },
        )
    }
}

/// `00E0`: blank the display and signal it.
pub open spec fn clear_spec(m: Machine) -> Machine {
    Machine { gfx: Seq::new(2048, |k: int| 0u8), state: ChipState::Clear, pc: m.pc + 2, ..m }
}

/// `00EE`: pop the address of the call and continue behind it.
pub open spec fn return_spec(m: Machine) -> Result<Machine, Chip8Error> {
    if m.sp == 0 {
        Err(Chip8Error::StackUnderflow)
    } else {
        Ok(Machine { sp: m.sp - 1, pc: m.stack[m.sp - 1] + 2, ..m })
    }
}

/// The `0nnn` family, of which only `00E0` and `00EE` exist.
pub open spec fn system_spec(m: Machine, op: u16) -> Result<Machine, Chip8Error> {
    if op_nnn(op) == 0x0E0 {
        Ok(clear_spec(m))
    } else if op_nnn(op) == 0x0EE {
        return_spec(m)
    } else {
        Err(Chip8Error::UnknownOpcode)
    }
}

/// `2nnn`: push the address of this instruction and continue at `nnn`.
pub open spec fn call_spec(m: Machine, op: u16) -> Result<Machine, Chip8Error> {
    if m.sp >= 16 {
        Err(Chip8Error::StackOverflow)
    } else {
        Ok(Machine { stack: m.stack.update(m.sp, m.pc as u16), sp: m.sp + 1, pc: op_nnn(op), ..m })
    }
}

/// The `8xyN` family: register to register arithmetic. The operands are read
/// first, then the flag register is written, then `Vx`.
pub open spec fn alu_spec(m: Machine, op: u16) -> Result<Machine, Chip8Error> {
    let x = op_x(op);
    let n = op_n(op);
    let vx = m.v[x];
    let vy = m.v[op_y(op)];
    if n == 0x0 {
        Ok(m.set_v(x, vy).advance())
    } else if n == 0x1 {
        Ok(m.set_v(x, vx | vy).advance())
    } else if n == 0x2 {
        Ok(m.set_v(x, vx & vy).advance())
    } else if n == 0x3 {
        Ok(m.set_v(x, vx ^ vy).advance())
    } else if n == 0x4 {
        let carry = if vx + vy > 255 { 1u8 } else { 0u8 };
        Ok(m.set_v(0xF, carry).set_v(x, ((vx + vy) % 256) as u8).advance())
    } else if n == 0x5 {
        let no_borrow = if vx >= vy { 1u8 } else { 0u8 };
        Ok(m.set_v(0xF, no_borrow).set_v(x, ((vx - vy) % 256) as u8).advance())
    } else if n == 0x6 {
        Ok(m.set_v(0xF, vx % 2).set_v(x, vx / 2).advance())
    } else if n == 0x7 {
        let no_borrow = if vy >= vx { 1u8 } else { 0u8 };
        Ok(m.set_v(0xF, no_borrow).set_v(x, ((vy - vx) % 256) as u8).advance())
    } else if n == 0xE {
        Ok(m.set_v(0xF, vx / 128).set_v(x, ((vx * 2) % 256) as u8).advance())
    } else {
        Err(Chip8Error::UnknownOpcode)
    }
}

/// `Ex9E` and `ExA1`: skip on the state of the key that `Vx` names.
pub open spec fn key_skip_spec(m: Machine, op: u16) -> Result<Machine, Chip8Error> {
    let key = m.v[op_x(op)];
    if op_nn(op) != 0x9E && op_nn(op) != 0xA1 {
        Err(Chip8Error::UnknownOpcode)
    } else if key >= 16 {
        Err(Chip8Error::InvalidKeyIndex)
    } else if op_nn(op) == 0x9E {
        Ok(m.skip_if(m.key_down(key as int)))
    } else {
        Ok(m.skip_if(!m.key_down(key as int)))
    }
}

/// `Fx0A`: take the lowest key that is down into `Vx`, or wait for one.
pub open spec fn key_wait_spec(m: Machine, op: u16) -> Machine {
    if m.no_key_down() {
        m.with_state(ChipState::Block(op_x(op) as u8))
    } else {
        m.set_v(op_x(op), lowest_down(m.keys) as u8).with_state(ChipState::Run).advance()
    }
}

/// `Fx33`: the three decimal digits of `Vx` at `I`, `I + 1` and `I + 2`.
pub open spec fn bcd_spec(m: Machine, op: u16) -> Result<Machine, Chip8Error> {
    let vx = m.v[op_x(op)];
    if m.i + 2 >= 4096 {
        Err(Chip8Error::MemoryOutOfBounds)
    } else {
        Ok(
            Machine {
                memory: m.memory.update(m.i, vx / 100).update(m.i + 1, (vx / 10) % 10).update(
                    m.i + 2,
                    vx % 10,
                ),
                pc: m.pc + 2,
                ..m
            },
        )
    }
}

/// `Fx55`: copy `V0..=Vx` to memory at `I`.
pub open spec fn reg_dump_spec(m: Machine, op: u16) -> Result<Machine, Chip8Error> {
    let x = op_x(op);
    if m.i + x >= 4096 {
        Err(Chip8Error::MemoryOutOfBounds)
    } else {
        Ok(
            Machine {
                memory: Seq::new(
                    4096,
                    |a: int| if m.i <= a <= m.i + x { m.v[a - m.i] } else { m.memory[a] },
                ),
                pc: m.pc + 2,
                ..m
            },
        )
    }
}

/// `Fx65`: fill `V0..=Vx` from memory at `I`.
pub open spec fn reg_load_spec(m: Machine, op: u16) -> Result<Machine, Chip8Error> {
    let x = op_x(op);
    if m.i + x >= 4096 {
        Err(Chip8Error::MemoryOutOfBounds)
    } else {
        Ok(
            Machine {
                v: Seq::new(16, |j: int| if j <= x { m.memory[m.i + j] } else { m.v[j] }),
                pc: m.pc + 2,
                ..m
            },
        )
    }
}

/// The `Fxnn` family: timers, key wait, index register and memory transfers.
pub open spec fn misc_spec(m: Machine, op: u16) -> Result<Machine, Chip8Error> {
    let x = op_x(op);
    let nn = op_nn(op);
    let vx = m.v[x];
    if nn == 0x07 {
        Ok(m.set_v(x, m.delay_timer).advance())
    } else if nn == 0x0A {
        Ok(key_wait_spec(m, op))
    } else if nn == 0x15 {
        Ok(Machine { delay_timer: vx, ..m }.advance())
    } else if nn == 0x18 {
        Ok(Machine { sound_timer: vx, ..m }.advance())
    } else if nn == 0x1E {
        Ok(m.set_i((m.i + vx) % 0x10000).advance())
    } else if nn == 0x29 {
        Ok(m.set_i(vx * 5).advance())
    } else if nn == 0x33 {
        bcd_spec(m, op)
    } else if nn == 0x55 {
        reg_dump_spec(m, op)
    } else if nn == 0x65 {
        reg_load_spec(m, op)
    } else {
        Err(Chip8Error::UnknownOpcode)
    }
}

/// The effect of the instruction word `op` on `m`, or the error that it meets.
/// `random` is the byte that `Cxnn` consumes; no other instruction reads it.
pub open spec fn apply_spec(m: Machine, op: u16, random: u8) -> Result<Machine, Chip8Error> {
    let f = op_family(op);
    let x = op_x(op);
    let vx = m.v[x];
    let vy = m.v[op_y(op)];
    if f == 0x0 {
        system_spec(m, op)
    } else if f == 0x1 {
        Ok(m.jump(op_nnn(op)))
    } else if f == 0x2 {
        call_spec(m, op)
    } else if f == 0x3 {
        Ok(m.skip_if(vx == op_nn(op)))
    } else if f == 0x4 {
        Ok(m.skip_if(vx != op_nn(op)))
    } else if f == 0x5 {
        if op_n(op) == 0 {
            Ok(m.skip_if(vx == vy))
        } else {
            Err(Chip8Error::UnknownOpcode)
        }
    } else if f == 0x6 {
        Ok(m.set_v(x, op_nn(op)).advance())
    } else if f == 0x7 {
        Ok(m.set_v(x, ((vx + op_nn(op)) % 256) as u8).advance())
    } else if f == 0x8 {
        alu_spec(m, op)
    } else if f == 0x9 {
        if op_n(op) == 0 {
            Ok(m.skip_if(vx != vy))
        } else {
            Err(Chip8Error::UnknownOpcode)
        }
    } else if f == 0xA {
        Ok(m.set_i(op_nnn(op)).advance())
    } else if f == 0xB {
        Ok(m.jump(m.v[0] + op_nnn(op)))
    } else if f == 0xC {
        Ok(m.set_v(x, random & op_nn(op)).advance())
    } else if f == 0xD {
        draw_spec(m, op)
    } else if f == 0xE {
        key_skip_spec(m, op)
    } else {
        misc_spec(m, op)
    }
}

/// How a fallible operation relates the machine before and after it to its
/// description: on success the machine is the described one, on failure the
/// described error is returned and the machine is as it was.
pub open spec fn follows(
    before: Machine,
    described: Result<Machine, Chip8Error>,
    result: Result<(), Chip8Error>,
    after: Machine,
) -> bool {
    match described {
        Ok(next) => result == Ok::<(), Chip8Error>(()) && after == next,
        Err(e) => result == Err::<(), Chip8Error>(e) && after == before,
    }
}

/// The instruction word at the program counter, if two bytes can be read there.
pub open spec fn fetch_spec(m: Machine) -> Result<u16, Chip8Error> {
    if m.pc + 1 >= 4096 {
        Err(Chip8Error::FetchOutOfBounds)
    } else {
        Ok(word_of(m.memory[m.pc], m.memory[m.pc + 1]))
    }
}

/// One instruction: fetch, decode, apply.
pub open spec fn execute_spec(m: Machine, random: u8) -> Result<Machine, Chip8Error> {
    match fetch_spec(m) {
        Err(e) => Err(e),
        Ok(op) => apply_spec(m, op, random),
    }
}

/// The machine after a fallible operation: the described one, or the same
/// machine halted by the error.
pub open spec fn settled(m: Machine, described: Result<Machine, Chip8Error>) -> Machine {
    match described {
        Ok(next) => next,
        Err(e) => m.halted(e),
    }
}

/// What the caller is told of a fallible operation.
pub open spec fn reported(described: Result<Machine, Chip8Error>) -> Result<(), Chip8Error> {
    match described {
        Ok(_) => Ok(()),
        Err(e) => Err(e),
    }
}

/// Whether a machine in this state executes instructions: a halted one
/// never does again, a paused one does not until it is resumed.
pub open spec fn steps(state: ChipState) -> bool {
    !(state is Halt) && !(state is Pause)
}

/// The machine after an attempt to execute one instruction: the instruction's
/// effect, or the same machine halted by the error. A halted or paused
/// machine executes nothing and stays as it is.
pub open spec fn after_execute(m: Machine, random: u8) -> Machine {
    if steps(m.state) {
        settled(m, execute_spec(m, random))
    } else {
        m
    }
}

/// What the caller is told of the same attempt: a halted machine reports the
/// error that halted it, a paused one reports success.
pub open spec fn execute_outcome(m: Machine, random: u8) -> Result<(), Chip8Error> {
    match m.state {
        ChipState::Halt(e) => Err(e),
        ChipState::Pause => Ok(()),
        _ => reported(execute_spec(m, random)),
    }
}

/// The machine as a step of the driving loop sees it at the fetch: a pending
/// display signal is taken back, every other state stays.
pub open spec fn at_fetch(m: Machine) -> Machine {
    match m.state {
        ChipState::Draw => m.with_state(ChipState::Run),
        ChipState::Clear => m.with_state(ChipState::Run),
        _ => m,
    }
}

/// One step of the driving loop: pending display signals are consumed, then
/// one instruction is executed. A halted machine takes no step and reports
/// its error again; a paused one keeps still; a machine that waits for a key
/// stays marked so unless the instruction says otherwise.
pub open spec fn cycle_spec(m: Machine, random: u8) -> Machine {
    after_execute(at_fetch(m), random)
}

/// What the caller is told of that step.
pub open spec fn cycle_outcome(m: Machine, random: u8) -> Result<(), Chip8Error> {
    execute_outcome(at_fetch(m), random)
}

/// The program `rom` placed at address 0x200, if it fits below the end of memory.
pub open spec fn load_spec(m: Machine, rom: Seq<u8>) -> Result<Machine, Chip8Error> {
    if rom.len() > 4096 - 0x200 {
        Err(Chip8Error::LoadError)
    } else {
        Ok(
            Machine {
                memory: Seq::new(
                    4096,
                    |a: int| if 0x200 <= a < 0x200 + rom.len() { rom[a - 0x200] } else { m.memory[a] },
                ),
                ..m
            },
        )
    }
}

/// A timer one sixtieth of a second later.
pub open spec fn count_down(timer: u8) -> u8 {
    if timer > 0 { (timer - 1) as u8 } else { 0 }
}

/// Whether the timers of `m` are running: they stand still in a halted or paused machine.
pub open spec fn timers_run(m: Machine) -> bool {
    !(m.state is Halt) && !(m.state is Pause)
}

/// The machine after one tick of the 60 Hz clock.
pub open spec fn tick_spec(m: Machine) -> Machine {
    if timers_run(m) {
        Machine {
            delay_timer: count_down(m.delay_timer),
            sound_timer: count_down(m.sound_timer),
            ..m
        }
    } else {
        m
    }
}

/// Whether that tick takes the sound timer from 1 to 0.
pub open spec fn beeps(m: Machine) -> bool {
    timers_run(m) && m.sound_timer == 1
}

} // verus!
