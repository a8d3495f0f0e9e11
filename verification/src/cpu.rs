//! The fetch-decode-execute engine and the step of the driving loop.

use vstd::prelude::*;
use rand::Rng;
use crate::decode::{address, family, low_byte, low_nibble, make_word, op_family};
use crate::machine::{Chip8, Machine};
use crate::semantics::{
    after_execute, cycle_outcome, cycle_spec, execute_outcome, execute_spec, fetch_spec, follows,
    steps,
};
use crate::state::{ChipState, Chip8Error};

verus! {

/// A byte from the thread-local generator of the `rand` crate, by
/// `rand::thread_rng()` and `Rng::gen_range` over the whole range of a byte.
/// The value depends on chance, so nothing is claimed of it. The range is
/// not empty, so `gen_range` does not panic. `rand` itself panics if the
/// operating system gives it no entropy: when a thread first uses the
/// generator, and again at each reseeding, which is due after every 64 KiB
/// drawn.
#[verifier::external_body]
fn random_byte() -> (random: u8) {
    rand::thread_rng().gen_range(0..=255u8)
}

/// Whether the machine is about to consume a random byte: it executes
/// instructions, and the one at the program counter is `Cxnn`.
pub open spec fn reads_random(m: Machine) -> bool {
    steps(m.state) && match fetch_spec(m) {
        Ok(op) => op_family(op) == 0xC,
        Err(_) => false,
    }
}

impl Chip8 {
    /// Reads the instruction word at the program counter, high byte first.
    /// Fails where the two bytes do not both lie in memory.
    pub fn get_op_code(&self) -> (result: Result<u16, Chip8Error>)
        ensures
            result == fetch_spec(self@),
    {
        if self.program_counter >= 4095 {
            return Err(Chip8Error::FetchOutOfBounds);
        }
        Ok(make_word(self.memory[self.program_counter], self.memory[self.program_counter + 1]))
    }

    /// Whether the machine executes instructions and the next one is `Cxnn`.
    pub fn wants_random(&self) -> (wanted: bool)
        ensures
            wanted == reads_random(self@),
    {
        match self.state {
            ChipState::Halt(_) => {
                return false;
            },
            ChipState::Pause => {
                return false;
            },
            _ => {},
        }
        match self.get_op_code() {
            Ok(op_code) => family(op_code) == 0xC,
            Err(_) => false,
        }
    }

    /// Fetches and applies one instruction. On failure nothing has changed.
    fn dispatch(&mut self, random: u8) -> (result: Result<(), Chip8Error>)
        requires
            old(self).wf(),
        ensures
            follows(old(self)@, execute_spec(old(self)@, random), result, final(self)@),
    {
        let op_code = match self.get_op_code() {
            Ok(op_code) => op_code,
            Err(e) => {
                return Err(e);
            },
        };
        match family(op_code) {
            0x0 => {
                let selector = address(op_code);
                if selector == 0x0E0 {
                    self.clear_screen();
                    Ok(())
                } else if selector == 0x0EE {
                    self.return_from_subroutine()
                } else {
                    Err(Chip8Error::UnknownOpcode)
                }
            },
            0x1 => {
                self.goto(op_code);
                Ok(())
            },
            0x2 => self.call_subroutine(op_code),
            0x3 => {
                self.skip_if_eq_to_nn(op_code);
                Ok(())
            },
            0x4 => {
                self.skip_if_not_eq_to_nn(op_code);
                Ok(())
            },
            0x5 => {
                if low_nibble(op_code) == 0 {
                    self.skip_if_vx_eq_to_vy(op_code);
                    Ok(())
                } else {
                    Err(Chip8Error::UnknownOpcode)
                }
            },
            0x6 => {
                self.set_vx_to_nn(op_code);
                Ok(())
            },
            0x7 => {
                self.add_nn_to_vx(op_code);
                Ok(())
            },
            0x8 => {
                match low_nibble(op_code) {
                    0x0 => self.set_vx_to_vy(op_code),
                    0x1 => self.set_vx_to_vx_or_vy(op_code),
                    0x2 => self.set_vx_to_vx_and_vy(op_code),
                    0x3 => self.set_vx_to_vx_xor_vy(op_code),
                    0x4 => self.set_vx_to_vx_plus_vy(op_code),
                    0x5 => self.set_vx_to_vx_minus_vy(op_code),
                    0x6 => self.shift_right(op_code),
                    0x7 => self.set_vx_to_vy_minus_vx(op_code),
                    0xE => self.shift_left(op_code),
                    _ => {
                        return Err(Chip8Error::UnknownOpcode);
                    },
                }
                Ok(())
            },
            0x9 => {
                if low_nibble(op_code) == 0 {
                    self.skip_if_vx_not_eq_vy(op_code);
                    Ok(())
                } else {
                    Err(Chip8Error::UnknownOpcode)
                }
            },
            0xA => {
                self.set_i_to_nnn(op_code);
                Ok(())
            },
            0xB => {
                self.goto_nnn_plus_v0(op_code);
                Ok(())
            },
            0xC => {
                self.set_vx_to_rand_and_nn(op_code, random);
                Ok(())
            },
            0xD => self.draw(op_code),
            0xE => {
                match low_byte(op_code) {
                    0x9E => self.skip_if_key_pressed(op_code),
                    0xA1 => self.skip_if_not_key_pressed(op_code),
                    _ => Err(Chip8Error::UnknownOpcode),
                }
            },
            _ => {
                match low_byte(op_code) {
                    0x07 => self.set_vx_to_delay_timer(op_code),
                    0x0A => self.is_key_press(op_code),
                    0x15 => self.set_delay_timer_to_vx(op_code),
                    0x18 => self.set_sound_timer_to_vx(op_code),
                    0x1E => self.add_vx_to_i(op_code),
                    0x29 => self.set_i_to_sprite(op_code),
                    0x33 => {
                        return self.bcd(op_code);
                    },
                    0x55 => {
                        return self.reg_dump(op_code);
                    },
                    0x65 => {
                        return self.reg_load(op_code);
                    },
                    _ => {
                        return Err(Chip8Error::UnknownOpcode);
                    },
                }
                Ok(())
            },
        }
    }

    /// Executes the instruction at the program counter, with `random` as the
    /// byte that a `Cxnn` instruction consumes. Exactly one instruction takes
    /// effect; an error halts the machine, changes nothing else and is
    /// returned. A halted machine executes nothing and returns its error
    /// again; a paused one executes nothing. A pending display signal is left
    /// standing unless the instruction gives a new one: to take it back
    /// before the fetch is the part of `emulate_cycle_with`.
    pub fn execute_with(&mut self, random: u8) -> (result: Result<(), Chip8Error>)
        requires
            old(self).wf(),
        ensures
            final(self)@ == after_execute(old(self)@, random),
            result == execute_outcome(old(self)@, random),
            final(self).wf(),
    {
        match self.state {
            ChipState::Halt(e) => {
                return Err(e);
            },
            ChipState::Pause => {
                return Ok(());
            },
            _ => {},
        }
        let result = self.dispatch(random);
        if let Err(e) = result {
            self.state = ChipState::Halt(e);
        }
        result
    }

    /// Executes the instruction at the program counter, as `execute_with`
    /// does; the byte for a `Cxnn` instruction comes from the random number
    /// generator, and is drawn only for that instruction.
    pub fn execute(&mut self) -> (result: Result<(), Chip8Error>)
        requires
            old(self).wf(),
        ensures
            exists|random: u8|
                final(self)@ == #[trigger] after_execute(old(self)@, random) && result
                    == execute_outcome(old(self)@, random),
            !reads_random(old(self)@) ==> final(self)@ == after_execute(old(self)@, 0) && result
                == execute_outcome(old(self)@, 0),
            final(self).wf(),
    {
        let random = if self.wants_random() {
            random_byte()
        } else {
            0
        };
        self.execute_with(random)
    }

    /// One step of the driving loop, with `random` as the byte that a `Cxnn`
    /// instruction consumes. A halted machine does nothing and returns its
    /// error again, a paused one does nothing. Otherwise a pending display
    /// signal is taken back and one instruction is executed.
    pub fn emulate_cycle_with(&mut self, random: u8) -> (result: Result<(), Chip8Error>)
        requires
            old(self).wf(),
        ensures
            final(self)@ == cycle_spec(old(self)@, random),
            result == cycle_outcome(old(self)@, random),
            final(self).wf(),
    {
        match self.state {
            ChipState::Draw => {
                self.state = ChipState::Run;
            },
            ChipState::Clear => {
                self.state = ChipState::Run;
            },
            _ => {},
        }
        self.execute_with(random)
    }

    /// One step of the driving loop, as `emulate_cycle_with` does it; the
    /// byte for a `Cxnn` instruction comes from the random number generator,
    /// and is drawn only when that instruction is about to run.
    pub fn emulate_cycle(&mut self) -> (result: Result<(), Chip8Error>)
        requires
            old(self).wf(),
        ensures
            exists|random: u8|
                final(self)@ == #[trigger] cycle_spec(old(self)@, random) && result
                    == cycle_outcome(old(self)@, random),
            !reads_random(old(self)@) ==> final(self)@ == cycle_spec(old(self)@, 0) && result
                == cycle_outcome(old(self)@, 0),
            final(self).wf(),
    {
        let random = if self.wants_random() {
            random_byte()
        } else {
            0
        };
        self.emulate_cycle_with(random)
    }
}

} // verus!
