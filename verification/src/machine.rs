//! The machine's data and its mathematical model.

use vstd::prelude::*;
use crate::font::{CHIP8_FONT_SET, initial_memory};
use crate::semantics::{beeps, load_spec, reported, settled, tick_spec};
use crate::state::{ChipState, Chip8Error};

verus! {

/// The mathematical model of a machine: what the contracts speak of.
pub struct Machine {
    /// The 4096 bytes of memory.
    pub memory: Seq<u8>,
    /// The registers `V0` to `VF`.
    pub v: Seq<u8>,
    /// The index register `I`.
    pub i: int,
    /// The program counter.
    pub pc: int,
    /// The display, row by row, 64 cells to a row; a lit pixel is 1.
    pub gfx: Seq<u8>,
    /// The execution state.
    pub state: ChipState,
    /// The delay timer.
    pub delay_timer: u8,
    /// The sound timer.
    pub sound_timer: u8,
    /// The sixteen slots of the call stack.
    pub stack: Seq<u16>,
    /// The number of slots in use.
    pub sp: int,
    /// The input latch: one entry for each key, not zero while it is down.
    pub keys: Seq<u8>,
}

impl Machine {
    /// The invariant of the data model: the sizes of the parts, a 16-bit
    /// index register, at most sixteen slots of the stack in use, and a
    /// display of zeros and ones.
    pub open spec fn wf(self) -> bool {
        &&& self.memory.len() == 4096
        &&& self.v.len() == 16
        &&& self.gfx.len() == 2048
        &&& self.stack.len() == 16
        &&& self.keys.len() == 16
        &&& 0 <= self.i <= 0xFFFF
        &&& 0 <= self.pc
        &&& 0 <= self.sp <= 16
        &&& forall|k: int| 0 <= k < 2048 ==> #[trigger] self.gfx[k] <= 1
    }
}

/// A CHIP-8 interpreter.
#[derive(Debug)]
pub struct Chip8 {
    /// 4K memory: the font from address 0, the program from 0x200.
    pub memory: [u8; 4096],
    /// General purpose registers `V0` to `VF`.
    pub v: [u8; 16],
    /// Index register.
    pub i: u16,
    /// Address of the next instruction.
    pub program_counter: usize,
    /// Screen of 2048 pixels (64 x 32), row by row; a lit pixel is 1.
    pub gfx: [u8; 2048],
    /// Execution state, for the driving loop to read.
    pub state: ChipState,
    /// Delay timer.
    pub delay_timer: u8,
    /// Sound timer.
    pub sound_timer: u8,
    /// Return addresses of the calls in progress.
    pub stack: [u16; 16],
    /// Number of return addresses on the stack.
    pub stack_pointer: usize,
    /// Current state of the keypad: not zero while a key is down.
    pub keys: [u8; 16],
}

impl View for Chip8 {
    type V = Machine;

    open spec fn view(&self) -> Machine {
        Machine {
            memory: self.memory@,
            v: self.v@,
            i: self.i as int,
            pc: self.program_counter as int,
            gfx: self.gfx@,
            state: self.state,
            delay_timer: self.delay_timer,
            sound_timer: self.sound_timer,
            stack: self.stack@,
            sp: self.stack_pointer as int,
            keys: self.keys@,
        }
    }
}

/// The model of a machine just built.
pub open spec fn initial_machine() -> Machine {
    Machine {
        memory: initial_memory(),
        v: Seq::new(16, |k: int| 0u8),
        i: 0,
        pc: 0x200,
        gfx: Seq::new(2048, |k: int| 0u8),
        state: ChipState::Run,
        delay_timer: 0,
        sound_timer: 0,
        stack: Seq::new(16, |k: int| 0u16),
        sp: 0,
        keys: Seq::new(16, |k: int| 0u8),
    }
}

impl Chip8 {
    /// The invariant that the stepping operations expect and every operation
    /// keeps: the stack pointer is at most 16 and every display cell is 0 or 1.
    pub open spec fn wf(&self) -> bool {
        self@.wf()
    }

    /// A machine with the font loaded, everything else zero, ready to run at 0x200.
    pub fn new() -> (chip: Chip8)
        ensures
            chip@ == initial_machine(),
            chip.wf(),
    {
        let mut memory = [0u8; 4096];
        let mut number: usize = 0;
        while number < 80
            invariant
                number <= 80,
                forall|a: int| 0 <= a < number ==> memory@[a] == CHIP8_FONT_SET@[a],
                forall|a: int| number <= a < 4096 ==> memory@[a] == 0,
            decreases 80 - number,
        {
            memory[number] = CHIP8_FONT_SET[number];
            number += 1;
        }
        let chip = Chip8 {
            memory,
            v: [0; 16],
            i: 0,
            program_counter: 0x200,
            gfx: [0; 2048],
            state: ChipState::Run,
            delay_timer: 0,
            sound_timer: 0,
            stack: [0; 16],
            stack_pointer: 0,
            keys: [0; 16],
        };
        proof {
            assert(chip@.memory =~= initial_memory());
            assert(chip@.v =~= initial_machine().v);
            assert(chip@.gfx =~= initial_machine().gfx);
            assert(chip@.stack =~= initial_machine().stack);
            assert(chip@.keys =~= initial_machine().keys);
        }
        chip
    }

    /// Tells whether the machine is well formed: the stack pointer is at most
    /// 16 and every display cell is 0 or 1.
    pub fn is_well_formed(&self) -> (ok: bool)
        ensures
            ok == self.wf(),
    {
        if self.stack_pointer > 16 {
            return false;
        }
        let mut k: usize = 0;
        while k < 2048
            invariant
                k <= 2048,
                forall|j: int| 0 <= j < k ==> self.gfx@[j] <= 1,
            decreases 2048 - k,
        {
            if self.gfx[k] > 1 {
                return false;
            }
            k += 1;
        }
        true
    }

    /// Places the program `rom` at address 0x200. A program longer than the
    /// 3584 bytes between there and the end of memory is refused: the machine
    /// halts with `LoadError` and its memory is left as it was.
    pub fn load_game(&mut self, rom: &[u8]) -> (result: Result<(), Chip8Error>)
        ensures
            final(self)@ == settled(old(self)@, load_spec(old(self)@, rom@)),
            result == reported(load_spec(old(self)@, rom@)),
            old(self).wf() ==> final(self).wf(),
    {
        if rom.len() > 4096 - 0x200 {
            self.state = ChipState::Halt(Chip8Error::LoadError);
            return Err(Chip8Error::LoadError);
        }
        let mut index: usize = 0;
        while index < rom.len()
            invariant
                index <= rom.len() <= 4096 - 0x200,
                *self == (Chip8 { memory: self.memory, ..*old(self) }),
                forall|a: int| 0x200 <= a < 0x200 + index ==> self.memory@[a] == rom@[a - 0x200],
                forall|a: int|
                    0 <= a < 4096 && !(0x200 <= a < 0x200 + index) ==> self.memory@[a] == old(
                        self,
                    ).memory@[a],
            decreases rom.len() - index,
        {
            self.memory[0x200 + index] = rom[index];
            index += 1;
        }
        proof {
            let described = load_spec(old(self)@, rom@)->Ok_0;
            assert(self@.memory =~= described.memory);
        }
        Ok(())
    }

    /// Takes over the pressed state of the sixteen keys; a key is down where
    /// its entry is not zero.
    pub fn set_keys(&mut self, keys: [u8; 16])
        ensures
            final(self)@ == (Machine { keys: keys@, ..old(self)@ }),
    {
        self.keys = keys;
    }

    /// One tick of the 60 Hz clock: each timer that is not zero goes down by
    /// one, unless the machine is halted or paused. Returns whether the sound
    /// timer went from 1 to 0 with this tick, which is when the host beeps.
    pub fn tick(&mut self) -> (beep: bool)
        ensures
            final(self)@ == tick_spec(old(self)@),
            beep == beeps(old(self)@),
    {
        match self.state {
            ChipState::Halt(_) => {
                return false;
            },
            ChipState::Pause => {
                return false;
            },
            _ => {},
        }
        let beep = self.sound_timer == 1;
        if self.delay_timer > 0 {
            self.delay_timer -= 1;
        }
        if self.sound_timer > 0 {
            self.sound_timer -= 1;
        }
        beep
    }
}

} // verus!
