//! The instruction handlers, except the sprite drawing. Each one is called
//! with the instruction word that was fetched at the program counter. Of the
//! counter itself they ask only what the machine's integers force: that it
//! can be advanced, and for a call that it fits a stack slot.

use vstd::prelude::*;
use crate::decode::{address, low_byte, op_n, op_nn, op_nnn, op_x, op_y, reg_x, reg_y};
use crate::machine::{Chip8, Machine};
use crate::semantics::{
    alu_spec, bcd_spec, call_spec, clear_spec, follows, is_down, key_skip_spec, key_wait_spec,
    lemma_lowest_down_is_unique, misc_spec,
    reg_dump_spec, reg_load_spec, return_spec,
};
use crate::state::{ChipState, Chip8Error};

verus! {

impl Chip8 {
    /// `00E0`: clears the screen.
    pub(crate) fn clear_screen(&mut self)
        requires
            old(self).program_counter <= usize::MAX - 4,
        ensures
            final(self)@ == clear_spec(old(self)@),
    {
        self.gfx = [0; 2048];
        self.state = ChipState::Clear;
        self.program_counter += 2;
        assert(self.gfx@ =~= Seq::new(2048, |k: int| 0u8));
    }

    /// `00EE`: returns from a subroutine.
    pub(crate) fn return_from_subroutine(&mut self) -> (result: Result<(), Chip8Error>)
        requires
            old(self).stack_pointer <= 16,
        ensures
            follows(old(self)@, return_spec(old(self)@), result, final(self)@),
    {
        if self.stack_pointer == 0 {
            return Err(Chip8Error::StackUnderflow);
        }
        self.stack_pointer -= 1;
        self.program_counter = self.stack[self.stack_pointer] as usize + 2;
        Ok(())
    }

    /// `1nnn`: continues at `nnn`.
    pub(crate) fn goto(&mut self, op_code: u16)
        ensures
            final(self)@ == old(self)@.jump(op_nnn(op_code)),
    {
        self.program_counter = address(op_code);
    }

    /// `2nnn`: calls the subroutine at `nnn`.
    pub(crate) fn call_subroutine(&mut self, op_code: u16) -> (result: Result<(), Chip8Error>)
        requires
            old(self).program_counter <= u16::MAX,
        ensures
            follows(old(self)@, call_spec(old(self)@, op_code), result, final(self)@),
    {
        if self.stack_pointer >= 16 {
            return Err(Chip8Error::StackOverflow);
        }
        self.stack[self.stack_pointer] = self.program_counter as u16;
        self.stack_pointer += 1;
        self.program_counter = address(op_code);
        Ok(())
    }

    /// `3xnn`: skips the next instruction if `Vx` equals `nn`.
    pub(crate) fn skip_if_eq_to_nn(&mut self, op_code: u16)
        requires
            old(self).program_counter <= usize::MAX - 4,
        ensures
            final(self)@ == old(self)@.skip_if(old(self)@.v[op_x(op_code)] == op_nn(op_code)),
    {
        let x = reg_x(op_code);
        let val = low_byte(op_code);
        if self.v[x] == val {
            self.program_counter += 4;
        } else {
            self.program_counter += 2;
        }
    }

    /// `4xnn`: skips the next instruction if `Vx` does not equal `nn`.
    pub(crate) fn skip_if_not_eq_to_nn(&mut self, op_code: u16)
        requires
            old(self).program_counter <= usize::MAX - 4,
        ensures
            final(self)@ == old(self)@.skip_if(old(self)@.v[op_x(op_code)] != op_nn(op_code)),
    {
        let x = reg_x(op_code);
        let val = low_byte(op_code);
        if self.v[x] != val {
            self.program_counter += 4;
        } else {
            self.program_counter += 2;
        }
    }

    /// `5xy0`: skips the next instruction if `Vx` equals `Vy`.
    pub(crate) fn skip_if_vx_eq_to_vy(&mut self, op_code: u16)
        requires
            old(self).program_counter <= usize::MAX - 4,
        ensures
            final(self)@ == old(self)@.skip_if(
                old(self)@.v[op_x(op_code)] == old(self)@.v[op_y(op_code)],
            ),
    {
        let x = reg_x(op_code);
        let y = reg_y(op_code);
        if self.v[x] == self.v[y] {
            self.program_counter += 4;
        } else {
            self.program_counter += 2;
        }
    }

    /// `6xnn`: sets `Vx` to `nn`.
    pub(crate) fn set_vx_to_nn(&mut self, op_code: u16)
        requires
            old(self).program_counter <= usize::MAX - 4,
        ensures
            final(self)@ == old(self)@.set_v(op_x(op_code), op_nn(op_code)).advance(),
    {
        let x = reg_x(op_code);
        let val = low_byte(op_code);
        self.v[x] = val;
        self.program_counter += 2;
    }

    /// `7xnn`: adds `nn` to `Vx` modulo 256; the flag register is not touched.
    pub(crate) fn add_nn_to_vx(&mut self, op_code: u16)
        requires
            old(self).program_counter <= usize::MAX - 4,
        ensures
            final(self)@ == old(self)@.set_v(
                op_x(op_code),
                ((old(self)@.v[op_x(op_code)] + op_nn(op_code)) % 256) as u8,
            ).advance(),
    {
        let x = reg_x(op_code);
        let val = low_byte(op_code);
        self.v[x] = self.v[x].wrapping_add(val);
        self.program_counter += 2;
    }

    /// `8xy0`: sets `Vx` to the value of `Vy`.
    pub(crate) fn set_vx_to_vy(&mut self, op_code: u16)
        requires
            old(self).program_counter <= usize::MAX - 4,
            op_n(op_code) == 0x0,
        ensures
            alu_spec(old(self)@, op_code) == Ok::<Machine, Chip8Error>(final(self)@),
    {
        let x = reg_x(op_code);
        let y = reg_y(op_code);
        self.v[x] = self.v[y];
        self.program_counter += 2;
    }

    /// `8xy1`: sets `Vx` to `Vx | Vy`.
    pub(crate) fn set_vx_to_vx_or_vy(&mut self, op_code: u16)
        requires
            old(self).program_counter <= usize::MAX - 4,
            op_n(op_code) == 0x1,
        ensures
            alu_spec(old(self)@, op_code) == Ok::<Machine, Chip8Error>(final(self)@),
    {
        let x = reg_x(op_code);
        let y = reg_y(op_code);
        self.v[x] = self.v[x] | self.v[y];
        self.program_counter += 2;
    }

    /// `8xy2`: sets `Vx` to `Vx & Vy`.
    pub(crate) fn set_vx_to_vx_and_vy(&mut self, op_code: u16)
        requires
            old(self).program_counter <= usize::MAX - 4,
            op_n(op_code) == 0x2,
        ensures
            alu_spec(old(self)@, op_code) == Ok::<Machine, Chip8Error>(final(self)@),
    {
        let x = reg_x(op_code);
        let y = reg_y(op_code);
        self.v[x] = self.v[x] & self.v[y];
        self.program_counter += 2;
    }

    /// `8xy3`: sets `Vx` to `Vx ^ Vy`.
    pub(crate) fn set_vx_to_vx_xor_vy(&mut self, op_code: u16)
        requires
            old(self).program_counter <= usize::MAX - 4,
            op_n(op_code) == 0x3,
        ensures
            alu_spec(old(self)@, op_code) == Ok::<Machine, Chip8Error>(final(self)@),
    {
        let x = reg_x(op_code);
        let y = reg_y(op_code);
        self.v[x] = self.v[x] ^ self.v[y];
        self.program_counter += 2;
    }

    /// `8xy4`: adds `Vy` to `Vx` modulo 256. The flag register tells whether
    /// the full sum went beyond 255.
    pub(crate) fn set_vx_to_vx_plus_vy(&mut self, op_code: u16)
        requires
            old(self).program_counter <= usize::MAX - 4,
            op_n(op_code) == 0x4,
        ensures
            alu_spec(old(self)@, op_code) == Ok::<Machine, Chip8Error>(final(self)@),
    {
        let x = reg_x(op_code);
        let y = reg_y(op_code);
        let vx = self.v[x];
        let vy = self.v[y];
        self.v[0xF] = if vy > 255 - vx { 1 } else { 0 };
        self.v[x] = vx.wrapping_add(vy);
        self.program_counter += 2;
    }

    /// `8xy5`: subtracts `Vy` from `Vx` modulo 256. The flag register tells
    /// whether `Vx` was at least `Vy`.
    pub(crate) fn set_vx_to_vx_minus_vy(&mut self, op_code: u16)
        requires
            old(self).program_counter <= usize::MAX - 4,
            op_n(op_code) == 0x5,
        ensures
            alu_spec(old(self)@, op_code) == Ok::<Machine, Chip8Error>(final(self)@),
    {
        let x = reg_x(op_code);
        let y = reg_y(op_code);
        let vx = self.v[x];
        let vy = self.v[y];
        self.v[0xF] = if vx >= vy { 1 } else { 0 };
        self.v[x] = vx.wrapping_sub(vy);
        self.program_counter += 2;
    }

    /// `8xy6`: stores the lowest bit of `Vx` in the flag register, then
    /// shifts `Vx` right by one.
    pub(crate) fn shift_right(&mut self, op_code: u16)
        requires
            old(self).program_counter <= usize::MAX - 4,
            op_n(op_code) == 0x6,
        ensures
            alu_spec(old(self)@, op_code) == Ok::<Machine, Chip8Error>(final(self)@),
    {
        let x = reg_x(op_code);
        let vx = self.v[x];
        assert(vx & 0x01 == vx % 2) by (bit_vector);
        assert(vx >> 1 == vx / 2) by (bit_vector);
        self.v[0xF] = vx & 0x01;
        self.v[x] = vx >> 1;
        self.program_counter += 2;
    }

    /// `8xy7`: sets `Vx` to `Vy - Vx` modulo 256. The flag register tells
    /// whether `Vy` was at least `Vx`.
    pub(crate) fn set_vx_to_vy_minus_vx(&mut self, op_code: u16)
        requires
            old(self).program_counter <= usize::MAX - 4,
            op_n(op_code) == 0x7,
        ensures
            alu_spec(old(self)@, op_code) == Ok::<Machine, Chip8Error>(final(self)@),
    {
        let x = reg_x(op_code);
        let y = reg_y(op_code);
        let vx = self.v[x];
        let vy = self.v[y];
        self.v[0xF] = if vy >= vx { 1 } else { 0 };
        self.v[x] = vy.wrapping_sub(vx);
        self.program_counter += 2;
    }

    /// `8xyE`: stores the highest bit of `Vx` in the flag register, then
    /// shifts `Vx` left by one.
    pub(crate) fn shift_left(&mut self, op_code: u16)
        requires
            old(self).program_counter <= usize::MAX - 4,
            op_n(op_code) == 0xE,
        ensures
            alu_spec(old(self)@, op_code) == Ok::<Machine, Chip8Error>(final(self)@),
    {
        let x = reg_x(op_code);
        let vx = self.v[x];
        assert(vx >> 7 == vx / 128) by (bit_vector);
        assert(vx << 1 == ((vx as u16 * 2) % 256) as u8) by (bit_vector);
        self.v[0xF] = vx >> 7;
        self.v[x] = vx << 1;
        self.program_counter += 2;
    }

    /// `9xy0`: skips the next instruction if `Vx` does not equal `Vy`.
    pub(crate) fn skip_if_vx_not_eq_vy(&mut self, op_code: u16)
        requires
            old(self).program_counter <= usize::MAX - 4,
        ensures
            final(self)@ == old(self)@.skip_if(
                old(self)@.v[op_x(op_code)] != old(self)@.v[op_y(op_code)],
            ),
    {
        let x = reg_x(op_code);
        let y = reg_y(op_code);
        if self.v[x] != self.v[y] {
            self.program_counter += 4;
        } else {
            self.program_counter += 2;
        }
    }

    /// `Annn`: sets `I` to the address `nnn`.
    pub(crate) fn set_i_to_nnn(&mut self, op_code: u16)
        requires
            old(self).program_counter <= usize::MAX - 4,
        ensures
            final(self)@ == old(self)@.set_i(op_nnn(op_code)).advance(),
    {
        self.i = address(op_code) as u16;
        self.program_counter += 2;
    }

    /// `Bnnn`: continues at the address `nnn` plus `V0`.
    pub(crate) fn goto_nnn_plus_v0(&mut self, op_code: u16)
        ensures
            final(self)@ == old(self)@.jump(old(self)@.v[0] + op_nnn(op_code)),
    {
        self.program_counter = self.v[0] as usize + address(op_code);
    }

    /// `Cxnn`: sets `Vx` to the given random byte masked by `nn`.
    pub(crate) fn set_vx_to_rand_and_nn(&mut self, op_code: u16, random: u8)
        requires
            old(self).program_counter <= usize::MAX - 4,
        ensures
            final(self)@ == old(self)@.set_v(op_x(op_code), random & op_nn(op_code)).advance(),
    {
        let val = low_byte(op_code);
        let x = reg_x(op_code);
        self.v[x] = random & val;
        self.program_counter += 2;
    }

    /// `Ex9E`: skips the next instruction if the key that `Vx` names is down.
    pub(crate) fn skip_if_key_pressed(&mut self, op_code: u16) -> (result: Result<
        (),
        Chip8Error,
    >)
        requires
            old(self).program_counter <= usize::MAX - 4,
            op_nn(op_code) == 0x9E,
        ensures
            follows(old(self)@, key_skip_spec(old(self)@, op_code), result, final(self)@),
    {
        let x = reg_x(op_code);
        let index = self.v[x] as usize;
        if index >= 16 {
            return Err(Chip8Error::InvalidKeyIndex);
        }
        if self.keys[index] != 0 {
            self.program_counter += 4;
        } else {
            self.program_counter += 2;
        }
        Ok(())
    }

    /// `ExA1`: skips the next instruction if the key that `Vx` names is up.
    pub(crate) fn skip_if_not_key_pressed(&mut self, op_code: u16) -> (result: Result<
        (),
        Chip8Error,
    >)
        requires
            old(self).program_counter <= usize::MAX - 4,
            op_nn(op_code) == 0xA1,
        ensures
            follows(old(self)@, key_skip_spec(old(self)@, op_code), result, final(self)@),
    {
        let x = reg_x(op_code);
        let index = self.v[x] as usize;
        if index >= 16 {
            return Err(Chip8Error::InvalidKeyIndex);
        }
        if self.keys[index] == 0 {
            self.program_counter += 4;
        } else {
            self.program_counter += 2;
        }
        Ok(())
    }

    /// `Fx07`: sets `Vx` to the value of the delay timer.
    pub(crate) fn set_vx_to_delay_timer(&mut self, op_code: u16)
        requires
            old(self).program_counter <= usize::MAX - 4,
            op_nn(op_code) == 0x07,
        ensures
            misc_spec(old(self)@, op_code) == Ok::<Machine, Chip8Error>(final(self)@),
    {
        let x = reg_x(op_code);
        self.v[x] = self.delay_timer;
        self.program_counter += 2;
    }

    /// `Fx0A`: takes the lowest key that is down into `Vx` and goes on, or
    /// marks the machine as waiting and leaves everything else as it is.
    pub(crate) fn is_key_press(&mut self, op_code: u16)
        requires
            old(self).program_counter <= usize::MAX - 4,
        ensures
            final(self)@ == key_wait_spec(old(self)@, op_code),
    {
        let x = reg_x(op_code);
        let mut i: usize = 0;
        while i < 16
            invariant
                i <= 16,
                x == op_x(op_code),
                x < 16,
                *self == *old(self),
                self.program_counter <= usize::MAX - 4,
                forall|j: int| 0 <= j < i ==> !is_down(self.keys@, j),
            decreases 16 - i,
        {
            if self.keys[i] != 0 {
                proof {
                    lemma_lowest_down_is_unique(old(self).keys@, i as int);
                }
                self.v[x] = i as u8;
                self.state = ChipState::Run;
                self.program_counter += 2;
                return ;
            }
            i += 1;
        }
        self.state = ChipState::Block(x as u8);
    }

    /// `Fx15`: sets the delay timer to `Vx`.
    pub(crate) fn set_delay_timer_to_vx(&mut self, op_code: u16)
        requires
            old(self).program_counter <= usize::MAX - 4,
            op_nn(op_code) == 0x15,
        ensures
            misc_spec(old(self)@, op_code) == Ok::<Machine, Chip8Error>(final(self)@),
    {
        let x = reg_x(op_code);
        self.delay_timer = self.v[x];
        self.program_counter += 2;
    }

    /// `Fx18`: sets the sound timer to `Vx`.
    pub(crate) fn set_sound_timer_to_vx(&mut self, op_code: u16)
        requires
            old(self).program_counter <= usize::MAX - 4,
            op_nn(op_code) == 0x18,
        ensures
            misc_spec(old(self)@, op_code) == Ok::<Machine, Chip8Error>(final(self)@),
    {
        let x = reg_x(op_code);
        self.sound_timer = self.v[x];
        self.program_counter += 2;
    }

    /// `Fx1E`: adds `Vx` to `I` modulo 2^16; the flag register is not touched.
    pub(crate) fn add_vx_to_i(&mut self, op_code: u16)
        requires
            old(self).program_counter <= usize::MAX - 4,
            op_nn(op_code) == 0x1E,
        ensures
            misc_spec(old(self)@, op_code) == Ok::<Machine, Chip8Error>(final(self)@),
    {
        let x = reg_x(op_code);
        self.i = self.i.wrapping_add(self.v[x] as u16);
        self.program_counter += 2;
    }

    /// `Fx29`: sets `I` to the address of the glyph for the value of `Vx`.
    pub(crate) fn set_i_to_sprite(&mut self, op_code: u16)
        requires
            old(self).program_counter <= usize::MAX - 4,
            op_nn(op_code) == 0x29,
        ensures
            misc_spec(old(self)@, op_code) == Ok::<Machine, Chip8Error>(final(self)@),
    {
        let x = reg_x(op_code);
        self.i = self.v[x] as u16 * 5;
        self.program_counter += 2;
    }

    /// `Fx33`: stores the decimal digits of `Vx` at `I`, `I + 1` and `I + 2`,
    /// hundreds first.
    pub(crate) fn bcd(&mut self, op_code: u16) -> (result: Result<(), Chip8Error>)
        requires
            old(self).program_counter <= usize::MAX - 4,
        ensures
            follows(old(self)@, bcd_spec(old(self)@, op_code), result, final(self)@),
    {
        let x = reg_x(op_code);
        let at = self.i as usize;
        if at + 2 >= 4096 {
            return Err(Chip8Error::MemoryOutOfBounds);
        }
        let vx = self.v[x];
        self.memory[at] = vx / 100;
        self.memory[at + 1] = (vx / 10) % 10;
        self.memory[at + 2] = vx % 10;
        self.program_counter += 2;
        Ok(())
    }

    /// `Fx55`: stores `V0` to `Vx`, `Vx` included, in memory from address `I`
    /// on. `I` itself is left as it is.
    pub(crate) fn reg_dump(&mut self, op_code: u16) -> (result: Result<(), Chip8Error>)
        requires
            old(self).program_counter <= usize::MAX - 4,
        ensures
            follows(old(self)@, reg_dump_spec(old(self)@, op_code), result, final(self)@),
    {
        let x = reg_x(op_code);
        let at = self.i as usize;
        if at + x >= 4096 {
            return Err(Chip8Error::MemoryOutOfBounds);
        }
        let mut n: usize = 0;
        while n <= x
            invariant
                n <= x + 1,
                x < 16,
                at + x < 4096,
                at == old(self).i,
                *self == (Chip8 { memory: self.memory, ..*old(self) }),
                forall|a: int| at <= a < at + n ==> self.memory@[a] == old(self).v@[a - at],
                forall|a: int|
                    0 <= a < 4096 && !(at <= a < at + n) ==> self.memory@[a] == old(
                        self,
                    ).memory@[a],
            decreases x + 1 - n,
        {
            self.memory[at + n] = self.v[n];
            n += 1;
        }
        self.program_counter += 2;
        proof {
            let described = reg_dump_spec(old(self)@, op_code)->Ok_0;
            assert(self@.memory =~= described.memory);
        }
        Ok(())
    }

    /// `Fx65`: fills `V0` to `Vx`, `Vx` included, from memory at address `I`
    /// on. `I` itself is left as it is.
    pub(crate) fn reg_load(&mut self, op_code: u16) -> (result: Result<(), Chip8Error>)
        requires
            old(self).program_counter <= usize::MAX - 4,
        ensures
            follows(old(self)@, reg_load_spec(old(self)@, op_code), result, final(self)@),
    {
        let x = reg_x(op_code);
        let at = self.i as usize;
        if at + x >= 4096 {
            return Err(Chip8Error::MemoryOutOfBounds);
        }
        let mut n: usize = 0;
        while n <= x
            invariant
                n <= x + 1,
                x < 16,
                at + x < 4096,
                at == old(self).i,
                *self == (Chip8 { v: self.v, ..*old(self) }),
                forall|j: int| 0 <= j < n ==> self.v@[j] == old(self).memory@[at + j],
                forall|j: int| n <= j < 16 ==> self.v@[j] == old(self).v@[j],
            decreases x + 1 - n,
        {
            self.v[n] = self.memory[at + n];
            n += 1;
        }
        self.program_counter += 2;
        proof {
            let described = reg_load_spec(old(self)@, op_code)->Ok_0;
            assert(self@.v =~= described.v);
        }
        Ok(())
    }
}

} // verus!
