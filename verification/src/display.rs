//! Sprite drawing on the 64 by 32 display.

use vstd::prelude::*;
use crate::decode::{low_nibble, op_n, op_x, op_y, reg_x, reg_y};
use crate::machine::{Chip8, Machine};
use crate::semantics::{collides, draw_spec, drawn_gfx, flip, follows, sprite_covers};
use crate::state::{ChipState, Chip8Error};

verus! {

/// Whether the sprite covers cell `k` with a bit that comes before row `row`,
/// column `col` in drawing order.
spec fn covers_before(m: Machine, op: u16, k: int, row: int, col: int) -> bool {
    let c = k % 64 - m.v[op_x(op)];
    let r = k / 64 - m.v[op_y(op)];
    sprite_covers(m, op, k) && (r < row || (r == row && c < col))
}

/// The display while a sprite is being drawn: the cells covered so far are inverted.
spec fn drawn_before(m: Machine, op: u16, gfx: Seq<u8>, row: int, col: int) -> bool {
    forall|k: int|
        0 <= k < 2048 ==> #[trigger] gfx[k] == if covers_before(m, op, k, row, col) {
            flip(m.gfx[k])
        } else {
            m.gfx[k]
        }
}

/// Whether a lit cell has been turned off so far.
spec fn collides_before(m: Machine, op: u16, row: int, col: int) -> bool {
    exists|k: int| #[trigger] covers_before(m, op, k, row, col) && m.gfx[k] == 1
}

/// How the collision so far changes between two points of the drawing order
/// that differ by at most the one cell `k0`, which the earlier point has not
/// reached: it is the old collision, or one of `k0` where the later point
/// covers it. Once all rows are drawn, it is the collision of the whole
/// sprite.
proof fn lemma_collision_moves(
    m: Machine,
    op: u16,
    row: int,
    col: int,
    next_row: int,
    next_col: int,
    k0: int,
)
    requires
        !covers_before(m, op, k0, row, col),
        forall|k: int|
            k != k0 ==> covers_before(m, op, k, next_row, next_col) == covers_before(
                m,
                op,
                k,
                row,
                col,
            ),
    ensures
        collides_before(m, op, next_row, next_col) == (collides_before(m, op, row, col) || (
        covers_before(m, op, k0, next_row, next_col) && m.gfx[k0] == 1)),
        next_row >= op_n(op) ==> collides_before(m, op, next_row, next_col) == collides(m, op),
{
    if collides_before(m, op, next_row, next_col) {
        let k = choose|k: int| #[trigger]
            covers_before(m, op, k, next_row, next_col) && m.gfx[k] == 1;
        if k != k0 {
            assert(covers_before(m, op, k, row, col));
        }
        assert(sprite_covers(m, op, k));
    }
    if collides_before(m, op, row, col) {
        let k = choose|k: int| #[trigger] covers_before(m, op, k, row, col) && m.gfx[k] == 1;
        assert(covers_before(m, op, k, next_row, next_col));
    }
    if next_row >= op_n(op) && collides(m, op) {
        let k = choose|k: int| #[trigger] sprite_covers(m, op, k) && m.gfx[k] == 1;
        assert(covers_before(m, op, k, next_row, next_col));
    }
}

impl Chip8 {
    /// `Dxyn`: draws the sprite of `n` rows that memory holds at `I` with its
    /// top left corner at (`Vx`, `Vy`), by exclusive or. Bits that fall
    /// outside the display are dropped. The flag register tells whether any
    /// lit pixel was turned off.
    pub(crate) fn draw(&mut self, op_code: u16) -> (result: Result<(), Chip8Error>)
        requires
            old(self).program_counter <= usize::MAX - 2,
            old(self).wf(),
        ensures
            follows(old(self)@, draw_spec(old(self)@, op_code), result, final(self)@),
    {
        let x = self.v[reg_x(op_code)] as usize;
        let y = self.v[reg_y(op_code)] as usize;
        let height = low_nibble(op_code);
        let at = self.i as usize;
        if height > 0 && at + height > 4096 {
            return Err(Chip8Error::MemoryOutOfBounds);
        }
        let ghost m = old(self)@;
        let mut flag: u8 = 0;
        let mut y_offset: usize = 0;
        while y_offset < height
            invariant
                y_offset <= height,
                height == op_n(op_code),
                height > 0 ==> at + height <= 4096,
                at == m.i,
                x == m.v[op_x(op_code)],
                y == m.v[op_y(op_code)],
                m == old(self)@,
                m.wf(),
                *self == (Chip8 { gfx: self.gfx, ..*old(self) }),
                drawn_before(m, op_code, self.gfx@, y_offset as int, 0),
                flag == 1 <==> collides_before(m, op_code, y_offset as int, 0),
                flag <= 1,
            decreases height - y_offset,
        {
            let pixel = self.memory[at + y_offset];
            let mut x_offset: u8 = 0;
            while x_offset < 8
                invariant
                    x_offset <= 8,
                    y_offset < height,
                    height == op_n(op_code),
                    at + height <= 4096,
                    at == m.i,
                    x == m.v[op_x(op_code)],
                    y == m.v[op_y(op_code)],
                    m == old(self)@,
                    m.wf(),
                    pixel == m.memory[at + y_offset],
                    *self == (Chip8 { gfx: self.gfx, ..*old(self) }),
                    drawn_before(m, op_code, self.gfx@, y_offset as int, x_offset as int),
                    flag == 1 <==> collides_before(m, op_code, y_offset as int, x_offset as int),
                    flag <= 1,
                decreases 8 - x_offset,
            {
                let ghost row = y_offset as int;
                let ghost col = x_offset as int;
                if pixel & (0x80u8 >> x_offset) != 0 && x + (x_offset as usize) < 64 && y
                    + y_offset < 32 {
                    let index = x + x_offset as usize + (y + y_offset) * 64;
                    let cell = self.gfx[index];
                    assert(cell <= 1);
                    assert(cell <= 1 ==> cell ^ 1 == (if cell == 0 { 1u8 } else { 0u8 }))
                        by (bit_vector);
                    if cell == 1 {
                        flag = 1;
                    }
                    self.gfx[index] = cell ^ 1;
                    proof {
                        let k0 = index as int;
                        assert(k0 % 64 == x + col && k0 / 64 == y + row);
                        assert(covers_before(m, op_code, k0, row, col + 1));
                        assert(!covers_before(m, op_code, k0, row, col));
                        assert forall|k: int| 0 <= k < 2048 && k != k0 implies covers_before(
                            m,
                            op_code,
                            k,
                            row,
                            col + 1,
                        ) == covers_before(m, op_code, k, row, col) by {}
                        assert(drawn_before(m, op_code, self.gfx@, row, col + 1));
                        lemma_collision_moves(m, op_code, row, col, row, col + 1, k0);
                    }
                } else {
                    proof {
                        assert forall|k: int| 0 <= k < 2048 implies covers_before(
                            m,
                            op_code,
                            k,
                            row,
                            col + 1,
                        ) == covers_before(m, op_code, k, row, col) by {}
                        lemma_collision_moves(m, op_code, row, col, row, col + 1, -1);
                    }
                }
                x_offset += 1;
            }
            proof {
                let row = y_offset as int;
                assert forall|k: int| 0 <= k < 2048 implies covers_before(m, op_code, k, row + 1, 0)
                    == covers_before(m, op_code, k, row, 8) by {}
                lemma_collision_moves(m, op_code, row, 8, row + 1, 0, -1);
            }
            y_offset += 1;
        }
        proof {
            let n = height as int;
            assert forall|k: int| 0 <= k < 2048 implies covers_before(m, op_code, k, n, 0)
                == sprite_covers(m, op_code, k) by {}
            assert(self.gfx@ =~= drawn_gfx(m, op_code));
            lemma_collision_moves(m, op_code, n, 0, n, 0, -1);
        }
        self.v[0xF] = flag;
        self.state = ChipState::Draw;
        self.program_counter += 2;
        Ok(())
    }
}

} // verus!
