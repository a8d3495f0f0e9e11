//! The fields of a 16-bit instruction word.

use vstd::prelude::*;

verus! {

/// The high nibble, which selects the instruction family.
pub open spec fn op_family(op: u16) -> int {
    op as int / 0x1000
}

/// The second nibble: the register operand `x`.
pub open spec fn op_x(op: u16) -> int {
    (op as int / 0x100) % 16
}

/// The third nibble: the register operand `y`.
pub open spec fn op_y(op: u16) -> int {
    (op as int / 0x10) % 16
}

/// The low nibble.
pub open spec fn op_n(op: u16) -> int {
    op as int % 16
}

/// The low byte.
pub open spec fn op_nn(op: u16) -> u8 {
    (op as int % 0x100) as u8
}

/// The low twelve bits: an address.
pub open spec fn op_nnn(op: u16) -> int {
    op as int % 0x1000
}

/// The instruction word made of two consecutive bytes, high byte first.
pub open spec fn word_of(high: u8, low: u8) -> u16 {
    (high as int * 0x100 + low as int) as u16
}

pub fn family(op_code: u16) -> (f: u16)
    ensures
        f == op_family(op_code),
        f < 16,
{
    assert(op_code >> 12 == op_code / 0x1000) by (bit_vector);
    op_code >> 12
}

pub fn reg_x(op_code: u16) -> (x: usize)
    ensures
        x == op_x(op_code),
        x < 16,
{
    assert((op_code & 0x0F00) >> 8 == (op_code / 0x100) % 16) by (bit_vector);
    ((op_code & 0x0F00) >> 8) as usize
}

pub fn reg_y(op_code: u16) -> (y: usize)
    ensures
        y == op_y(op_code),
        y < 16,
{
    assert((op_code & 0x00F0) >> 4 == (op_code / 0x10) % 16) by (bit_vector);
    ((op_code & 0x00F0) >> 4) as usize
}

pub fn low_nibble(op_code: u16) -> (n: usize)
    ensures
        n == op_n(op_code),
        n < 16,
{
    assert(op_code & 0x000F == op_code % 16) by (bit_vector);
    (op_code & 0x000F) as usize
}

pub fn low_byte(op_code: u16) -> (nn: u8)
    ensures
        nn == op_nn(op_code),
{
    assert(op_code & 0x00FF == op_code % 0x100) by (bit_vector);
    (op_code & 0x00FF) as u8
}

pub fn address(op_code: u16) -> (nnn: usize)
    ensures
        nnn == op_nnn(op_code),
        nnn < 0x1000,
{
    assert(op_code & 0x0FFF == op_code % 0x1000) by (bit_vector);
    (op_code & 0x0FFF) as usize
}

pub fn make_word(high: u8, low: u8) -> (op_code: u16)
    ensures
        op_code == word_of(high, low),
{
    let h: u16 = high as u16;
    let l: u16 = low as u16;
    assert(h < 0x100 && l < 0x100 ==> (h << 8 | l) == h * 0x100 + l) by (bit_vector);
    h << 8 | l
}

} // verus!
