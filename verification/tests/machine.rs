use chip8::machine::Chip8;
use chip8::state::{Chip8Error, ChipState};

fn machine_with(program: &[u8]) -> Chip8 {
    let mut chip8 = Chip8::new();
    chip8.load_game(program).unwrap();
    chip8
}

#[test]
fn add_immediate_wraps_for_every_pair_of_bytes() {
    let mut chip8 = Chip8::new();
    for a in 0..=255u8 {
        for b in 0..=255u8 {
            chip8.load_game(&[0x73, b]).unwrap();
            chip8.program_counter = 0x200;
            chip8.v[3] = a;
            chip8.v[0xF] = 7;
            assert_eq!(chip8.execute_with(0), Ok(()));
            assert_eq!(chip8.v[3] as u32, (a as u32 + b as u32) % 256);
            assert_eq!(chip8.v[0xF], 7);
            assert_eq!(chip8.program_counter, 0x202);
        }
    }
}

#[test]
fn add_registers_sets_carry_for_every_pair_of_bytes() {
    let mut chip8 = machine_with(&[0x81, 0x24]);
    for a in 0..=255u8 {
        for b in 0..=255u8 {
            chip8.program_counter = 0x200;
            chip8.v[1] = a;
            chip8.v[2] = b;
            assert_eq!(chip8.execute_with(0), Ok(()));
            let sum = a as u32 + b as u32;
            assert_eq!(chip8.v[1] as u32, sum % 256);
            assert_eq!(chip8.v[0xF], if sum > 255 { 1 } else { 0 });
            assert_eq!(chip8.v[2], b);
        }
    }
}

#[test]
fn subtract_registers_sets_flag_for_every_pair_of_bytes() {
    let mut chip8 = machine_with(&[0x81, 0x25]);
    for a in 0..=255u8 {
        for b in 0..=255u8 {
            chip8.program_counter = 0x200;
            chip8.v[1] = a;
            chip8.v[2] = b;
            assert_eq!(chip8.execute_with(0), Ok(()));
            assert_eq!(chip8.v[1] as i32, (a as i32 - b as i32).rem_euclid(256));
            assert_eq!(chip8.v[0xF], if a >= b { 1 } else { 0 });
        }
    }
}

#[test]
fn subtract_equal_registers_raises_the_flag() {
    let mut chip8 = machine_with(&[0x81, 0x25, 0x83, 0x47]);
    chip8.v[1] = 0x40;
    chip8.v[2] = 0x40;
    chip8.v[3] = 0x09;
    chip8.v[4] = 0x09;
    chip8.execute().unwrap();
    assert_eq!(chip8.v[1], 0);
    assert_eq!(chip8.v[0xF], 1);
    chip8.v[0xF] = 0;
    chip8.execute().unwrap();
    assert_eq!(chip8.v[3], 0);
    assert_eq!(chip8.v[0xF], 1);
}

#[test]
fn add_registers_without_overflow_clears_carry_even_if_vy_is_larger() {
    let mut chip8 = machine_with(&[0x81, 0x24]);
    chip8.v[1] = 1;
    chip8.v[2] = 2;
    chip8.v[0xF] = 1;
    chip8.execute().unwrap();
    assert_eq!(chip8.v[1], 3);
    assert_eq!(chip8.v[0xF], 0);
}

#[test]
fn arithmetic_into_the_flag_register_keeps_the_result() {
    let mut chip8 = machine_with(&[0x8F, 0x14, 0x8F, 0x16]);
    chip8.v[0xF] = 0xF0;
    chip8.v[1] = 0x20;
    chip8.execute().unwrap();
    assert_eq!(chip8.v[0xF], 0x10);
    chip8.v[0xF] = 0x07;
    chip8.execute().unwrap();
    assert_eq!(chip8.v[0xF], 0x03);
}

#[test]
fn shifts_store_the_bit_that_leaves() {
    let mut chip8 = machine_with(&[0x81, 0x06, 0x82, 0x0E]);
    chip8.v[1] = 0x04;
    chip8.v[2] = 0x7F;
    chip8.v[0xF] = 1;
    chip8.execute().unwrap();
    assert_eq!((chip8.v[1], chip8.v[0xF]), (0x02, 0));
    chip8.v[0xF] = 1;
    chip8.execute().unwrap();
    assert_eq!((chip8.v[2], chip8.v[0xF]), (0xFE, 0));
}

#[test]
fn draw_twice_restores_the_display() {
    // A005: I = 5 (glyph of digit 1), D125: draw 5 rows at (V1, V2), twice.
    let mut chip8 = machine_with(&[0xA0, 0x05, 0xD1, 0x25, 0xD1, 0x25]);
    chip8.v[1] = 10;
    chip8.v[2] = 3;
    chip8.gfx[3 * 64 + 12] = 1;
    let before = chip8.gfx;
    chip8.execute().unwrap();
    chip8.execute().unwrap();
    assert_eq!(chip8.state, ChipState::Draw);
    assert_eq!(chip8.program_counter, 0x204);
    // Glyph 1 is 0x20, 0x60, 0x20, 0x20, 0x70: bit 2 of row 0 hits the lit pixel.
    assert_eq!(chip8.v[0xF], 1);
    assert_eq!(chip8.gfx[3 * 64 + 12], 0);
    assert_eq!(chip8.gfx[4 * 64 + 11], 1);
    assert_eq!(chip8.gfx[4 * 64 + 12], 1);
    assert_eq!(chip8.gfx[7 * 64 + 11], 1);
    assert_eq!(chip8.gfx[7 * 64 + 12], 1);
    assert_eq!(chip8.gfx[7 * 64 + 13], 1);
    assert_eq!(chip8.gfx.iter().filter(|cell| **cell == 1).count(), 7);
    chip8.execute().unwrap();
    assert_eq!(chip8.gfx, before);
    // The first draw lit pixels, so the second one turned some off.
    assert_eq!(chip8.v[0xF], 1);
    assert_eq!(chip8.program_counter, 0x206);
}

#[test]
fn draw_on_blank_display_then_again() {
    let mut chip8 = machine_with(&[0xD0, 0x05, 0xD0, 0x05]);
    chip8.execute().unwrap();
    assert_eq!(chip8.v[0xF], 0);
    // Glyph 0 is 0xF0, 0x90, 0x90, 0x90, 0xF0.
    assert_eq!(&chip8.gfx[0..8], &[1, 1, 1, 1, 0, 0, 0, 0]);
    assert_eq!(&chip8.gfx[64..72], &[1, 0, 0, 1, 0, 0, 0, 0]);
    assert_eq!(&chip8.gfx[256..264], &[1, 1, 1, 1, 0, 0, 0, 0]);
    chip8.execute().unwrap();
    assert_eq!(chip8.v[0xF], 1);
    assert_eq!(chip8.gfx, [0u8; 2048]);
}

#[test]
fn draw_of_blank_sprite_twice_never_collides() {
    let mut chip8 = machine_with(&[0xA3, 0x00, 0xD0, 0x04, 0xD0, 0x04]);
    chip8.gfx[0] = 1;
    chip8.execute().unwrap();
    chip8.execute().unwrap();
    assert_eq!(chip8.v[0xF], 0);
    chip8.execute().unwrap();
    assert_eq!(chip8.v[0xF], 0);
    assert_eq!(chip8.gfx[0], 1);
}

#[test]
fn draw_drops_what_falls_outside_the_display() {
    let mut chip8 = machine_with(&[0xD1, 0x25]);
    chip8.v[1] = 62;
    chip8.v[2] = 30;
    chip8.execute().unwrap();
    // Glyph 0: rows 0xF0 and 0x90 are the only ones on the display, two columns each.
    assert_eq!(chip8.gfx[30 * 64 + 62], 1);
    assert_eq!(chip8.gfx[30 * 64 + 63], 1);
    assert_eq!(chip8.gfx[31 * 64 + 62], 1);
    assert_eq!(chip8.gfx[31 * 64 + 63], 0);
    assert_eq!(chip8.gfx.iter().filter(|cell| **cell == 1).count(), 3);
    assert_eq!(chip8.v[0xF], 0);
    assert_eq!(chip8.state, ChipState::Draw);
}

#[test]
fn draw_far_outside_the_display_changes_no_pixel() {
    let mut chip8 = machine_with(&[0xD1, 0x25]);
    chip8.v[1] = 200;
    chip8.v[2] = 100;
    chip8.execute().unwrap();
    assert_eq!(chip8.gfx, [0u8; 2048]);
    assert_eq!(chip8.state, ChipState::Draw);
    assert_eq!(chip8.program_counter, 0x202);
}

#[test]
fn draw_of_no_rows_is_a_valid_instruction() {
    let mut chip8 = machine_with(&[0xD1, 0x20]);
    chip8.i = 0xFFFF;
    chip8.v[0xF] = 1;
    chip8.gfx[5] = 1;
    assert_eq!(chip8.execute(), Ok(()));
    assert_eq!(chip8.v[0xF], 0);
    assert_eq!(chip8.gfx[5], 1);
    assert_eq!(chip8.state, ChipState::Draw);
    assert_eq!(chip8.program_counter, 0x202);
}

#[test]
fn draw_beyond_memory_fails_and_draws_nothing() {
    let mut chip8 = machine_with(&[0xD0, 0x02]);
    chip8.i = 4095;
    chip8.memory[4095] = 0xFF;
    assert_eq!(chip8.execute(), Err(Chip8Error::MemoryOutOfBounds));
    assert_eq!(chip8.state, ChipState::Halt(Chip8Error::MemoryOutOfBounds));
    assert_eq!(chip8.gfx, [0u8; 2048]);
    assert_eq!(chip8.program_counter, 0x200);
}

#[test]
fn draw_of_the_last_byte_of_memory_succeeds() {
    let mut chip8 = machine_with(&[0xD0, 0x01]);
    chip8.i = 4095;
    chip8.memory[4095] = 0x81;
    assert_eq!(chip8.execute(), Ok(()));
    assert_eq!(&chip8.gfx[0..8], &[1, 0, 0, 0, 0, 0, 0, 1]);
}

#[test]
fn register_dump_then_load_round_trips() {
    // A300, F755, then clear the registers by hand, F765.
    let mut chip8 = machine_with(&[0xA3, 0x00, 0xF7, 0x55, 0xF7, 0x65]);
    let values: [u8; 16] = [1, 2, 3, 0xFF, 0x80, 0x7F, 0, 9, 0xAA, 0xBB, 0, 0, 0, 0, 0, 0];
    chip8.v = values;
    chip8.execute().unwrap();
    chip8.execute().unwrap();
    assert_eq!(chip8.i, 0x300);
    assert_eq!(&chip8.memory[0x300..0x308], &values[0..8]);
    assert_eq!(chip8.memory[0x308], 0);
    chip8.v = [0x55; 16];
    chip8.execute().unwrap();
    assert_eq!(chip8.i, 0x300);
    assert_eq!(&chip8.v[0..8], &values[0..8]);
    assert_eq!(&chip8.v[8..16], &[0x55; 8]);
    assert_eq!(chip8.program_counter, 0x206);
}

#[test]
fn register_transfer_beyond_memory_fails() {
    let mut chip8 = machine_with(&[0xF2, 0x55]);
    chip8.i = 4094;
    assert_eq!(chip8.execute(), Err(Chip8Error::MemoryOutOfBounds));
    assert_eq!(chip8.state, ChipState::Halt(Chip8Error::MemoryOutOfBounds));
    assert_eq!(chip8.memory[4094], 0);

    let mut chip8 = machine_with(&[0xF2, 0x65]);
    chip8.i = 4094;
    assert_eq!(chip8.execute(), Err(Chip8Error::MemoryOutOfBounds));

    let mut chip8 = machine_with(&[0xF2, 0x55]);
    chip8.i = 4093;
    chip8.v[2] = 7;
    assert_eq!(chip8.execute(), Ok(()));
    assert_eq!(chip8.memory[4095], 7);
}

#[test]
fn call_at_0x300_to_0x400_then_return_continues_at_0x302() {
    let mut chip8 = Chip8::new();
    chip8.program_counter = 0x300;
    chip8.memory[0x300] = 0x24;
    chip8.memory[0x301] = 0x00;
    chip8.memory[0x400] = 0x00;
    chip8.memory[0x401] = 0xEE;
    chip8.execute().unwrap();
    assert_eq!(chip8.program_counter, 0x400);
    assert_eq!(chip8.stack_pointer, 1);
    assert_eq!(chip8.stack[0], 0x300);
    chip8.execute().unwrap();
    assert_eq!(chip8.program_counter, 0x302);
    assert_eq!(chip8.stack_pointer, 0);
}

#[test]
fn key_wait_blocks_until_a_key_is_down() {
    let mut chip8 = machine_with(&[0xF3, 0x0A]);
    for _ in 0..5 {
        assert_eq!(chip8.emulate_cycle(), Ok(()));
        assert_eq!(chip8.state, ChipState::Block(3));
        assert_eq!(chip8.program_counter, 0x200);
        assert_eq!(chip8.v, [0u8; 16]);
    }
    let mut keys = [0u8; 16];
    keys[5] = 1;
    chip8.set_keys(keys);
    assert_eq!(chip8.emulate_cycle(), Ok(()));
    assert_eq!(chip8.v[3], 5);
    assert_eq!(chip8.state, ChipState::Run);
    assert_eq!(chip8.program_counter, 0x202);
}

#[test]
fn key_wait_takes_the_lowest_key() {
    let mut chip8 = machine_with(&[0xF0, 0x0A]);
    let mut keys = [0u8; 16];
    keys[9] = 1;
    keys[4] = 1;
    keys[0xF] = 1;
    chip8.set_keys(keys);
    chip8.execute().unwrap();
    assert_eq!(chip8.v[0], 4);
    assert_eq!(chip8.program_counter, 0x202);
}

#[test]
fn font_lookup_finds_the_glyph_of_five() {
    let mut chip8 = machine_with(&[0xF2, 0x29]);
    chip8.v[2] = 5;
    chip8.execute().unwrap();
    assert_eq!(chip8.i, 25);
    assert_eq!(&chip8.memory[25..30], &[0xF0, 0x80, 0xF0, 0x10, 0xF0]);
    assert_eq!(chip8.program_counter, 0x202);
}

#[test]
fn font_lookup_takes_any_byte() {
    let mut chip8 = machine_with(&[0xF2, 0x29]);
    chip8.v[2] = 0xFF;
    chip8.execute().unwrap();
    assert_eq!(chip8.i, 1275);
}

#[test]
fn unknown_opcode_halts_the_machine() {
    let words: [[u8; 2]; 9] = [
        [0x01, 0x23],
        [0x00, 0xE1],
        [0x00, 0x00],
        [0x51, 0x21],
        [0x91, 0x2F],
        [0x81, 0x28],
        [0xE1, 0x9F],
        [0xE1, 0x0E],
        [0xF1, 0xFF],
    ];
    for word in words {
        let mut chip8 = machine_with(&word);
        chip8.v[1] = 3;
        assert_eq!(chip8.emulate_cycle(), Err(Chip8Error::UnknownOpcode));
        assert_eq!(chip8.state, ChipState::Halt(Chip8Error::UnknownOpcode));
        assert_eq!(chip8.program_counter, 0x200);
        assert_eq!(chip8.v[1], 3);
    }
}

#[test]
fn halted_machine_takes_no_further_step() {
    let mut chip8 = machine_with(&[0x00, 0x01]);
    assert_eq!(chip8.emulate_cycle(), Err(Chip8Error::UnknownOpcode));
    chip8.memory[0x200] = 0x61;
    chip8.memory[0x201] = 0x07;
    chip8.delay_timer = 9;
    chip8.sound_timer = 1;
    assert_eq!(chip8.emulate_cycle(), Err(Chip8Error::UnknownOpcode));
    assert_eq!(chip8.emulate_cycle_with(3), Err(Chip8Error::UnknownOpcode));
    assert_eq!(chip8.v[1], 0);
    assert_eq!(chip8.program_counter, 0x200);
    assert_eq!(chip8.state, ChipState::Halt(Chip8Error::UnknownOpcode));
    assert!(!chip8.tick());
    assert_eq!((chip8.delay_timer, chip8.sound_timer), (9, 1));
}

#[test]
fn fetch_at_the_end_of_memory_fails() {
    let mut chip8 = Chip8::new();
    chip8.program_counter = 4095;
    assert_eq!(chip8.get_op_code(), Err(Chip8Error::FetchOutOfBounds));
    assert_eq!(chip8.emulate_cycle(), Err(Chip8Error::FetchOutOfBounds));
    assert_eq!(chip8.state, ChipState::Halt(Chip8Error::FetchOutOfBounds));

    let mut chip8 = Chip8::new();
    chip8.program_counter = 4094;
    chip8.memory[4094] = 0x12;
    chip8.memory[4095] = 0x34;
    assert_eq!(chip8.get_op_code(), Ok(0x1234));
    assert_eq!(chip8.emulate_cycle(), Ok(()));
    assert_eq!(chip8.program_counter, 0x234);
}

#[test]
fn jump_with_offset_may_leave_memory_and_the_next_fetch_fails() {
    let mut chip8 = machine_with(&[0xBF, 0xFF]);
    chip8.v[0] = 0xFF;
    assert_eq!(chip8.execute(), Ok(()));
    assert_eq!(chip8.program_counter, 0x10FE);
    assert_eq!(chip8.execute(), Err(Chip8Error::FetchOutOfBounds));
    assert_eq!(chip8.program_counter, 0x10FE);
}

#[test]
fn stack_overflows_at_the_seventeenth_call() {
    // 2200 calls itself.
    let mut chip8 = machine_with(&[0x22, 0x00]);
    for depth in 1..=16 {
        assert_eq!(chip8.execute(), Ok(()));
        assert_eq!(chip8.stack_pointer, depth);
    }
    assert_eq!(chip8.stack, [0x200u16; 16]);
    assert_eq!(chip8.execute(), Err(Chip8Error::StackOverflow));
    assert_eq!(chip8.state, ChipState::Halt(Chip8Error::StackOverflow));
    assert_eq!(chip8.stack_pointer, 16);
}

#[test]
fn return_with_empty_stack_underflows() {
    let mut chip8 = machine_with(&[0x00, 0xEE]);
    assert_eq!(chip8.execute(), Err(Chip8Error::StackUnderflow));
    assert_eq!(chip8.state, ChipState::Halt(Chip8Error::StackUnderflow));
    assert_eq!(chip8.stack_pointer, 0);
    assert_eq!(chip8.program_counter, 0x200);
}

#[test]
fn key_skip_checks_the_key_index() {
    let mut chip8 = machine_with(&[0xE1, 0x9E]);
    chip8.v[1] = 16;
    assert_eq!(chip8.execute(), Err(Chip8Error::InvalidKeyIndex));
    assert_eq!(chip8.state, ChipState::Halt(Chip8Error::InvalidKeyIndex));

    let mut chip8 = machine_with(&[0xE1, 0xA1]);
    chip8.v[1] = 0xFF;
    assert_eq!(chip8.execute(), Err(Chip8Error::InvalidKeyIndex));
}

#[test]
fn key_skip_follows_the_latch() {
    let mut keys = [0u8; 16];
    keys[0xF] = 1;

    let mut chip8 = machine_with(&[0xE1, 0x9E]);
    chip8.v[1] = 0xF;
    chip8.set_keys(keys);
    chip8.execute().unwrap();
    assert_eq!(chip8.program_counter, 0x204);

    let mut chip8 = machine_with(&[0xE1, 0x9E]);
    chip8.v[1] = 0xE;
    chip8.set_keys(keys);
    chip8.execute().unwrap();
    assert_eq!(chip8.program_counter, 0x202);

    let mut chip8 = machine_with(&[0xE1, 0xA1]);
    chip8.v[1] = 0xF;
    chip8.set_keys(keys);
    chip8.execute().unwrap();
    assert_eq!(chip8.program_counter, 0x202);

    let mut chip8 = machine_with(&[0xE1, 0xA1]);
    chip8.v[1] = 0xE;
    chip8.set_keys(keys);
    chip8.execute().unwrap();
    assert_eq!(chip8.program_counter, 0x204);
}

#[test]
fn loader_places_the_program_at_0x200() {
    let mut chip8 = Chip8::new();
    assert_eq!(chip8.load_game(&[0xAA, 0xBB, 0xCC]), Ok(()));
    assert_eq!(&chip8.memory[0x1FF..0x204], &[0, 0xAA, 0xBB, 0xCC, 0]);
    assert_eq!(chip8.memory[0], 0xF0);
    assert_eq!(chip8.program_counter, 0x200);
    assert_eq!(chip8.state, ChipState::Run);
}

#[test]
fn loader_takes_a_program_that_fills_memory() {
    let rom = vec![0x5Au8; 4096 - 512];
    let mut chip8 = Chip8::new();
    assert_eq!(chip8.load_game(&rom), Ok(()));
    assert_eq!(chip8.memory[0x200], 0x5A);
    assert_eq!(chip8.memory[4095], 0x5A);
    assert_eq!(chip8.memory[0x1FF], 0);
}

#[test]
fn loader_refuses_a_program_that_is_too_long() {
    let rom = vec![0x5Au8; 4096 - 512 + 1];
    let mut chip8 = Chip8::new();
    assert_eq!(chip8.load_game(&rom), Err(Chip8Error::LoadError));
    assert_eq!(chip8.state, ChipState::Halt(Chip8Error::LoadError));
    assert_eq!(chip8.memory[0x200], 0);
    assert_eq!(chip8.emulate_cycle(), Err(Chip8Error::LoadError));
}

#[test]
fn timers_count_down_to_zero_and_beep_once() {
    let mut chip8 = Chip8::new();
    chip8.delay_timer = 2;
    chip8.sound_timer = 2;
    assert!(!chip8.tick());
    assert_eq!((chip8.delay_timer, chip8.sound_timer), (1, 1));
    assert!(chip8.tick());
    assert_eq!((chip8.delay_timer, chip8.sound_timer), (0, 0));
    assert!(!chip8.tick());
    assert!(!chip8.tick());
    assert_eq!((chip8.delay_timer, chip8.sound_timer), (0, 0));
}

#[test]
fn timers_stand_still_while_paused_and_run_while_blocked() {
    let mut chip8 = Chip8::new();
    chip8.delay_timer = 5;
    chip8.sound_timer = 1;
    chip8.state = ChipState::Pause;
    assert!(!chip8.tick());
    assert_eq!((chip8.delay_timer, chip8.sound_timer), (5, 1));
    chip8.state = ChipState::Block(0);
    assert!(chip8.tick());
    assert_eq!((chip8.delay_timer, chip8.sound_timer), (4, 0));
}

#[test]
fn timer_instructions_move_bytes() {
    // F115: delay = V1, F218: sound = V2, F307: V3 = delay.
    let mut chip8 = machine_with(&[0xF1, 0x15, 0xF2, 0x18, 0xF3, 0x07]);
    chip8.v[1] = 0x21;
    chip8.v[2] = 0x43;
    chip8.execute().unwrap();
    chip8.execute().unwrap();
    chip8.tick();
    chip8.execute().unwrap();
    assert_eq!(chip8.delay_timer, 0x20);
    assert_eq!(chip8.sound_timer, 0x42);
    assert_eq!(chip8.v[3], 0x20);
    assert_eq!(chip8.program_counter, 0x206);
}

#[test]
fn index_addition_wraps_at_sixteen_bits() {
    let mut chip8 = machine_with(&[0xF1, 0x1E, 0xF1, 0x1E]);
    chip8.i = 0x0FFF;
    chip8.v[1] = 2;
    chip8.v[0xF] = 9;
    chip8.execute().unwrap();
    assert_eq!(chip8.i, 0x1001);
    assert_eq!(chip8.v[0xF], 9);
    chip8.i = 0xFFFF;
    chip8.execute().unwrap();
    assert_eq!(chip8.i, 1);
}

#[test]
fn bcd_stores_three_digits() {
    let mut chip8 = machine_with(&[0xA3, 0x00, 0xF1, 0x33]);
    chip8.v[1] = 254;
    chip8.execute().unwrap();
    chip8.execute().unwrap();
    assert_eq!(&chip8.memory[0x300..0x303], &[2, 5, 4]);
    assert_eq!(chip8.i, 0x300);

    let mut chip8 = machine_with(&[0xF1, 0x33]);
    chip8.v[1] = 7;
    chip8.i = 4093;
    assert_eq!(chip8.execute(), Ok(()));
    assert_eq!(&chip8.memory[4093..4096], &[0, 0, 7]);

    let mut chip8 = machine_with(&[0xF1, 0x33]);
    chip8.i = 4094;
    assert_eq!(chip8.execute(), Err(Chip8Error::MemoryOutOfBounds));
    assert_eq!(chip8.memory[4094], 0);
}

#[test]
fn random_byte_is_masked() {
    let mut chip8 = machine_with(&[0xC1, 0x0F]);
    assert!(chip8.wants_random());
    assert_eq!(chip8.execute_with(0xAB), Ok(()));
    assert_eq!(chip8.v[1], 0x0B);
    assert_eq!(chip8.program_counter, 0x202);
    assert!(!chip8.wants_random());
}

#[test]
fn random_instruction_with_the_generator_respects_the_mask() {
    for _ in 0..64 {
        let mut chip8 = machine_with(&[0xC1, 0x3C, 0xC2, 0x00]);
        chip8.v[2] = 0xFF;
        assert_eq!(chip8.execute(), Ok(()));
        assert_eq!(chip8.v[1] & !0x3C, 0);
        assert_eq!(chip8.emulate_cycle(), Ok(()));
        assert_eq!(chip8.v[2], 0);
        assert_eq!(chip8.program_counter, 0x204);
    }
}

#[test]
fn step_takes_back_a_display_signal() {
    // 00E0 then 6105.
    let mut chip8 = machine_with(&[0x00, 0xE0, 0x61, 0x05]);
    chip8.gfx[100] = 1;
    assert_eq!(chip8.emulate_cycle(), Ok(()));
    assert_eq!(chip8.state, ChipState::Clear);
    assert_eq!(chip8.gfx, [0u8; 2048]);
    assert_eq!(chip8.emulate_cycle(), Ok(()));
    assert_eq!(chip8.state, ChipState::Run);
    assert_eq!(chip8.v[1], 5);
}

#[test]
fn paused_machine_keeps_still() {
    let mut chip8 = machine_with(&[0x61, 0x05]);
    chip8.state = ChipState::Pause;
    assert_eq!(chip8.emulate_cycle(), Ok(()));
    assert_eq!(chip8.state, ChipState::Pause);
    assert_eq!(chip8.program_counter, 0x200);
    assert_eq!(chip8.v[1], 0);
    chip8.state = ChipState::Run;
    assert_eq!(chip8.emulate_cycle(), Ok(()));
    assert_eq!(chip8.v[1], 5);
}

#[test]
fn set_keys_replaces_the_latch() {
    let mut chip8 = Chip8::new();
    let mut keys = [0u8; 16];
    keys[2] = 1;
    chip8.set_keys(keys);
    assert_eq!(chip8.keys, keys);
    chip8.set_keys([0u8; 16]);
    assert_eq!(chip8.keys, [0u8; 16]);
}

#[test]
fn new_machine_is_well_formed() {
    assert!(Chip8::new().is_well_formed());
    let mut chip8 = Chip8::new();
    chip8.stack_pointer = 17;
    assert!(!chip8.is_well_formed());
    let mut chip8 = Chip8::new();
    chip8.gfx[2047] = 2;
    assert!(!chip8.is_well_formed());
}

#[test]
fn execute_leaves_a_halted_machine_as_it_is() {
    // 6005 would set V0, 00E0 would blank the display, C1FF would draw a byte.
    let programs: [[u8; 2]; 3] = [[0x60, 0x05], [0x00, 0xE0], [0xC1, 0xFF]];
    for program in programs {
        let mut chip8 = machine_with(&program);
        chip8.state = ChipState::Halt(Chip8Error::StackOverflow);
        chip8.gfx[7] = 1;
        chip8.v[1] = 0x33;
        chip8.delay_timer = 4;
        chip8.sound_timer = 2;
        let memory = chip8.memory;
        let gfx = chip8.gfx;
        assert!(!chip8.wants_random());
        assert_eq!(chip8.execute(), Err(Chip8Error::StackOverflow));
        assert_eq!(chip8.execute_with(0x5A), Err(Chip8Error::StackOverflow));
        assert_eq!(chip8.state, ChipState::Halt(Chip8Error::StackOverflow));
        assert_eq!(chip8.program_counter, 0x200);
        assert_eq!(chip8.v[0], 0);
        assert_eq!(chip8.v[1], 0x33);
        assert_eq!(chip8.i, 0);
        assert_eq!(chip8.memory, memory);
        assert_eq!(chip8.gfx, gfx);
        assert_eq!(chip8.stack, [0u16; 16]);
        assert_eq!(chip8.stack_pointer, 0);
        assert_eq!((chip8.delay_timer, chip8.sound_timer), (4, 2));
    }
}

#[test]
fn execute_leaves_a_paused_machine_as_it_is() {
    let programs: [[u8; 2]; 3] = [[0x61, 0x07], [0x00, 0xE0], [0xC1, 0xFF]];
    for program in programs {
        let mut chip8 = machine_with(&program);
        chip8.state = ChipState::Pause;
        chip8.gfx[7] = 1;
        let gfx = chip8.gfx;
        assert!(!chip8.wants_random());
        assert_eq!(chip8.execute(), Ok(()));
        assert_eq!(chip8.execute_with(0x5A), Ok(()));
        assert_eq!(chip8.state, ChipState::Pause);
        assert_eq!(chip8.program_counter, 0x200);
        assert_eq!(chip8.v, [0u8; 16]);
        assert_eq!(chip8.gfx, gfx);
    }
    let mut chip8 = machine_with(&[0x61, 0x07]);
    chip8.state = ChipState::Pause;
    assert_eq!(chip8.execute(), Ok(()));
    chip8.state = ChipState::Run;
    assert_eq!(chip8.execute(), Ok(()));
    assert_eq!(chip8.v[1], 7);
    assert_eq!(chip8.program_counter, 0x202);
}

#[test]
fn execute_leaves_a_display_signal_standing() {
    // 00E0 then 6105: without the driving loop's step the signal stays.
    let mut chip8 = machine_with(&[0x00, 0xE0, 0x61, 0x05]);
    assert_eq!(chip8.execute(), Ok(()));
    assert_eq!(chip8.state, ChipState::Clear);
    assert_eq!(chip8.execute(), Ok(()));
    assert_eq!(chip8.state, ChipState::Clear);
    assert_eq!(chip8.v[1], 5);
}

#[test]
fn execute_after_an_error_reports_it_again() {
    let mut chip8 = machine_with(&[0x00, 0xEE]);
    assert_eq!(chip8.execute(), Err(Chip8Error::StackUnderflow));
    chip8.memory[0x200] = 0x61;
    chip8.memory[0x201] = 0x07;
    assert_eq!(chip8.execute(), Err(Chip8Error::StackUnderflow));
    assert_eq!(chip8.v[1], 0);
    assert_eq!(chip8.program_counter, 0x200);
}
