use chip8::engine::Fault;
use chip8::instruction::{decode, r1, r2, cst, Instruction};
use chip8::machine::{Chip8, RunState};

fn run(prog: Vec<u8>, setup: impl FnOnce(&mut Chip8)) -> Chip8 {
    let mut chip = Chip8::new(prog);
    setup(&mut chip);
    chip.step().unwrap();
    chip
}

#[test]
fn add_with_carry_sets_flag_on_overflow() {
    let chip = run(vec![0x81, 0x24], |c| {
        c.v[1] = 200;
        c.v[2] = 100;
    });
    assert_eq!(chip.v[1], 44);
    assert_eq!(chip.v[0xF], 1);
}

#[test]
fn add_with_carry_without_overflow() {
    let chip = run(vec![0x81, 0x24], |c| {
        c.v[1] = 155;
        c.v[2] = 100;
    });
    assert_eq!(chip.v[1], 255);
    assert_eq!(chip.v[0xF], 0);
}

#[test]
fn sub_with_borrow_flag() {
    let chip = run(vec![0x81, 0x25], |c| {
        c.v[1] = 10;
        c.v[2] = 20;
    });
    assert_eq!(chip.v[1], 246);
    assert_eq!(chip.v[0xF], 0);
    let chip = run(vec![0x81, 0x25], |c| {
        c.v[1] = 20;
        c.v[2] = 20;
    });
    assert_eq!(chip.v[1], 0);
    assert_eq!(chip.v[0xF], 1);
}

#[test]
fn add_immediate_wraps_without_flag() {
    let chip = run(vec![0x73, 0x10], |c| {
        c.v[3] = 0xF8;
        c.v[0xF] = 7;
    });
    assert_eq!(chip.v[3], 0x08);
    assert_eq!(chip.v[0xF], 7);
}

#[test]
fn clear_after_draws_blanks_screen() {
    // Draw glyph 0 twice at different places, then clear.
    let mut chip = Chip8::new(vec![0xD0, 0x15, 0xD1, 0x25, 0x00, 0xE0]);
    chip.v[1] = 10;
    chip.v[2] = 7;
    chip.step().unwrap();
    chip.step().unwrap();
    assert!(chip.screen().iter().any(|r| *r != 0));
    chip.step().unwrap();
    assert!(chip.screen().iter().all(|r| *r == 0));
    assert_eq!(chip.pc, 0x206);
}

#[test]
fn drawing_twice_restores_screen() {
    let mut chip = Chip8::new(vec![0xD0, 0x15, 0xD0, 0x15]);
    chip.screen[3] = 0x0123_4567_89AB_CDEF;
    chip.v[0] = 62;
    chip.v[1] = 30;
    chip.i = 5 * 0xB;
    let before = *chip.screen();
    chip.step().unwrap();
    assert_ne!(*chip.screen(), before);
    chip.step().unwrap();
    assert_eq!(*chip.screen(), before);
    assert_eq!(chip.v[0xF], 1);
}

#[test]
fn draw_flag_reports_collision_in_any_row() {
    // The collision is in the first row; the last row collides with nothing.
    let mut chip = Chip8::new(vec![0xD0, 0x02]);
    chip.mem[0x300] = 0x80;
    chip.mem[0x301] = 0x80;
    chip.i = 0x300;
    chip.screen[0] = 1u64 << 63;
    chip.step().unwrap();
    assert_eq!(chip.screen[0], 0);
    assert_eq!(chip.screen[1], 1u64 << 63);
    assert_eq!(chip.v[0xF], 1);
}

#[test]
fn draw_of_no_rows_clears_flag() {
    let chip = run(vec![0xD0, 0x00], |c| c.v[0xF] = 1);
    assert_eq!(chip.v[0xF], 0);
}

#[test]
fn jump_sets_pc_exactly() {
    let chip = run(vec![0x1A, 0xBC], |_| {});
    assert_eq!(chip.pc, 0xABC);
}

#[test]
fn call_then_return_resumes_after_call() {
    let mut chip = Chip8::new(vec![0x2A, 0xBC]);
    chip.mem[0xABC] = 0x00;
    chip.mem[0xABD] = 0xEE;
    chip.step().unwrap();
    assert_eq!(chip.pc, 0xABC);
    assert_eq!(chip.sp, 1);
    chip.step().unwrap();
    assert_eq!(chip.pc, 0x202);
    assert_eq!(chip.sp, 0);
}

#[test]
fn wait_for_key_blocks_until_press() {
    let mut chip = Chip8::new(vec![0xF3, 0x0A]);
    for _ in 0..5 {
        chip.step().unwrap();
        assert_eq!(chip.pc, 0x200);
    }
    assert_eq!(chip.run, RunState::WaitingForKey(3));
    chip.press_key(9);
    assert_eq!(chip.pc, 0x202);
    assert_eq!(chip.v[3], 9);
    assert_eq!(chip.run, RunState::Running);
    chip.press_key(4);
    assert_eq!(chip.pc, 0x202);
    assert_eq!(chip.v[3], 9);
}

#[test]
fn store_registers_index_advance_bounds() {
    let chip = run(vec![0xF0, 0x55], |c| c.i = 0x400);
    assert_eq!(chip.i, 0x401);
    let chip = run(vec![0xFF, 0x55], |c| c.i = 0x400);
    assert_eq!(chip.i, 0x410);
    let chip = run(vec![0xFF, 0x65], |c| c.i = 0x400);
    assert_eq!(chip.i, 0x410);
}

#[test]
fn bcd_of_zero_and_max() {
    let chip = run(vec![0xF0, 0x33], |c| {
        c.v[0] = 255;
        c.i = 0x300;
    });
    assert_eq!(&chip.mem[0x300..0x303], &[2, 5, 5]);
    let chip = run(vec![0xF0, 0x33], |c| {
        c.v[0] = 7;
        c.i = 0x300;
    });
    assert_eq!(&chip.mem[0x300..0x303], &[0, 0, 7]);
}

#[test]
fn unknown_opcode_is_a_fault() {
    let mut chip = Chip8::new(vec![0x00, 0x00]);
    assert_eq!(chip.step(), Err(Fault::UnknownOpcode(0x0000)));
    assert_eq!(chip.pc, 0x200);
    let mut chip = Chip8::new(vec![0x80, 0x08]);
    assert_eq!(chip.step(), Err(Fault::UnknownOpcode(0x8008)));
}

#[test]
fn pc_at_end_of_memory_is_a_fault() {
    let mut chip = Chip8::new(vec![0x1F, 0xFF]);
    chip.step().unwrap();
    assert_eq!(chip.step(), Err(Fault::PcOutOfRange));
    assert_eq!(chip.pc, 0xFFF);
}

#[test]
fn stack_overflow_is_a_fault() {
    let mut chip = Chip8::new(vec![0x22, 0x00]);
    for _ in 0..16 {
        chip.step().unwrap();
    }
    assert_eq!(chip.sp, 16);
    assert_eq!(chip.step(), Err(Fault::StackOverflow));
    assert_eq!(chip.sp, 16);
}

#[test]
fn stack_underflow_is_a_fault() {
    let mut chip = Chip8::new(vec![0x00, 0xEE]);
    assert_eq!(chip.step(), Err(Fault::StackUnderflow));
    assert_eq!(chip.pc, 0x200);
}

#[test]
fn memory_past_end_is_a_fault() {
    let mut chip = Chip8::new(vec![0xF2, 0x55]);
    chip.i = 0xFFE;
    assert_eq!(chip.step(), Err(Fault::MemoryOutOfRange));
    assert_eq!(chip.i, 0xFFE);
    let mut chip = Chip8::new(vec![0xD0, 0x13]);
    chip.i = 0xFFE;
    assert_eq!(chip.step(), Err(Fault::MemoryOutOfRange));
}

#[test]
fn index_overflow_is_a_fault() {
    let mut chip = Chip8::new(vec![0xF0, 0x1E]);
    chip.i = 0xFFFF;
    chip.v[0] = 1;
    assert_eq!(chip.step(), Err(Fault::IndexOverflow));
    assert_eq!(chip.i, 0xFFFF);
}

#[test]
fn add_index_flags_past_address_space() {
    let chip = run(vec![0xF0, 0x1E], |c| {
        c.i = 0xFFE;
        c.v[0] = 2;
    });
    assert_eq!(chip.i, 0x1000);
    assert_eq!(chip.v[0xF], 1);
}

#[test]
fn new_loads_font_and_program() {
    let chip = Chip8::new(vec![0x12, 0x34]);
    assert_eq!(&chip.mem[0..5], &[0xF0, 0x90, 0x90, 0x90, 0xF0]);
    assert_eq!(&chip.mem[75..80], &[0xF0, 0x80, 0xF0, 0x80, 0x80]);
    assert_eq!(chip.mem[80], 0);
    assert_eq!(chip.mem[0x200], 0x12);
    assert_eq!(chip.mem[0x201], 0x34);
    assert_eq!(chip.mem[0x202], 0);
    assert_eq!(chip.pc, 0x200);
}

#[test]
fn new_accepts_largest_program() {
    let chip = Chip8::new(vec![0xAB; 4096 - 0x200]);
    assert_eq!(chip.mem[0xFFF], 0xAB);
    assert_eq!(chip.mem[0x200], 0xAB);
}

#[test]
fn font_address_points_at_glyph() {
    let chip = run(vec![0xF0, 0x29], |c| c.v[0] = 0xF);
    assert_eq!(chip.i, 75);
    assert_eq!(chip.mem[chip.i as usize], 0xF0);
}

#[test]
fn random_respects_mask() {
    for _ in 0..20 {
        let chip = run(vec![0xC0, 0x0F], |c| c.v[0] = 0xFF);
        assert_eq!(chip.v[0] & 0xF0, 0);
        assert_eq!(chip.pc, 0x202);
    }
}

#[test]
fn random_with_byte_is_masked() {
    let mut chip = Chip8::new(vec![]);
    chip.execute(Instruction::Random { x: 2, kk: 0x3C }, 0xA5).unwrap();
    assert_eq!(chip.v[2], 0x24);
    assert_eq!(chip.pc, 0x202);
}

#[test]
fn jump_with_offset() {
    let chip = run(vec![0xB3, 0x00], |c| c.v[0] = 0x20);
    assert_eq!(chip.pc, 0x320);
}

#[test]
fn skip_key_beyond_keypad_is_not_pressed() {
    let chip = run(vec![0xE0, 0x9E], |c| {
        c.v[0] = 20;
        c.keyboard = 0xFFFF;
    });
    assert_eq!(chip.pc, 0x202);
    let chip = run(vec![0xE0, 0xA1], |c| c.v[0] = 20);
    assert_eq!(chip.pc, 0x204);
}

#[test]
fn timers_count_down_to_zero() {
    let mut chip = Chip8::new(vec![]);
    chip.delay = 1;
    chip.sound = 2;
    chip.decrement_delay();
    chip.decrement_delay();
    assert_eq!(chip.delay, 0);
    chip.decrement_sound();
    assert_eq!(chip.sound(), 1);
    chip.decrement_sound();
    chip.decrement_sound();
    assert_eq!(chip.sound(), 0);
}

#[test]
fn set_timers_from_registers() {
    let chip = run(vec![0xF4, 0x18], |c| c.v[4] = 30);
    assert_eq!(chip.sound(), 30);
}

#[test]
fn release_key_clears_bit() {
    let mut chip = Chip8::new(vec![]);
    chip.press_key(3);
    chip.press_key(15);
    assert!(chip.is_pressed(3));
    chip.release_key(3);
    assert!(!chip.is_pressed(3));
    assert!(chip.is_pressed(15));
    assert_eq!(chip.keyboard, 0x8000);
}

#[test]
fn shifts_read_second_register() {
    let chip = run(vec![0x81, 0x26], |c| {
        c.v[1] = 0xFF;
        c.v[2] = 0x05;
    });
    assert_eq!(chip.v[1], 0x02);
    assert_eq!(chip.v[2], 0x05);
    assert_eq!(chip.v[0xF], 1);
    let chip = run(vec![0x81, 0x2E], |c| c.v[2] = 0x81);
    assert_eq!(chip.v[1], 0x02);
    assert_eq!(chip.v[0xF], 1);
}

#[test]
fn decode_fields_and_families() {
    assert_eq!(r1(0xD5A3), 5);
    assert_eq!(r2(0xD5A3), 0xA);
    assert_eq!(cst(0xD5A3), 0xA3);
    assert_eq!(decode(0xD5A3), Some(Instruction::Draw { x: 5, y: 0xA, n: 3 }));
    assert_eq!(decode(0x00E0), Some(Instruction::ClearScreen));
    assert_eq!(decode(0x8AB7), Some(Instruction::SubReverse { x: 0xA, y: 0xB }));
    assert_eq!(decode(0xF965), Some(Instruction::LoadRegs { x: 9 }));
    assert_eq!(decode(0xE19F), None);
    assert_eq!(decode(0xF099), None);
}
