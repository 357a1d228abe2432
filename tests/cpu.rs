use dmg_emu::cpu::{Flag, HalfReg, Reg};
use dmg_emu::Emu;

fn before(op_codes: [u8; 3]) -> Emu {
    let mut emu = Emu::new();
    let mut mem: [u8; 50] = [0; 50];
    mem[0] = op_codes[0];
    mem[1] = op_codes[1];
    mem[2] = op_codes[2];
    emu.write_mem(&mem);
    emu
}

fn program(bytes: &[u8]) -> Emu {
    let mut emu = Emu::new();
    let mut mem: [u8; 50] = [0; 50];
    mem[..bytes.len()].copy_from_slice(bytes);
    emu.write_mem(&mem);
    emu
}

fn run(emu: &mut Emu, instructions: usize) {
    for _ in 0..instructions {
        emu.tick();
    }
}

#[test]
fn noop() {
    let mut emu = before([0, 0, 0]);
    emu.tick();
    assert_eq!(emu.cpu.get_word_reg(&Reg::PC), 0x1u16);
}

#[test]
fn ld_rr_d16() {
    for (op, reg) in [(0x01, Reg::BC), (0x11, Reg::DE), (0x21, Reg::HL), (0x31, Reg::SP)] {
        let mut emu = before([op, 0x20, 0x30]);
        emu.tick();
        assert_eq!(emu.cpu.get_word_reg(&reg), 0x3020u16);
        assert_eq!(emu.cpu.get_word_reg(&Reg::PC), 0x0003u16);
    }
}

#[test]
fn ld_ar_a() {
    for (op, reg) in [(0x02, Reg::BC), (0x12, Reg::DE)] {
        let mut emu = before([op, 0, 0]);
        emu.cpu.set_byte_reg(&HalfReg::A, 0x20);
        emu.cpu.set_word_reg(&reg, 0x3020);
        emu.tick();
        assert_eq!(emu.mem.get(0x3020), 0x20u8);
    }
}

#[test]
fn cp_d8_should_be_equal() {
    let mut emu = before([0xFE, 0x90, 0x00]);
    emu.cpu.set_byte_reg(&HalfReg::A, 0x90);
    emu.tick();
    assert_eq!(emu.cpu.get_flag(Flag::N), true);
    assert_eq!(emu.cpu.get_flag(Flag::Z), true);
    assert_eq!(emu.cpu.get_flag(Flag::C), false);
    assert_eq!(emu.cpu.get_flag(Flag::H), false);
}

#[test]
fn cp_d8_should_not_be_equal() {
    let mut emu = before([0xFE, 0x90, 0x00]);
    emu.cpu.set_byte_reg(&HalfReg::A, 0x00);
    emu.tick();
    assert_eq!(emu.cpu.get_flag(Flag::N), true);
    assert_eq!(emu.cpu.get_flag(Flag::Z), false);
    assert_eq!(emu.cpu.get_flag(Flag::C), true);
}

#[test]
fn instruction_cycle_counts() {
    // NOP 1, LD BC,d16 3, PUSH BC 4, CALL a16 6
    let mut emu = program(&[0x00, 0x01, 0x00, 0x00, 0x31, 0xF0, 0xDF, 0xC5, 0xCD, 0x20, 0x00]);
    let mut counts = Vec::new();
    for _ in 0..5 {
        let mut n = 0;
        emu.cycle();
        n += 1;
        while emu.cpu.current_cycle != 1 {
            emu.cycle();
            n += 1;
        }
        counts.push(n);
    }
    assert_eq!(counts, vec![1, 3, 3, 4, 6]);
    assert_eq!(emu.cpu.PC, 0x0020);
}

#[test]
fn push_pop_round_trip() {
    // LD SP,0xDFF0; LD BC,0x1234; PUSH BC; POP DE
    let mut emu = program(&[0x31, 0xF0, 0xDF, 0x01, 0x34, 0x12, 0xC5, 0xD1]);
    run(&mut emu, 4);
    assert_eq!(emu.cpu.get_word_reg(&Reg::DE), 0x1234);
    assert_eq!(emu.cpu.get_word_reg(&Reg::SP), 0xDFF0);
}

#[test]
fn pop_af_clears_low_nibble() {
    // LD SP,0xDFF0; LD BC,0x12FF; PUSH BC; POP AF
    let mut emu = program(&[0x31, 0xF0, 0xDF, 0x01, 0xFF, 0x12, 0xC5, 0xF1]);
    run(&mut emu, 4);
    assert_eq!(emu.cpu.get_word_reg(&Reg::AF), 0x12F0);
}

#[test]
fn store_then_load_through_hl() {
    // LD HL,0xC000; LD (HL),0x5A; LD A,(HL)
    let mut emu = program(&[0x21, 0x00, 0xC0, 0x36, 0x5A, 0x7E]);
    run(&mut emu, 3);
    assert_eq!(emu.cpu.get_byte_reg(&HalfReg::A), 0x5A);
}

#[test]
fn swap_twice_is_identity() {
    // LD A,0x3C; SWAP A; SWAP A
    let mut emu = program(&[0x3E, 0x3C, 0xCB, 0x37, 0xCB, 0x37]);
    run(&mut emu, 2);
    assert_eq!(emu.cpu.get_byte_reg(&HalfReg::A), 0xC3);
    run(&mut emu, 1);
    assert_eq!(emu.cpu.get_byte_reg(&HalfReg::A), 0x3C);
}

#[test]
fn cpl_twice_is_identity() {
    let mut emu = program(&[0x3E, 0x5A, 0x2F, 0x2F]);
    run(&mut emu, 2);
    assert_eq!(emu.cpu.get_byte_reg(&HalfReg::A), 0xA5);
    assert!(emu.cpu.get_flag(Flag::N));
    assert!(emu.cpu.get_flag(Flag::H));
    run(&mut emu, 1);
    assert_eq!(emu.cpu.get_byte_reg(&HalfReg::A), 0x5A);
}

#[test]
fn add_immediate_flags() {
    let mut emu = program(&[0x3E, 0x0F, 0xC6, 0x01]);
    run(&mut emu, 2);
    assert_eq!(emu.cpu.get_byte_reg(&HalfReg::A), 0x10);
    assert!(emu.cpu.get_flag(Flag::H));
    assert!(!emu.cpu.get_flag(Flag::C));
    assert!(!emu.cpu.get_flag(Flag::Z));
    assert!(!emu.cpu.get_flag(Flag::N));

    let mut emu = program(&[0x3E, 0xF0, 0xC6, 0x10]);
    run(&mut emu, 2);
    assert_eq!(emu.cpu.get_byte_reg(&HalfReg::A), 0x00);
    assert!(emu.cpu.get_flag(Flag::Z));
    assert!(emu.cpu.get_flag(Flag::C));
    assert!(!emu.cpu.get_flag(Flag::H));
}

#[test]
fn sub_immediate_flags() {
    let mut emu = program(&[0x3E, 0x10, 0xD6, 0x01]);
    run(&mut emu, 2);
    assert_eq!(emu.cpu.get_byte_reg(&HalfReg::A), 0x0F);
    assert!(emu.cpu.get_flag(Flag::H));
    assert!(emu.cpu.get_flag(Flag::N));
    assert!(!emu.cpu.get_flag(Flag::C));

    let mut emu = program(&[0x3E, 0x00, 0xD6, 0x01]);
    run(&mut emu, 2);
    assert_eq!(emu.cpu.get_byte_reg(&HalfReg::A), 0xFF);
    assert!(emu.cpu.get_flag(Flag::C));
    assert!(emu.cpu.get_flag(Flag::H));
}

#[test]
fn inc_keeps_carry() {
    // SCF; LD A,0x0F; INC A
    let mut emu = program(&[0x37, 0x3E, 0x0F, 0x3C]);
    run(&mut emu, 3);
    assert_eq!(emu.cpu.get_byte_reg(&HalfReg::A), 0x10);
    assert!(emu.cpu.get_flag(Flag::H));
    assert!(!emu.cpu.get_flag(Flag::N));
    assert!(emu.cpu.get_flag(Flag::C));
}

#[test]
fn accumulator_rotate_clears_zero() {
    // LD A,0; SET Z by XOR A; RLCA
    let mut emu = program(&[0xAF, 0x07]);
    run(&mut emu, 1);
    assert!(emu.cpu.get_flag(Flag::Z));
    run(&mut emu, 1);
    assert_eq!(emu.cpu.get_byte_reg(&HalfReg::A), 0);
    assert!(!emu.cpu.get_flag(Flag::Z));
    assert!(!emu.cpu.get_flag(Flag::C));
}

#[test]
fn accumulator_rotates_carry_is_the_shifted_bit() {
    // XOR A; RRCA; RLA; RRA  (A stays 0, C stays 0)
    let mut emu = program(&[0xAF, 0x0F, 0x17, 0x1F]);
    run(&mut emu, 1);
    for _ in 0..3 {
        emu.tick();
        assert_eq!(emu.cpu.get_byte_reg(&HalfReg::A), 0);
        assert!(!emu.cpu.get_flag(Flag::C));
        assert!(!emu.cpu.get_flag(Flag::Z));
    }
    // LD A,0x81; RLCA -> 0x03, C set; RRA -> 0x81 (carry in), C set
    let mut emu = program(&[0x3E, 0x81, 0x07, 0x1F]);
    run(&mut emu, 2);
    assert_eq!(emu.cpu.get_byte_reg(&HalfReg::A), 0x03);
    assert!(emu.cpu.get_flag(Flag::C));
    run(&mut emu, 1);
    assert_eq!(emu.cpu.get_byte_reg(&HalfReg::A), 0x81);
    assert!(emu.cpu.get_flag(Flag::C));
}

#[test]
fn cb_rotate_sets_zero_from_result() {
    // LD B,0; RLC B
    let mut emu = program(&[0x06, 0x00, 0xCB, 0x00]);
    run(&mut emu, 2);
    assert!(emu.cpu.get_flag(Flag::Z));
    // LD B,0x80; RLC B -> 0x01, C set
    let mut emu = program(&[0x06, 0x80, 0xCB, 0x00]);
    run(&mut emu, 2);
    assert_eq!(emu.cpu.get_byte_reg(&HalfReg::B), 0x01);
    assert!(!emu.cpu.get_flag(Flag::Z));
    assert!(emu.cpu.get_flag(Flag::C));
}

#[test]
fn daa_after_bcd_add() {
    // LD A,0x15; ADD A,0x27; DAA
    let mut emu = program(&[0x3E, 0x15, 0xC6, 0x27, 0x27]);
    run(&mut emu, 3);
    assert_eq!(emu.cpu.get_byte_reg(&HalfReg::A), 0x42);
}

#[test]
fn bit_res_set_on_memory() {
    // LD HL,0xC010; LD (HL),0x00; SET 3,(HL); BIT 3,(HL); RES 3,(HL)
    let mut emu = program(&[0x21, 0x10, 0xC0, 0x36, 0x00, 0xCB, 0xDE, 0xCB, 0x5E, 0xCB, 0x9E]);
    run(&mut emu, 3);
    assert_eq!(emu.mem.get(0xC010), 0x08);
    run(&mut emu, 1);
    assert!(!emu.cpu.get_flag(Flag::Z));
    assert!(emu.cpu.get_flag(Flag::H));
    run(&mut emu, 1);
    assert_eq!(emu.mem.get(0xC010), 0x00);
}

#[test]
fn conditional_jump_not_taken_consumes_operand() {
    // XOR A (Z set); JR NZ,+5; NOP
    let mut emu = program(&[0xAF, 0x20, 0x05, 0x00]);
    run(&mut emu, 2);
    assert_eq!(emu.cpu.PC, 0x0003);
    // XOR A; JR Z,+5 -> 0x0003 + 5
    let mut emu = program(&[0xAF, 0x28, 0x05, 0x00]);
    run(&mut emu, 2);
    assert_eq!(emu.cpu.PC, 0x0008);
}

#[test]
fn call_and_return() {
    // LD SP,0xDFF0; CALL 0x0010; ... at 0x10: RET
    let mut bytes = [0u8; 17];
    bytes[..6].copy_from_slice(&[0x31, 0xF0, 0xDF, 0xCD, 0x10, 0x00]);
    bytes[16] = 0xC9;
    let mut emu = program(&bytes);
    run(&mut emu, 2);
    assert_eq!(emu.cpu.PC, 0x0010);
    assert_eq!(emu.cpu.SP, 0xDFEE);
    run(&mut emu, 1);
    assert_eq!(emu.cpu.PC, 0x0006);
    assert_eq!(emu.cpu.SP, 0xDFF0);
}

#[test]
fn undefined_opcode_is_a_one_cycle_no_op() {
    let mut emu = program(&[0xD3, 0x00]);
    emu.cycle();
    assert_eq!(emu.cpu.current_cycle, 1);
    assert_eq!(emu.cpu.PC, 0x0001);
}

#[test]
fn ei_delays_and_timer_interrupt_dispatches() {
    // LD SP,0xDFF0; LD A,4; LDH (0xFF),A; LDH (0x0F),A; EI; NOP; NOP
    let mut emu = program(&[0x31, 0xF0, 0xDF, 0x3E, 0x04, 0xE0, 0xFF, 0xE0, 0x0F, 0xFB, 0x00, 0x00]);
    run(&mut emu, 5);
    assert!(!emu.cpu.ime);
    run(&mut emu, 1);
    assert_eq!(emu.cpu.PC, 0x000B);
    assert!(emu.cpu.ime);
    let mut n = 0;
    emu.cycle();
    n += 1;
    while emu.cpu.current_cycle != 1 {
        emu.cycle();
        n += 1;
    }
    assert_eq!(n, 5);
    assert_eq!(emu.cpu.PC, 0x0050);
    assert!(!emu.cpu.ime);
    assert_eq!(emu.mem.get_iflag() & 0x04, 0);
    assert_eq!(emu.mem.get(0xDFEF), 0x00);
    assert_eq!(emu.mem.get(0xDFEE), 0x0B);
}

#[test]
fn flags_low_nibble_stays_zero() {
    let mut emu = program(&[0x01, 0xFF, 0xFF, 0xC5, 0xF1, 0x3C, 0x27, 0x37, 0x3F]);
    emu.cpu.set_word_reg(&Reg::SP, 0xDFF0);
    for _ in 0..200 {
        emu.cycle();
        assert_eq!(emu.cpu.AF & 0x0F, 0);
    }
}

#[test]
fn halt_waits_for_a_request() {
    // LD A,4; LDH (0xFF),A; HALT; NOP
    let mut emu = program(&[0x3E, 0x04, 0xE0, 0xFF, 0x76, 0x00, 0x00]);
    run(&mut emu, 3);
    assert!(emu.cpu.is_halt);
    for _ in 0..50 {
        emu.cycle();
    }
    assert_eq!(emu.cpu.PC, 0x0005);
    emu.mem.set(0xFF0F, 0x04);
    run(&mut emu, 1);
    assert!(!emu.cpu.is_halt);
    assert_eq!(emu.cpu.PC, 0x0006);
}
