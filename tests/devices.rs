use dmg_emu::alu::{alu8, daa8, shift8};
use dmg_emu::apu::APU;
use dmg_emu::cpu::Reg;
use dmg_emu::io::{Button, Joypad, Serial, Timer, DIV_ADDR, SB_ADDR, SC_ADDR, TAC_ADDR, TIMA_ADDR, TMA_ADDR};
use dmg_emu::mem::Mem;
use dmg_emu::ppu::Fifo;
use dmg_emu::Emu;

#[test]
fn div_write_restarts_the_counter() {
    let mut t = Timer::new();
    for _ in 0..100 {
        t.tick();
    }
    assert_eq!(t.read(DIV_ADDR), 1);
    t.write(TAC_ADDR, 0x05);
    t.write(TIMA_ADDR, 0);
    t.write(DIV_ADDR, 0x77);
    assert_eq!(t.read(DIV_ADDR), 0);
    let before = t.read(TIMA_ADDR);
    for _ in 0..4 {
        t.tick();
    }
    assert_eq!(t.read(TIMA_ADDR), before.wrapping_add(1));
    for _ in 0..4 {
        t.tick();
    }
    assert_eq!(t.read(TIMA_ADDR), before.wrapping_add(2));
    for _ in 0..56 {
        t.tick();
    }
    assert_eq!(t.read(DIV_ADDR), 1);
}

#[test]
fn timer_overflow_reloads_from_tma() {
    let mut t = Timer::new();
    t.write(TMA_ADDR, 0x10);
    t.write(TIMA_ADDR, 0xFF);
    t.write(TAC_ADDR, 0x05);
    let mut overflowed = false;
    for _ in 0..4 {
        overflowed |= t.tick();
    }
    assert!(overflowed);
    assert_eq!(t.read(TIMA_ADDR), 0x10);
}

#[test]
fn timer_disabled_does_not_count() {
    let mut t = Timer::new();
    t.write(TAC_ADDR, 0x01);
    for _ in 0..64 {
        t.tick();
    }
    assert_eq!(t.read(TIMA_ADDR), 0);
}

#[test]
fn timer_overflow_requests_interrupt_on_bus() {
    let mut m = Mem::new();
    m.set(0xFF06, 0x20);
    m.set(0xFF05, 0xFF);
    m.set(0xFF07, 0x05);
    for _ in 0..4 {
        m.tick();
    }
    assert_eq!(m.get(0xFF0F) & 0x04, 0x04);
    assert_eq!(m.get(0xFF05), 0x20);
}

#[test]
fn lyc_write_updates_coincidence_at_once() {
    let mut m = Mem::new();
    m.set_ly(5);
    m.set(0xFF45, 5);
    assert_eq!(m.get(0xFF41) & 0x04, 0x04);
    m.set(0xFF45, 6);
    assert_eq!(m.get(0xFF41) & 0x04, 0);
}

#[test]
fn coincidence_requests_stat_interrupt_when_enabled() {
    let mut m = Mem::new();
    m.set(0xFF41, 0x40);
    m.set(0xFF45, 7);
    assert_eq!(m.get(0xFF0F) & 0x02, 0);
    m.set_ly(7);
    assert_eq!(m.get(0xFF0F) & 0x02, 0x02);
}

#[test]
fn dma_blocks_all_but_high_ram() {
    let mut m = Mem::new();
    m.set(0xC000, 0x12);
    m.set(0xC09F, 0x34);
    m.set(0xFF80, 0x56);
    m.set(0xFF46, 0xC0);
    assert!(m.is_transferring());
    assert_eq!(m.get(0xC000), 0xFF);
    assert_eq!(m.get(0xFF80), 0x56);
    assert_eq!(m.get(0xFF46), 0xC0);
    for _ in 0..160 {
        m.dma_transfer();
    }
    assert!(!m.is_transferring());
    assert_eq!(m.get(0xC000), 0x12);
    assert_eq!(m.get(0xFE00), 0x12);
    assert_eq!(m.get(0xFE9F), 0x34);
}

#[test]
fn bus_regions() {
    let mut m = Mem::new();
    m.set(0xC123, 0xAB);
    assert_eq!(m.get(0xE123), 0xAB);
    m.set(0xE124, 0xCD);
    assert_eq!(m.get(0xC124), 0xCD);
    m.set(0xFEA0, 0x11);
    assert_eq!(m.get(0xFEA0), 0xFF);
    m.set(0x0100, 0x42);
    assert_eq!(m.get(0x0100), 0x42);
    m.lock_rom(true);
    m.set(0x0100, 0x43);
    assert_eq!(m.get(0x0100), 0x42);
    m.set(0xFF44, 0x99);
    assert_eq!(m.get(0xFF44), 0);
    m.set(0xFFFF, 0x1F);
    assert_eq!(m.get(0xFFFF), 0x1F);
    for a in 0..=0xFFFFu16 {
        let _ = m.get(a);
    }
}

#[test]
fn stat_mode_bits_are_read_only() {
    let mut m = Mem::new();
    m.set_lcd_stat(0, 3);
    m.set(0xFF41, 0xFF);
    assert_eq!(m.get(0xFF41) & 0x03, 0x03);
    assert_eq!(m.get(0xFF41) & 0x78, 0x78);
}

#[test]
fn serial_sends_on_0x81() {
    let mut s = Serial::new();
    s.write(SB_ADDR, b'P');
    s.write(SC_ADDR, 0x81);
    s.write(SB_ADDR, b'a');
    s.write(SC_ADDR, 0x80);
    s.write(SC_ADDR, 0x81);
    assert_eq!(s.get_buffer(), "Pa");
    assert_eq!(s.read(SB_ADDR), b'a');
}

#[test]
fn serial_output_through_the_machine() {
    let mut emu = Emu::new();
    let mut rom: [u8; 50] = [0; 50];
    rom[..8].copy_from_slice(&[0x3E, 0x50, 0xE0, 0x01, 0x3E, 0x81, 0xE0, 0x02]);
    emu.write_mem(&rom);
    for _ in 0..4 {
        emu.tick();
    }
    assert_eq!(emu.get_serial(), "P");
}

#[test]
fn joypad_rows() {
    let mut j = Joypad::new();
    assert_eq!(j.read(), 0xCF);
    j.write(0x20);
    j.set(Button::Right, true);
    assert_eq!(j.read(), 0xCE);
    j.write(0x10);
    j.set(Button::Start, true);
    assert_eq!(j.read(), 0xC7);
    assert_eq!(j.get_arrow(), 0xCE);
    assert_eq!(j.get_action(), 0xC7);
}

#[test]
fn joypad_press_requests_interrupt() {
    let mut m = Mem::new();
    m.set(0xFF00, 0x20);
    assert_eq!(m.get(0xFF0F) & 0x10, 0);
    m.button(Button::Down, true);
    assert_eq!(m.get(0xFF0F) & 0x10, 0x10);
    assert_eq!(m.get(0xFF00), 0xC7);
}

#[test]
fn button_mask_bit_set_is_pressed() {
    let mut emu = Emu::new();
    emu.button_states(1 << 4);
    emu.mem.set(0xFF00, 0x10);
    assert_eq!(emu.mem.get(0xFF00), 0xCE);
}

#[test]
fn apu_registers_are_stored() {
    let mut a = APU::new();
    a.write(0xFF10, 0x80);
    a.write(0xFF30, 0x12);
    a.write(0xFF15, 0x55);
    assert_eq!(a.read(0xFF10), 0x80);
    assert_eq!(a.read(0xFF30), 0x12);
    assert_eq!(a.read(0xFF15), 0xFF);
    assert_eq!(a.get_shared_buffer()[0].len(), 735);
    let mut m = Mem::new();
    m.set(0xFF24, 0x77);
    assert_eq!(m.get(0xFF24), 0x77);
}

#[test]
fn alu_exact_values() {
    assert_eq!(alu8(0, 0x3A, 0xC6, false), (0x00, 0xB0));
    assert_eq!(alu8(1, 0xE1, 0x0F, true), (0xF1, 0x20));
    assert_eq!(alu8(2, 0x3E, 0x3E, false), (0x00, 0xC0));
    assert_eq!(alu8(3, 0x3B, 0x2A, true), (0x10, 0x40));
    assert_eq!(alu8(4, 0x5A, 0x3F, false), (0x1A, 0x20));
    assert_eq!(alu8(5, 0xFF, 0xFF, false), (0x00, 0x80));
    assert_eq!(alu8(6, 0x5A, 0x03, false), (0x5B, 0x00));
    assert_eq!(alu8(7, 0x3C, 0x40, false), (0x3C, 0x50));
}

#[test]
fn shift_exact_values() {
    assert_eq!(shift8(0, 0x85, false), (0x0B, 0x10));
    assert_eq!(shift8(1, 0x01, false), (0x80, 0x10));
    assert_eq!(shift8(2, 0x80, false), (0x00, 0x90));
    assert_eq!(shift8(3, 0x01, false), (0x00, 0x90));
    assert_eq!(shift8(4, 0xFF, false), (0xFE, 0x10));
    assert_eq!(shift8(5, 0x8A, false), (0xC5, 0x00));
    assert_eq!(shift8(6, 0xF0, false), (0x0F, 0x00));
    assert_eq!(shift8(7, 0x01, false), (0x00, 0x90));
}

#[test]
fn daa_exact_values() {
    assert_eq!(daa8(0x9A, false, false, false).0, 0x00);
    assert_eq!(daa8(0x9A, false, false, false).1 & 0x90, 0x90);
    assert_eq!(daa8(0x0F, true, true, false).0, 0x09);
}

#[test]
fn fifo_mixing() {
    let mut f = Fifo::new(true);
    f.mix(0, 0, 1, 0);
    f.mix(1, 2, 3, 0);
    assert_eq!(f.peek(0), 0x20 | (2 << 2) | 3);
    f.mix(0, 1, 1, 0);
    assert_eq!(f.peek(0), 0x20 | (2 << 2) | 3);
    assert_eq!(f.pop(), 0x2B);
    assert!(!f.can_pop());
    let mut b = Fifo::new(false);
    for i in 0..7 {
        b.push(i);
    }
    assert!(!b.can_pop());
    b.push(7);
    assert!(b.can_pop());
    assert_eq!(b.tick(), Some(0));
}

#[test]
fn frame_of_blank_screen() {
    let mut emu = Emu::new();
    emu.tick_till_frame_done();
    let buf = emu.get_buffer();
    assert_eq!(buf.len(), 160 * 144 * 4);
    assert_eq!(&buf[0..4], &[0xF3, 0xF0, 0xDE, 0xFF]);
    let last = buf.len() - 4;
    assert_eq!(&buf[last..], &[0xF3, 0xF0, 0xDE, 0xFF]);
    assert_eq!(emu.mem.get(0xFF44), 144);
    assert_eq!(emu.mem.get(0xFF41) & 0x03, 1);
    assert_eq!(emu.mem.get(0xFF0F) & 0x01, 0x01);
}

#[test]
fn background_tile_is_drawn() {
    let mut emu = Emu::new();
    // tile 0 row 0: all colour 3; BGP identity; LCDC: bg on, unsigned tiles
    emu.mem.set(0x8000, 0xFF);
    emu.mem.set(0x8001, 0xFF);
    emu.mem.set(0xFF47, 0xE4);
    emu.mem.set(0xFF40, 0x91);
    emu.tick_till_frame_done();
    let buf = emu.get_buffer();
    assert_eq!(&buf[0..4], &[0x3D, 0x17, 0x52, 0xFF]);
    // row 1 of tile 0 is empty: colour 0
    let row1 = 160 * 4;
    assert_eq!(&buf[row1..row1 + 4], &[0xF3, 0xF0, 0xDE, 0xFF]);
}

#[test]
fn stat_mode_follows_ppu_every_cycle() {
    let mut emu = Emu::new();
    let mut seen = [false; 4];
    for _ in 0..20000 {
        emu.cycle();
        let stat = emu.mem.get(0xFF41);
        seen[(stat & 3) as usize] = true;
        assert!(emu.mem.get(0xFF44) <= 153);
    }
    assert_eq!(seen, [true, true, true, true]);
}

#[test]
fn reset_points_at_entry() {
    let mut emu = Emu::new();
    emu.mem.set(0xC000, 9);
    emu.reset(false);
    assert_eq!(emu.cpu.PC, 0x0100);
    assert_eq!(emu.cpu.SP, 0xFFFE);
    assert_eq!(emu.cpu.AF, 0x0180);
    assert_eq!(emu.mem.get(0xC000), 0);
    emu.reset(true);
    assert_eq!(emu.cpu.AF, 0x1180);
}

#[test]
fn load_rom_locks() {
    let mut emu = Emu::new();
    emu.load_rom_data(vec![0xAA, 0xBB]);
    assert_eq!(emu.mem.get(0x0000), 0xAA);
    assert_eq!(emu.mem.get(0x0001), 0xBB);
    emu.mem.set(0x0000, 0x00);
    assert_eq!(emu.mem.get(0x0000), 0xAA);
    let snap = emu.get_mem_state();
    assert_eq!(snap.len(), 0x10000);
    assert_eq!(snap[1], 0xBB);
}

#[test]
fn sprite_is_drawn_over_background() {
    let mut emu = Emu::new();
    // sprite 0 at screen (0, 0) with tile 1, whose first row is colour 1
    emu.mem.set(0xFE00, 16);
    emu.mem.set(0xFE01, 8);
    emu.mem.set(0xFE02, 1);
    emu.mem.set(0xFE03, 0);
    emu.mem.set(0x8010, 0xFF);
    emu.mem.set(0x8011, 0x00);
    emu.mem.set(0xFF47, 0xE4);
    emu.mem.set(0xFF48, 0xE4);
    emu.mem.set(0xFF40, 0x93);
    emu.tick_till_frame_done();
    let buf = emu.get_buffer();
    assert_eq!(&buf[0..4], &[0x63, 0x91, 0xB0, 0xFF]);
    assert_eq!(&buf[7 * 4..8 * 4], &[0x63, 0x91, 0xB0, 0xFF]);
    assert_eq!(&buf[8 * 4..9 * 4], &[0xF3, 0xF0, 0xDE, 0xFF]);
    // sprites off: background shows
    let mut emu2 = Emu::new();
    emu2.mem.set(0xFE00, 16);
    emu2.mem.set(0xFE01, 8);
    emu2.mem.set(0xFE02, 1);
    emu2.mem.set(0x8010, 0xFF);
    emu2.mem.set(0xFF48, 0xE4);
    emu2.mem.set(0xFF40, 0x91);
    emu2.tick_till_frame_done();
    assert_eq!(&emu2.get_buffer()[0..4], &[0xF3, 0xF0, 0xDE, 0xFF]);
}

#[test]
fn register_names_and_keys() {
    assert_eq!(Reg::HL.name(), "HL");
    assert_eq!(Reg::AF.name(), "AF");
    assert_eq!(Button::from_char('t'), Some(Button::Start));
    assert_eq!(Button::from_char('x'), None);
}

#[test]
fn window_covers_background() {
    let mut emu = Emu::new();
    // window map at 0x9C00 names tile 1, whose first row is colour 3
    for i in 0..32u16 {
        emu.mem.set(0x9C00 + i, 1);
    }
    emu.mem.set(0x8010, 0xFF);
    emu.mem.set(0x8011, 0xFF);
    emu.mem.set(0xFF47, 0xE4);
    emu.mem.set(0xFF4A, 0);
    emu.mem.set(0xFF4B, 7);
    emu.mem.set(0xFF40, 0xF1);
    emu.tick_till_frame_done();
    let buf = emu.get_buffer();
    assert_eq!(&buf[0..4], &[0x3D, 0x17, 0x52, 0xFF]);
    assert_eq!(&buf[159 * 4..160 * 4], &[0x3D, 0x17, 0x52, 0xFF]);
    // the window's second line uses row 1 of tile 1, which is colour 0
    let row1 = 160 * 4;
    assert_eq!(&buf[row1..row1 + 4], &[0xF3, 0xF0, 0xDE, 0xFF]);
}
