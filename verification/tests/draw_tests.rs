use chip8::cpu::new;
use chip8::cpu::Cpu;
use chip8::opcode::OpCode;

fn pixel(cpu: &Cpu, x: usize, y: usize) -> bool {
    cpu.screen[y * 64 + x]
}

fn lit_pixels(cpu: &Cpu) -> usize {
    cpu.screen.iter().filter(|&&p| p).count()
}

#[test]
fn draw_sets_pixels_from_sprite_bits() {
    let mut cpu = new();
    // one sprite row: 10100000 -> pixels at columns 0 and 2
    cpu.load_into_memory(vec![0b1010_0000], 0x300);
    cpu.i = 0x300;
    cpu.v[0] = 0;
    cpu.v[1] = 0;
    assert!(cpu.execute(OpCode::Draw(0, 1, 1), 0).is_ok());
    assert!(pixel(&cpu, 0, 0));
    assert!(!pixel(&cpu, 1, 0));
    assert!(pixel(&cpu, 2, 0));
    assert_eq!(lit_pixels(&cpu), 2);
    assert_eq!(cpu.v[0xF], 0);
    assert!(cpu.should_render);
}

#[test]
fn draw_twice_restores_screen_and_reports_collision() {
    let mut cpu = new();
    cpu.load_into_memory(vec![0xFF, 0x81, 0xFF], 0x300);
    cpu.i = 0x300;
    cpu.v[2] = 10;
    cpu.v[3] = 5;
    assert!(cpu.execute(OpCode::Draw(2, 3, 3), 0).is_ok());
    assert_eq!(cpu.v[0xF], 0);
    let after_first: Vec<bool> = cpu.screen.clone();
    assert!(lit_pixels(&cpu) > 0);

    assert!(cpu.execute(OpCode::Draw(2, 3, 3), 0).is_ok());
    assert_eq!(cpu.v[0xF], 1); // every pixel the first draw set collides
    assert_eq!(lit_pixels(&cpu), 0); // XOR is self-inverse
    assert_ne!(cpu.screen, after_first);
}

#[test]
fn draw_collision_flags_only_overlap() {
    let mut cpu = new();
    cpu.load_into_memory(vec![0b1000_0000], 0x300);
    cpu.i = 0x300;
    // first draw at column 0, second at column 1: no overlap, no collision
    cpu.v[0] = 0;
    cpu.v[1] = 0;
    assert!(cpu.execute(OpCode::Draw(0, 1, 1), 0).is_ok());
    cpu.v[0] = 1;
    assert!(cpu.execute(OpCode::Draw(0, 1, 1), 0).is_ok());
    assert_eq!(cpu.v[0xF], 0);
    assert!(pixel(&cpu, 0, 0));
    assert!(pixel(&cpu, 1, 0));
}

#[test]
fn draw_origin_wraps_modulo_grid() {
    let mut cpu = new();
    cpu.load_into_memory(vec![0b1000_0000], 0x300);
    cpu.i = 0x300;
    cpu.v[4] = 68; // 68 % 64 == 4
    cpu.v[5] = 33; // 33 % 32 == 1
    assert!(cpu.execute(OpCode::Draw(4, 5, 1), 0).is_ok());
    assert!(pixel(&cpu, 4, 1));
    assert_eq!(lit_pixels(&cpu), 1);
}

#[test]
fn draw_body_clips_at_right_edge() {
    let mut cpu = new();
    cpu.load_into_memory(vec![0xFF], 0x300);
    cpu.i = 0x300;
    cpu.v[0] = 60;
    cpu.v[1] = 0;
    assert!(cpu.execute(OpCode::Draw(0, 1, 1), 0).is_ok());
    assert!(pixel(&cpu, 60, 0));
    assert!(pixel(&cpu, 61, 0));
    assert!(pixel(&cpu, 62, 0));
    assert!(pixel(&cpu, 63, 0));
    assert!(!pixel(&cpu, 0, 0)); // clipped, not wrapped
    assert_eq!(lit_pixels(&cpu), 4);
}

#[test]
fn draw_body_clips_at_bottom_edge() {
    let mut cpu = new();
    cpu.load_into_memory(vec![0x80, 0x80, 0x80, 0x80, 0x80], 0x300);
    cpu.i = 0x300;
    cpu.v[0] = 0;
    cpu.v[1] = 30;
    assert!(cpu.execute(OpCode::Draw(0, 1, 5), 0).is_ok());
    assert!(pixel(&cpu, 0, 30));
    assert!(pixel(&cpu, 0, 31));
    assert!(!pixel(&cpu, 0, 0)); // clipped, not wrapped
    assert_eq!(lit_pixels(&cpu), 2);
}

#[test]
fn draw_through_tick_reads_operands_from_the_word() {
    let mut cpu = new();
    cpu.load_into_memory(vec![0xD1, 0x25], 0x200);
    cpu.pc = 0x200;
    cpu.load_into_memory(vec![0xFF, 0xFF, 0xFF, 0xFF, 0xFF], 0x300);
    cpu.i = 0x300;
    cpu.v[1] = 8;
    cpu.v[2] = 4;
    assert!(cpu.tick_ready());
    assert!(cpu.tick().is_ok());
    assert_eq!(lit_pixels(&cpu), 40); // 8 columns x 5 rows
    assert!(pixel(&cpu, 8, 4));
    assert!(pixel(&cpu, 15, 8));
    assert!(!pixel(&cpu, 7, 4));
    assert!(!pixel(&cpu, 16, 4));
}

#[test]
fn clear_screen_unsets_all_cells_and_marks_dirty() {
    let mut cpu = new();
    cpu.load_into_memory(vec![0xFF, 0xFF], 0x300);
    cpu.i = 0x300;
    assert!(cpu.execute(OpCode::Draw(0, 1, 2), 0).is_ok());
    assert!(lit_pixels(&cpu) > 0);
    cpu.should_render = false;

    assert!(cpu.execute(OpCode::ClearScreen, 0).is_ok());
    assert_eq!(lit_pixels(&cpu), 0);
    assert_eq!(cpu.screen.len(), 2048);
    assert!(cpu.should_render);
}

#[test]
fn draw_pixel_reports_collision_on_unset_only() {
    let mut cpu = new();
    assert!(!cpu.draw_pixel(5, 5, true)); // off -> on: no collision
    assert!(pixel(&cpu, 5, 5));
    assert!(cpu.draw_pixel(5, 5, true)); // on -> off: collision
    assert!(!pixel(&cpu, 5, 5));
    assert!(!cpu.draw_pixel(5, 5, false)); // XOR with unset bit: no change
    assert!(!pixel(&cpu, 5, 5));
}
