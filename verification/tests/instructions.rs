use rustchip::cpu::Cpu;

fn load_vec(cpu: &mut Cpu, data: &[u8]) {
    cpu.load_vec(data);
}

#[test]
fn clear_screen() {
    // 0x00E0
    let mut test = Cpu::new();
    let rom = &[0x00, 0xE0];
    test.graphics = [1; 64 * 32];
    load_vec(&mut test, rom);
    test.run_cycle();
    for &x in test.graphics.iter() {
        assert!(x == 0);
    }
    assert!(test.draw_flag == true);
}

#[test]
fn return_from_subroutine() {
    // 0x00EE
    let mut test = Cpu::new();
    let rom = &[0x00, 0xEE];
    test.sp = 1;
    test.stack[0] = 0x234;
    load_vec(&mut test, rom);
    test.run_cycle();
    assert!(test.pc == 0x234);
}

#[test]
fn jump_to_nnn() {
    // 0x1NNN
    let mut test = Cpu::new();
    let rom = &[0x12, 0x05, 0x11, 0x22, 0x33, 0x44, 0x55];
    load_vec(&mut test, rom);
    test.run_cycle();
    assert!(test.pc == 0x205);
}

#[test]
fn call_subroutine_at_nnn() {
    // 0x2NNN
    let mut test = Cpu::new();
    let rom = &[0x22, 0x34];
    load_vec(&mut test, rom);
    test.run_cycle();
    assert!(test.sp == 1);
    assert!(test.stack[0] == 0x202);
    assert!(test.pc == 0x234);
}

#[test]
fn skip_if_vx_is_nn() {
    // 0x3xNN
    let mut test = Cpu::new();
    let rom = &[0x31, 0x20];
    test.v[0x1] = 0x20;
    load_vec(&mut test, rom);
    test.run_cycle();
    assert!(test.pc == 0x204);

    test = Cpu::new();
    test.v[0x1] = 0x21;
    load_vec(&mut test, rom);
    test.run_cycle();
    assert!(test.pc == 0x202);
}

#[test]
fn skip_if_vx_isnt_nn() {
    // 0x4xNN
    let mut test = Cpu::new();
    let rom = &[0x41, 0x20];
    test.v[0x1] = 0x20;
    load_vec(&mut test, rom);
    test.run_cycle();
    assert!(test.pc == 0x202);

    test = Cpu::new();
    test.v[0x1] = 0x21;
    load_vec(&mut test, rom);
    test.run_cycle();
    assert!(test.pc == 0x204);
}

#[test]
fn skip_if_vx_is_vy() {
    // 0x5xy0
    let mut test = Cpu::new();
    let rom = &[0x51, 0x20];
    test.v[0x1] = 1;
    test.v[0x2] = 2;
    load_vec(&mut test, rom);
    test.run_cycle();
    assert!(test.pc == 0x202);

    test = Cpu::new();
    test.v[0x1] = 1;
    test.v[0x2] = 1;
    load_vec(&mut test, rom);
    test.run_cycle();
    assert!(test.pc == 0x204);
}

#[test]
fn set_v_to_nn() {
    // 0x6xNN
    let mut test = Cpu::new();
    let rom = &[0x61, 0x11];
    load_vec(&mut test, rom);
    test.run_cycle();
    assert!(test.v[0x1] == 0x11);
}

#[test]
fn add_nn_to_vx() {
    // 0x7xNN
    let mut test = Cpu::new();
    let rom = &[0x71, 0x11];
    test.v[0x1] = 0x22;
    load_vec(&mut test, rom);
    test.run_cycle();
    assert!(test.v[0x1] == 0x33);
}

#[test]
fn set_vx_to_vy() {
    // 0x8xy0
    let a = 5;
    let b = 6;
    let mut test = Cpu::new();
    let rom = &[0x81, 0x20];
    test.v[1] = a;
    test.v[2] = b;
    load_vec(&mut test, rom);
    test.run_cycle();
    assert!(test.v[1] == b);
}

#[test]
fn set_vx_to_vx_or_vy() {
    // 0x8xy1
    let a = 5;
    let b = 6;
    let mut test = Cpu::new();
    let rom = &[0x81, 0x21];
    test.v[1] = a;
    test.v[2] = b;
    load_vec(&mut test, rom);
    test.run_cycle();
    assert!(test.v[1] == a | b);
}

#[test]
fn set_vx_to_vx_and_vy() {
    // 0x8xy2
    let a = 5;
    let b = 6;
    let mut test = Cpu::new();
    let rom = &[0x81, 0x22];
    test.v[1] = a;
    test.v[2] = b;
    load_vec(&mut test, rom);
    test.run_cycle();
    assert!(test.v[1] == a & b);
}

#[test]
fn set_vx_to_vx_xor_vy() {
    // 0x8xy3
    let a = 5;
    let b = 6;
    let mut test = Cpu::new();
    let rom = &[0x81, 0x23];
    test.v[1] = a;
    test.v[2] = b;
    load_vec(&mut test, rom);
    test.run_cycle();
    assert!(test.v[1] == a ^ b);
}

#[test]
fn add_vy_to_vx() {
    // 0x8xy4; the sum wraps modulo 256
    let a: u8 = 5;
    let b: u8 = 6;
    let mut test = Cpu::new();
    let rom = &[0x81, 0x24];
    test.v[1] = a;
    test.v[2] = b;
    load_vec(&mut test, rom);
    test.run_cycle();
    assert!(test.v[0xF] == 0);
    assert!(test.v[1] == a.wrapping_add(b));

    let c: u8 = 0xFF;
    let d: u8 = 0xFF;
    test = Cpu::new();
    test.v[1] = c;
    test.v[2] = d;
    load_vec(&mut test, rom);
    test.run_cycle();
    assert!(test.v[0xF] == 1);
    assert!(test.v[1] == c.wrapping_add(d));
}

#[test]
fn subtract_vy_from_vx() {
    // 0x8xy5; the difference wraps modulo 256
    let a: u8 = 5;
    let b: u8 = 6;
    let mut test = Cpu::new();
    let rom = &[0x81, 0x25];
    test.v[1] = b;
    test.v[2] = a;
    load_vec(&mut test, rom);
    test.run_cycle();
    assert!(test.v[0xF] == 1);
    assert!(test.v[1] == b.wrapping_sub(a));

    test = Cpu::new();
    test.v[1] = a;
    test.v[2] = b;
    load_vec(&mut test, rom);
    test.run_cycle();
    assert!(test.v[0xF] == 0);
    assert!(test.v[1] == a.wrapping_sub(b));
}

#[test]
fn shift_vx_right() {
    // 0x8xN6
    let mut test = Cpu::new();
    let rom = &[0x81, 0x06];
    let a = 1;
    test.v[0x1] = a;
    load_vec(&mut test, rom);
    test.run_cycle();
    assert!(test.v[0xF] == 1);
    assert!(test.v[0x1] == a >> 1);
}

#[test]
fn set_vx_to_vy_minus_vx() {
    // 0x8xN7; the difference wraps modulo 256
    let mut test = Cpu::new();
    let rom = &[0x81, 0x27];
    let a: u8 = 1;
    let b: u8 = 2;
    test.v[0x1] = a;
    test.v[0x2] = b;
    load_vec(&mut test, rom);
    test.run_cycle();
    assert!(test.v[0xF] == 1);
    assert!(test.v[0x1] == b.wrapping_sub(a));

    test = Cpu::new();
    test.v[0x1] = b;
    test.v[0x2] = a;
    load_vec(&mut test, rom);
    test.run_cycle();
    assert!(test.v[0xF] == 0);
    assert!(test.v[0x1] == a.wrapping_sub(b));
}

#[test]
fn shift_vx_left() {
    // 0x8xNE
    let mut test = Cpu::new();
    let rom = &[0x81, 0x0E];
    let a = 1;
    test.v[0x1] = a;
    load_vec(&mut test, rom);
    test.run_cycle();
    assert!(test.v[0xF] == 0);
    assert!(test.v[0x1] == a << 1);
}

#[test]
fn skip_if_vx_isnt_vy() {
    // 0x9xy0
    let mut test = Cpu::new();
    let rom = &[0x91, 0x20];
    test.v[0x1] = 1;
    test.v[0x2] = 2;
    load_vec(&mut test, rom);
    test.run_cycle();
    assert!(test.pc == 0x204);

    test = Cpu::new();
    test.v[0x1] = 1;
    test.v[0x2] = 1;
    load_vec(&mut test, rom);
    test.run_cycle();
    assert!(test.pc == 0x202);
}

#[test]
fn set_i_to_nnn() {
    // 0xANNN
    let mut test = Cpu::new();
    let rom = &[0xA1, 0x23];
    load_vec(&mut test, rom);
    test.run_cycle();
    assert!(test.index == 0x123);
}

#[test]
fn jump_to_nnn_plus_v0() {
    // 0xBNNN
    let mut test = Cpu::new();
    let rom = &[0xB1, 0x23];
    test.v[0] = 2;
    load_vec(&mut test, rom);
    test.run_cycle();
    assert!(test.pc == 0x125);
}

#[test]
fn set_vx_to_rand_and_nn() {
    // 0xCNNN
    let mut test = Cpu::new();
    let rom = &[0xC1, 0x23];
    test.v[1] = 2;
    load_vec(&mut test, rom);
    test.run_cycle();
    assert!(test.v[1] < 0xFF);
}

#[test]
fn draw_sprite() {
    // 0xDxyh
    let mut test = Cpu::new();
    let rom = &[0xD1, 0x22, 0x12, 0x34, 0xA0, 0xC0];
    test.v[1] = 4;
    test.v[2] = 5;
    test.index = 0x204;
    load_vec(&mut test, rom);
    test.run_cycle();
    assert!(test.graphics[4 + 5 * 64] == 1);
    assert!(test.graphics[5 + 5 * 64] == 0);
    assert!(test.graphics[6 + 5 * 64] == 1);
    assert!(test.graphics[4 + 6 * 64] == 1);
    assert!(test.graphics[5 + 6 * 64] == 1);

    test.pc = 0x200;
    test.run_cycle();
    assert!(test.graphics[4 + 5 * 64] == 0);
    assert!(test.graphics[5 + 5 * 64] == 0);
    assert!(test.graphics[6 + 5 * 64] == 0);
    assert!(test.graphics[4 + 6 * 64] == 0);
    assert!(test.graphics[5 + 6 * 64] == 0);

    test = Cpu::new();
    test.v[1] = 63;
    test.v[2] = 31;
    test.index = 0x204;
    load_vec(&mut test, rom);
    test.run_cycle();
    assert!(test.graphics[63 + 31 * 64] == 1);
    assert!(test.graphics[0 + 31 * 64] == 0);
    assert!(test.graphics[1 + 31 * 64] == 1);
    assert!(test.graphics[63 + 0 * 64] == 1);
    assert!(test.graphics[0 + 0 * 64] == 1);
}

#[test]
fn skip_if_key_is_pressed() {
    // 0xEx9E
    let mut test = Cpu::new();
    let rom = &[0xE1, 0x9E];
    test.v[1] = 0xA;
    test.keys[0xA] = 1;
    load_vec(&mut test, rom);
    test.run_cycle();
    assert!(test.pc == 0x204);

    test = Cpu::new();
    test.v[1] = 0xA;
    test.keys[0xA] = 0;
    load_vec(&mut test, rom);
    test.run_cycle();
    assert!(test.pc == 0x202);
}

#[test]
fn skip_if_key_isnt_pressed() {
    // 0xExA1
    let mut test = Cpu::new();
    let rom = &[0xE1, 0xA1];
    test.v[1] = 0xA;
    test.keys[0xA] = 0;
    load_vec(&mut test, rom);
    test.run_cycle();
    assert!(test.pc == 0x204);

    test = Cpu::new();
    test.v[1] = 0xA;
    test.keys[0xA] = 1;
    load_vec(&mut test, rom);
    test.run_cycle();
    assert!(test.pc == 0x202);
}

#[test]
fn set_vx_to_delay_timer() {
    // 0xFx07
    let mut test = Cpu::new();
    let rom = &[0xF2, 0x07];
    test.delay_timer = 0xF1;
    load_vec(&mut test, rom);
    test.run_cycle();
    assert!(test.v[2] == 0xF1);
}

#[test]
fn wait_on_keypress() {
    // 0xFx0A
    let mut test = Cpu::new();
    let rom = &[0xF2, 0x0A];
    load_vec(&mut test, rom);
    test.run_cycle();
    assert!(test.wait_register == 2);
    assert!(test.is_waiting());
}

#[test]
fn continue_after_wait() {
    // 0xFx0A
    let mut test = Cpu::new();
    test.wait_register = 2;
    test.set_wait_register(5);
    assert!(test.v[2] == 5);
    assert!(!test.is_waiting());
}

#[test]
fn fill_v0_to_vx_from_memory() {
    // 0xFx65
    let mut test = Cpu::new();
    let rom = &[0xF3, 0x65, 0x12, 0x34, 0x56, 0x78];
    load_vec(&mut test, rom);
    test.index = 0x202;
    test.run_cycle();
    assert!(test.v[0] == 0x12);
    assert!(test.v[1] == 0x34);
    assert!(test.v[2] == 0x56);
    assert!(test.v[3] == 0x78);
}

#[test]
#[allow(non_snake_case)]
fn set_V_to_NN() {
    let mut test = Cpu::new();
    let rom = [0x61, 0x11];
    test.load_vec(&rom);
    test.run_cycle();
    assert!(test.v[0x1] == 0x11);
}

#[test]
fn skip_next_instruction() {
    let mut test = Cpu::new();
    let rom = [0x91, 0x20];
    test.v[0x1] = 1;
    test.v[0x2] = 2;
    test.load_vec(&rom);
    test.run_cycle();
    assert!(test.pc == 0x204);

    test = Cpu::new();
    test.v[0x1] = 1;
    test.v[0x2] = 1;
    test.load_vec(&rom);
    test.run_cycle();
    assert!(test.pc == 0x202);
}
