use chipboi::cpu::{Fault, LoadError, CPU};
use chipboi::instr::{decode, Instruction};

fn machine(program: &[u8]) -> CPU {
    let mut cpu = CPU::new();
    assert_eq!(cpu.load_rom(program), Ok(()));
    cpu
}

fn run(cpu: &mut CPU, steps: usize) {
    for _ in 0..steps {
        assert_eq!(cpu.step(), Ok(()));
    }
}

#[test]
fn load_immediate_sets_register() {
    for kk in [0u8, 1, 0x7F, 0x80, 0xFF] {
        let mut cpu = machine(&[0x63, kk]);
        run(&mut cpu, 1);
        assert_eq!(cpu.getv(3), kk);
        assert_eq!(cpu.pc(), 0x202);
    }
}

#[test]
fn add_immediate_wraps_without_carry() {
    let mut cpu = machine(&[0x60, 0xFF, 0x70, 0x01]);
    run(&mut cpu, 2);
    assert_eq!(cpu.getv(0), 0);
    assert_eq!(cpu.getv(0xF), 0);
}

#[test]
fn add_registers_sets_carry() {
    let mut cpu = machine(&[0x60, 200, 0x61, 100, 0x80, 0x14]);
    run(&mut cpu, 3);
    assert_eq!(cpu.getv(0xF), 1);
    assert_eq!(cpu.getv(0), 44);
}

#[test]
fn add_registers_without_carry() {
    let mut cpu = machine(&[0x60, 20, 0x61, 100, 0x80, 0x14]);
    run(&mut cpu, 3);
    assert_eq!(cpu.getv(0xF), 0);
    assert_eq!(cpu.getv(0), 120);
}

#[test]
fn subtract_sets_borrow() {
    let mut cpu = machine(&[0x60, 100, 0x61, 200, 0x80, 0x15]);
    run(&mut cpu, 3);
    assert_eq!(cpu.getv(0xF), 0);
    assert_eq!(cpu.getv(0), 156);
}

#[test]
fn subtract_reversed() {
    let mut cpu = machine(&[0x60, 100, 0x61, 200, 0x80, 0x17]);
    run(&mut cpu, 3);
    assert_eq!(cpu.getv(0xF), 1);
    assert_eq!(cpu.getv(0), 100);
}

#[test]
fn flag_register_as_destination_keeps_result() {
    let mut cpu = machine(&[0x6F, 200, 0x61, 100, 0x8F, 0x14]);
    run(&mut cpu, 3);
    assert_eq!(cpu.getv(0xF), 44);
}

#[test]
fn logic_operations() {
    let mut cpu = machine(&[0x60, 0xCC, 0x61, 0xAA, 0x82, 0x00, 0x82, 0x11, 0x83, 0x00, 0x83, 0x12, 0x84, 0x00, 0x84, 0x13]);
    run(&mut cpu, 8);
    assert_eq!(cpu.getv(2), 0xEE);
    assert_eq!(cpu.getv(3), 0x88);
    assert_eq!(cpu.getv(4), 0x66);
}

#[test]
fn shift_right_uses_vx_by_default() {
    let mut cpu = machine(&[0x60, 0b1000_0001, 0x80, 0x16]);
    run(&mut cpu, 2);
    assert_eq!(cpu.getv(0xF), 1);
    assert_eq!(cpu.getv(0), 0b0100_0000);
}

#[test]
fn shift_right_legacy_uses_vy() {
    let mut cpu = machine(&[0x61, 0b1000_0001, 0x80, 0x16]);
    cpu.set_legacy_shl_shr(true);
    run(&mut cpu, 2);
    assert_eq!(cpu.getv(0xF), 1);
    assert_eq!(cpu.getv(0), 0b0100_0000);
    assert_eq!(cpu.getv(1), 0b1000_0001);
}

#[test]
fn shift_left_both_modes() {
    let mut cpu = machine(&[0x60, 0b1100_0001, 0x80, 0x1E]);
    run(&mut cpu, 2);
    assert_eq!(cpu.getv(0xF), 1);
    assert_eq!(cpu.getv(0), 0b1000_0010);

    let mut cpu = machine(&[0x61, 0b0100_0001, 0x80, 0x1E]);
    cpu.set_legacy_shl_shr(true);
    run(&mut cpu, 2);
    assert_eq!(cpu.getv(0xF), 0);
    assert_eq!(cpu.getv(0), 0b1000_0010);
}

#[test]
fn sixteen_nested_calls_then_overflow() {
    let mut program = Vec::new();
    for k in 0..17u16 {
        let target = 0x200 + 2 * (k + 1);
        program.push(0x20 | (target >> 8) as u8);
        program.push((target & 0xFF) as u8);
    }
    let mut cpu = machine(&program);
    run(&mut cpu, 16);
    assert_eq!(cpu.pc(), 0x220);
    assert_eq!(cpu.step(), Err(Fault::StackOverflow));
    assert_eq!(cpu.pc(), 0x220);
}

#[test]
fn return_without_call_is_fatal() {
    let mut cpu = machine(&[0x00, 0xEE]);
    assert_eq!(cpu.step(), Err(Fault::StackUnderflow));
}

#[test]
fn call_then_return() {
    let mut cpu = machine(&[0x22, 0x04, 0x61, 0x05, 0x00, 0xEE]);
    run(&mut cpu, 1);
    assert_eq!(cpu.pc(), 0x204);
    run(&mut cpu, 1);
    assert_eq!(cpu.pc(), 0x202);
    run(&mut cpu, 1);
    assert_eq!(cpu.getv(1), 5);
}

#[test]
fn glyph_address_of_digit_a() {
    let mut cpu = machine(&[0x60, 0x0A, 0xF0, 0x29]);
    run(&mut cpu, 2);
    assert_eq!(cpu.get_i(), 50);
    let glyph: Vec<u8> = (50..55).map(|a| cpu.read_mem(a)).collect();
    assert_eq!(glyph, vec![0xF0, 0x90, 0xF0, 0x90, 0x90]);
}

#[test]
fn bcd_of_157() {
    let mut cpu = machine(&[0x60, 157, 0xA3, 0x00, 0xF0, 0x33]);
    run(&mut cpu, 3);
    assert_eq!(cpu.read_mem(0x300), 1);
    assert_eq!(cpu.read_mem(0x301), 5);
    assert_eq!(cpu.read_mem(0x302), 7);
}

#[test]
fn store_load_round_trip() {
    let program = [
        0x60, 11, 0x61, 22, 0x62, 33, 0x63, 44, 0xA3, 0x00, 0xF3, 0x55, 0x60, 0, 0x61, 0, 0x62, 0, 0x63, 0,
        0xF3, 0x65,
    ];
    let mut cpu = machine(&program);
    run(&mut cpu, 6);
    assert_eq!(cpu.get_i(), 0x300);
    assert_eq!(cpu.read_mem(0x303), 44);
    run(&mut cpu, 5);
    assert_eq!([cpu.getv(0), cpu.getv(1), cpu.getv(2), cpu.getv(3)], [11, 22, 33, 44]);
    assert_eq!(cpu.get_i(), 0x300);
}

#[test]
fn store_load_round_trip_legacy() {
    let program = [
        0x60, 11, 0x61, 22, 0x62, 33, 0x63, 44, 0xA3, 0x00, 0xF3, 0x55, 0x60, 0, 0x61, 0, 0x62, 0, 0x63, 0,
        0xA3, 0x00, 0xF3, 0x65,
    ];
    let mut cpu = machine(&program);
    cpu.set_legacy_ld_sta(true);
    run(&mut cpu, 6);
    assert_eq!(cpu.get_i(), 0x304);
    run(&mut cpu, 6);
    assert_eq!([cpu.getv(0), cpu.getv(1), cpu.getv(2), cpu.getv(3)], [11, 22, 33, 44]);
    assert_eq!(cpu.get_i(), 0x304);
}

#[test]
fn invalid_opcodes_are_fatal() {
    for word in [0x5121u16, 0x812F, 0xE0FF, 0xF0FF] {
        let mut cpu = machine(&[(word >> 8) as u8, (word & 0xFF) as u8]);
        assert_eq!(cpu.step(), Err(Fault::InvalidOpcode(word)));
        assert_eq!(cpu.pc(), 0x200);
    }
}

#[test]
fn address_out_of_range_is_fatal() {
    let mut cpu = machine(&[0xAF, 0xFE, 0xF0, 0x33]);
    run(&mut cpu, 1);
    assert_eq!(cpu.step(), Err(Fault::AddressOutOfRange));

    let mut cpu = machine(&[0x1F, 0xFF]);
    run(&mut cpu, 1);
    assert_eq!(cpu.pc(), 0xFFF);
    assert_eq!(cpu.step(), Err(Fault::AddressOutOfRange));
}

#[test]
fn key_out_of_range_is_fatal() {
    let mut cpu = machine(&[0x60, 0x10, 0xE0, 0x9E]);
    run(&mut cpu, 1);
    assert_eq!(cpu.step(), Err(Fault::InvalidKey(0x10)));
}

#[test]
fn rom_too_large_is_refused() {
    let mut cpu = CPU::new();
    assert_eq!(cpu.load_rom(&vec![1u8; 3585]), Err(LoadError::TooLarge));
    assert_eq!(cpu.read_mem(0x200), 0);
    assert_eq!(cpu.load_rom(&vec![1u8; 3584]), Ok(()));
    assert_eq!(cpu.read_mem(0xFFF), 1);
    assert_eq!(cpu.read_mem(0x1FF), 0);
}

#[test]
fn skips() {
    let mut cpu = machine(&[0x60, 5, 0x30, 5]);
    run(&mut cpu, 2);
    assert_eq!(cpu.pc(), 0x206);
    let mut cpu = machine(&[0x60, 5, 0x40, 5]);
    run(&mut cpu, 2);
    assert_eq!(cpu.pc(), 0x204);
    let mut cpu = machine(&[0x60, 5, 0x61, 5, 0x50, 0x10]);
    run(&mut cpu, 3);
    assert_eq!(cpu.pc(), 0x208);
    let mut cpu = machine(&[0x60, 5, 0x61, 5, 0x90, 0x10]);
    run(&mut cpu, 3);
    assert_eq!(cpu.pc(), 0x206);
}

#[test]
fn key_skips() {
    let mut cpu = machine(&[0x60, 7, 0xE0, 0x9E]);
    cpu.set_input(7, true);
    run(&mut cpu, 2);
    assert_eq!(cpu.pc(), 0x206);
    let mut cpu = machine(&[0x60, 7, 0xE0, 0xA1]);
    run(&mut cpu, 2);
    assert_eq!(cpu.pc(), 0x206);
    let mut cpu = machine(&[0x60, 7, 0xE0, 0xA1]);
    cpu.set_input(7, true);
    run(&mut cpu, 2);
    assert_eq!(cpu.pc(), 0x204);
}

#[test]
fn wait_for_key_press() {
    let mut cpu = machine(&[0xF5, 0x0A, 0x61, 0x01]);
    cpu.set_input(3, true);
    run(&mut cpu, 1);
    assert_eq!(cpu.waiting_for_key(), Some(5));
    run(&mut cpu, 3);
    assert_eq!(cpu.pc(), 0x202);
    assert_eq!(cpu.getv(1), 0);
    cpu.set_input(3, true);
    assert_eq!(cpu.waiting_for_key(), Some(5));
    cpu.set_input(9, true);
    assert_eq!(cpu.waiting_for_key(), None);
    assert_eq!(cpu.getv(5), 9);
    assert!(cpu.is_key_down(9));
    run(&mut cpu, 1);
    assert_eq!(cpu.getv(1), 1);
}

#[test]
fn timers_count_down() {
    let mut cpu = machine(&[0x60, 2, 0xF0, 0x15, 0x61, 1, 0xF1, 0x18, 0xF2, 0x07]);
    run(&mut cpu, 4);
    assert_eq!(cpu.delay_timer(), 2);
    assert_eq!(cpu.sound_timer(), 1);
    assert!(cpu.update_timers());
    assert_eq!(cpu.delay_timer(), 1);
    assert_eq!(cpu.sound_timer(), 0);
    assert!(!cpu.update_timers());
    assert!(!cpu.update_timers());
    assert_eq!(cpu.delay_timer(), 0);
    run(&mut cpu, 1);
    assert_eq!(cpu.getv(2), 0);
}

#[test]
fn delay_timer_read_back() {
    let mut cpu = machine(&[0x60, 9, 0xF0, 0x15, 0xF3, 0x07]);
    run(&mut cpu, 3);
    assert_eq!(cpu.getv(3), 9);
}

#[test]
fn jumps_and_address_register() {
    let mut cpu = machine(&[0x60, 4, 0xB3, 0x00]);
    run(&mut cpu, 2);
    assert_eq!(cpu.pc(), 0x304);
    let mut cpu = machine(&[0x12, 0x40]);
    run(&mut cpu, 1);
    assert_eq!(cpu.pc(), 0x240);
    let mut cpu = machine(&[0xA1, 0x23, 0x60, 0x10, 0xF0, 0x1E]);
    run(&mut cpu, 3);
    assert_eq!(cpu.get_i(), 0x133);
}

#[test]
fn random_byte_is_masked() {
    let mut cpu = machine(&[0xC0, 0xF0, 0xC1, 0x00]);
    assert_eq!(cpu.step_with(0xAB), Ok(()));
    assert_eq!(cpu.getv(0), 0xA0);
    run(&mut cpu, 1);
    assert_eq!(cpu.getv(1), 0);
}

#[test]
fn draw_and_clear_through_instructions() {
    let mut cpu = machine(&[0x60, 0x0A, 0xF0, 0x29, 0x61, 2, 0x62, 3, 0xD1, 0x25, 0xD1, 0x25, 0xD1, 0x25, 0x00, 0xE0]);
    run(&mut cpu, 5);
    assert_eq!(cpu.getv(0xF), 0);
    assert!(cpu.get_pixel(2, 3));
    assert!(cpu.get_pixel(5, 3));
    assert!(!cpu.get_pixel(6, 3));
    assert!(cpu.get_pixel(2, 4));
    assert!(!cpu.get_pixel(3, 4));
    run(&mut cpu, 1);
    assert_eq!(cpu.getv(0xF), 1);
    assert!(!cpu.get_pixel(2, 3));
    run(&mut cpu, 1);
    assert_eq!(cpu.getv(0xF), 0);
    run(&mut cpu, 1);
    assert!(!cpu.get_pixel(2, 3));
    assert!(!cpu.screen().get_pixel(5, 7));
}

#[test]
fn decode_fields() {
    assert_eq!(decode(0x00E0), Some(Instruction::Cls));
    assert_eq!(decode(0x00EE), Some(Instruction::Ret));
    assert_eq!(decode(0x0123), Some(Instruction::Sys(0x123)));
    assert_eq!(decode(0x8AB4), Some(Instruction::AddReg(0xA, 0xB)));
    assert_eq!(decode(0xD12F), Some(Instruction::Drw(1, 2, 0xF)));
    assert_eq!(decode(0x9AB3), Some(Instruction::SneReg(0xA, 0xB)));
    assert_eq!(decode(0xFC65), Some(Instruction::LoadRegs(0xC)));
    assert_eq!(decode(0x5AB1), None);
    assert_eq!(decode(0xE1A2), None);
}

#[test]
fn machine_routine_is_ignored() {
    let mut cpu = machine(&[0x01, 0x23, 0x60, 0x07]);
    run(&mut cpu, 2);
    assert_eq!(cpu.pc(), 0x204);
    assert_eq!(cpu.getv(0), 7);
}
