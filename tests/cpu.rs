use scuf8::cpu::Cpu;
use scuf8::machine::CpuError;
use scuf8::opcode::OpcodeTypes;

fn load(words: &[u16]) -> Cpu {
    let mut bytes = Vec::new();
    for w in words {
        bytes.push((w >> 8) as u8);
        bytes.push((w & 0xFF) as u8);
    }
    Cpu::initialize(&bytes).unwrap()
}

fn run(cpu: &mut Cpu, cycles: usize) {
    for _ in 0..cycles {
        cpu.step().unwrap();
    }
}

fn lit_pixels(cpu: &Cpu) -> usize {
    let mut n = 0;
    for y in 0..32 {
        for x in 0..64 {
            if cpu.pixel(x, y) {
                n += 1;
            }
        }
    }
    n
}

#[test]
fn initialize_places_font_and_program() {
    let cpu = Cpu::initialize(&vec![0x12, 0x34, 0x56]).unwrap();
    assert_eq!(&cpu.memory.addr_mem[0..5], &[0xF0, 0x90, 0x90, 0x90, 0xF0]);
    assert_eq!(&cpu.memory.addr_mem[75..80], &[0xF0, 0x80, 0xF0, 0x80, 0x80]);
    assert_eq!(cpu.memory.addr_mem[80], 0);
    assert_eq!(&cpu.memory.addr_mem[0x200..0x204], &[0x12, 0x34, 0x56, 0x00]);
    assert_eq!(cpu.memory.addr_mem.len(), 4096);
    assert_eq!(cpu.memory.pc, 0x200);
    assert_eq!(cpu.memory.sp, 0);
    assert!(cpu.memory.reg.iter().all(|r| *r == 0));
    assert_eq!(lit_pixels(&cpu), 0);
}

#[test]
fn initialize_rejects_an_oversized_image() {
    assert!(Cpu::initialize(&vec![0u8; 3584]).is_ok());
    assert_eq!(Cpu::initialize(&vec![0u8; 3585]).err(), Some(CpuError::Load { len: 3585 }));
}

#[test]
fn add_with_carry() {
    let mut cpu = load(&[0x60FF, 0x6101, 0x8014]);
    run(&mut cpu, 3);
    assert_eq!(cpu.memory.reg[0], 0x00);
    assert_eq!(cpu.memory.reg[15], 1);
    assert_eq!(cpu.memory.pc, 0x206);
}

#[test]
fn add_without_carry() {
    let mut cpu = load(&[0x6010, 0x6120, 0x8014]);
    run(&mut cpu, 3);
    assert_eq!(cpu.memory.reg[0], 0x30);
    assert_eq!(cpu.memory.reg[15], 0);
}

#[test]
fn subtract_with_borrow() {
    let mut cpu = load(&[0x6001, 0x6102, 0x8015]);
    run(&mut cpu, 3);
    assert_eq!(cpu.memory.reg[0], 0xFF);
    assert_eq!(cpu.memory.reg[15], 0);
}

#[test]
fn subtract_without_borrow() {
    let mut cpu = load(&[0x6005, 0x6103, 0x8015]);
    run(&mut cpu, 3);
    assert_eq!(cpu.memory.reg[0], 2);
    assert_eq!(cpu.memory.reg[15], 1);
}

#[test]
fn reverse_subtract() {
    let mut cpu = load(&[0x6002, 0x6105, 0x8017, 0x6305, 0x6406, 0x8347]);
    run(&mut cpu, 3);
    assert_eq!(cpu.memory.reg[0], 3);
    assert_eq!(cpu.memory.reg[15], 1);
    run(&mut cpu, 3);
    assert_eq!(cpu.memory.reg[3], 1);
    assert_eq!(cpu.memory.reg[15], 1);
}

#[test]
fn shifts_set_the_flag_to_the_bit_shifted_out() {
    let mut cpu = load(&[0x6005, 0x8006]);
    run(&mut cpu, 2);
    assert_eq!(cpu.memory.reg[0], 2);
    assert_eq!(cpu.memory.reg[15], 1);
    let mut cpu = load(&[0x6081, 0x800E]);
    run(&mut cpu, 2);
    assert_eq!(cpu.memory.reg[0], 2);
    assert_eq!(cpu.memory.reg[15], 1);
    let mut cpu = load(&[0x6040, 0x800E]);
    run(&mut cpu, 2);
    assert_eq!(cpu.memory.reg[0], 0x80);
    assert_eq!(cpu.memory.reg[15], 0);
}

#[test]
fn bitwise_and_immediate_operations() {
    let mut cpu = load(&[0x60F0, 0x613C, 0x8011, 0x62F0, 0x8212, 0x63F0, 0x8313, 0x74FF, 0x7402, 0x8540]);
    run(&mut cpu, 10);
    assert_eq!(cpu.memory.reg[0], 0xFC);
    assert_eq!(cpu.memory.reg[2], 0x30);
    assert_eq!(cpu.memory.reg[3], 0xCC);
    assert_eq!(cpu.memory.reg[4], 0x01);
    assert_eq!(cpu.memory.reg[5], 0x01);
}

#[test]
fn call_then_return_resumes_after_the_call() {
    let mut cpu = load(&[0x2206, 0x6001, 0x0000, 0x00EE]);
    cpu.step().unwrap();
    assert_eq!(cpu.memory.pc, 0x206);
    assert_eq!(cpu.memory.sp, 1);
    cpu.step().unwrap();
    assert_eq!(cpu.memory.pc, 0x202);
    assert_eq!(cpu.memory.sp, 0);
    cpu.step().unwrap();
    assert_eq!(cpu.memory.reg[0], 1);
}

#[test]
fn return_on_an_empty_stack_fails() {
    let mut cpu = load(&[0x00EE]);
    assert_eq!(cpu.step(), Err(CpuError::Stack { word: 0x00EE, pc: 0x200 }));
    assert_eq!(cpu.memory.pc, 0x200);
}

#[test]
fn call_on_a_full_stack_fails() {
    let mut cpu = load(&[0x2200]);
    run(&mut cpu, 16);
    assert_eq!(cpu.memory.sp, 16);
    assert_eq!(cpu.step(), Err(CpuError::Stack { word: 0x2200, pc: 0x200 }));
    assert_eq!(cpu.memory.sp, 16);
}

#[test]
fn unknown_word_fails_to_decode() {
    let mut cpu = load(&[0xFFFF]);
    assert_eq!(cpu.step(), Err(CpuError::Decode { word: 0xFFFF, pc: 0x200 }));
}

#[test]
fn fetch_past_the_address_space_fails() {
    let mut cpu = load(&[0x1FFF]);
    cpu.step().unwrap();
    assert_eq!(cpu.memory.pc, 0xFFF);
    assert_eq!(cpu.step(), Err(CpuError::MemoryRange { word: 0x1FFF, pc: 0xFFF }));
}

#[test]
fn digits_past_the_address_space_fail() {
    let mut cpu = load(&[0xAFFE, 0xF233]);
    cpu.step().unwrap();
    assert_eq!(cpu.step(), Err(CpuError::MemoryRange { word: 0xF233, pc: 0x202 }));
    assert_eq!(cpu.memory.addr_mem[0xFFE], 0);
}

#[test]
fn store_and_draw_past_the_address_space_fail() {
    let mut cpu = load(&[0xAFFE, 0xF255]);
    cpu.step().unwrap();
    assert_eq!(cpu.step(), Err(CpuError::MemoryRange { word: 0xF255, pc: 0x202 }));
    let mut cpu = load(&[0xAFFE, 0xF165]);
    run(&mut cpu, 2);
    assert_eq!(&cpu.memory.reg[0..2], &[0, 0]);
    let mut cpu = load(&[0xAFFE, 0xF265]);
    cpu.step().unwrap();
    assert_eq!(cpu.step(), Err(CpuError::MemoryRange { word: 0xF265, pc: 0x202 }));
    let mut cpu = load(&[0xAFFE, 0xD003]);
    cpu.step().unwrap();
    assert_eq!(cpu.step(), Err(CpuError::MemoryRange { word: 0xD003, pc: 0x202 }));
}

#[test]
fn decimal_digits() {
    let mut cpu = load(&[0x60FE, 0xA300, 0xF033]);
    run(&mut cpu, 3);
    assert_eq!(&cpu.memory.addr_mem[0x300..0x303], &[2, 5, 4]);
}

#[test]
fn store_and_load_register_blocks() {
    let mut cpu = load(&[0x6001, 0x6102, 0x6203, 0x6309, 0xA300, 0xF255, 0x6000, 0x6100, 0x6200, 0xF265]);
    run(&mut cpu, 6);
    assert_eq!(&cpu.memory.addr_mem[0x300..0x304], &[1, 2, 3, 0]);
    assert_eq!(cpu.memory.i, 0x300);
    run(&mut cpu, 4);
    assert_eq!(&cpu.memory.reg[0..4], &[1, 2, 3, 9]);
}

#[test]
fn skips_on_comparisons() {
    let mut cpu = load(&[0x6005, 0x3005, 0x0000, 0x4005, 0x6105, 0x5010, 0x0000, 0x9010, 0x6201]);
    run(&mut cpu, 2);
    assert_eq!(cpu.memory.pc, 0x206);
    run(&mut cpu, 1);
    assert_eq!(cpu.memory.pc, 0x208);
    run(&mut cpu, 2);
    assert_eq!(cpu.memory.pc, 0x20E);
    run(&mut cpu, 1);
    assert_eq!(cpu.memory.pc, 0x210);
}

#[test]
fn jumps() {
    let mut cpu = load(&[0x6002, 0xB300]);
    run(&mut cpu, 2);
    assert_eq!(cpu.memory.pc, 0x302);
    let mut cpu = load(&[0x1208]);
    run(&mut cpu, 1);
    assert_eq!(cpu.memory.pc, 0x208);
}

#[test]
fn index_register_operations() {
    let mut cpu = load(&[0xA0FF, 0x6001, 0xF01E]);
    run(&mut cpu, 3);
    assert_eq!(cpu.memory.i, 0x100);
    let mut cpu = load(&[0x600A, 0xF029]);
    run(&mut cpu, 2);
    assert_eq!(cpu.memory.i, 50);
    let mut cpu = load(&[0x601F, 0xF029]);
    run(&mut cpu, 2);
    assert_eq!(cpu.memory.i, 75);
}

#[test]
fn timers_load_and_read() {
    let mut cpu = load(&[0x6007, 0xF015, 0xF018, 0xF107]);
    run(&mut cpu, 4);
    assert_eq!(cpu.memory.delay, 7);
    assert_eq!(cpu.memory.sound, 7);
    assert_eq!(cpu.memory.reg[1], 7);
}

#[test]
fn delay_timer_reaches_zero_and_stays() {
    let mut cpu = load(&[0x600A, 0xF015]);
    run(&mut cpu, 2);
    assert_eq!(cpu.memory.delay, 10);
    cpu.elapse(166_667);
    assert_eq!(cpu.memory.delay, 0);
    cpu.elapse(1_000_000);
    assert_eq!(cpu.memory.delay, 0);
}

#[test]
fn timers_tick_once_per_sixtieth_of_a_second() {
    let mut cpu = load(&[0x600A, 0xF015, 0xF018]);
    run(&mut cpu, 3);
    cpu.elapse(16_666);
    assert_eq!(cpu.memory.delay, 10);
    cpu.elapse(1);
    assert_eq!(cpu.memory.delay, 9);
    assert_eq!(cpu.memory.sound, 9);
    cpu.elapse(50_000);
    assert_eq!(cpu.memory.delay, 6);
}

#[test]
fn draw_twice_restores_the_screen() {
    let mut cpu = load(&[0x6000, 0x6100, 0xF029, 0xD015, 0xD015]);
    run(&mut cpu, 4);
    assert_eq!(cpu.memory.reg[15], 0);
    assert_eq!(lit_pixels(&cpu), 14);
    assert!(cpu.pixel(0, 0));
    assert!(cpu.pixel(3, 0));
    assert!(!cpu.pixel(1, 1));
    run(&mut cpu, 1);
    assert_eq!(cpu.memory.reg[15], 1);
    assert_eq!(lit_pixels(&cpu), 0);
}

#[test]
fn draw_clips_at_the_edges() {
    let mut cpu = load(&[0x603E, 0x611E, 0x6200, 0xF229, 0xD015]);
    run(&mut cpu, 5);
    assert!(cpu.pixel(62, 30));
    assert!(cpu.pixel(63, 30));
    assert!(cpu.pixel(62, 31));
    assert!(!cpu.pixel(0, 30));
    assert!(!cpu.pixel(0, 0));
    assert!(!cpu.pixel(63, 31));
    assert!(!cpu.pixel(64, 30));
    assert_eq!(lit_pixels(&cpu), 3);
}

#[test]
fn clear_screen() {
    let mut cpu = load(&[0xF029, 0xD005, 0x00E0]);
    run(&mut cpu, 2);
    assert!(lit_pixels(&cpu) > 0);
    run(&mut cpu, 1);
    assert_eq!(lit_pixels(&cpu), 0);
}

#[test]
fn key_skips() {
    let mut cpu = load(&[0x6003, 0xE09E, 0x0000, 0xE0A1, 0x0000]);
    cpu.set_key(3, true);
    run(&mut cpu, 2);
    assert_eq!(cpu.memory.pc, 0x206);
    run(&mut cpu, 1);
    assert_eq!(cpu.memory.pc, 0x208);
    let mut cpu = load(&[0x6011, 0xE0A1]);
    run(&mut cpu, 2);
    assert_eq!(cpu.memory.pc, 0x206);
}

#[test]
fn wait_key_stalls_until_a_key_is_pressed() {
    let mut cpu = load(&[0xF20A]);
    run(&mut cpu, 3);
    assert_eq!(cpu.memory.pc, 0x200);
    cpu.set_key(9, true);
    cpu.set_key(7, true);
    cpu.set_key(20, true);
    run(&mut cpu, 1);
    assert_eq!(cpu.memory.reg[2], 7);
    assert_eq!(cpu.memory.pc, 0x202);
}

#[test]
fn random_byte_is_masked() {
    let mut cpu = load(&[0xC000, 0xC10F]);
    run(&mut cpu, 2);
    assert_eq!(cpu.memory.reg[0], 0);
    assert!(cpu.memory.reg[1] <= 0x0F);
}

#[test]
fn apply_masks_the_given_byte() {
    let mut cpu = load(&[0xC3F0]);
    cpu.fetch().unwrap();
    cpu.decode().unwrap();
    assert_eq!(cpu.opcode.kind, Some(OpcodeTypes::RNDVxbyte));
    cpu.apply(0xAB).unwrap();
    assert_eq!(cpu.memory.reg[3], 0xA0);
    assert_eq!(cpu.memory.pc, 0x200);
}

#[test]
fn execute_without_decode_fails() {
    let mut cpu = load(&[0x6001]);
    cpu.fetch().unwrap();
    assert_eq!(cpu.execute(), Err(CpuError::Decode { word: 0x6001, pc: 0x200 }));
}

#[test]
fn reset_clears_state_and_is_idempotent() {
    let mut cpu = load(&[0x6005, 0xF015, 0xF018, 0xF029, 0xD005, 0x2300]);
    run(&mut cpu, 6);
    assert_eq!(cpu.memory.sp, 1);
    cpu.reset();
    assert_eq!(cpu.memory.pc, 0x200);
    assert!(cpu.memory.reg.iter().all(|r| *r == 0));
    assert_eq!(cpu.memory.i, 0);
    assert_eq!(cpu.memory.sp, 0);
    assert_eq!(cpu.memory.delay, 0);
    assert_eq!(cpu.memory.sound, 0);
    assert_eq!(lit_pixels(&cpu), 0);
    let mem = cpu.memory.addr_mem.clone();
    cpu.reset();
    assert_eq!(cpu.memory.pc, 0x200);
    assert!(cpu.memory.reg.iter().all(|r| *r == 0));
    assert_eq!(cpu.memory.sp, 0);
    assert_eq!(cpu.memory.addr_mem, mem);
    assert_eq!(lit_pixels(&cpu), 0);
}

#[test]
fn idle_loop_is_detected() {
    let mut cpu = load(&[0x1202, 0x1202]);
    run(&mut cpu, 1);
    assert!(cpu.is_idle_loop());
    let mut cpu = load(&[0x1204, 0x0000, 0x6001]);
    run(&mut cpu, 1);
    assert!(!cpu.is_idle_loop());
}
