use mnes::addr_mode::absolute_x;
use mnes::addr_mode::absolute_y;
use mnes::addr_mode::indirect;
use mnes::addr_mode::indirect_y_indexed;
use mnes::addr_mode::is_cross_page;
use mnes::addr_mode::relative;
use mnes::addr_mode::x_indexed_indirect;
use mnes::addr_mode::zero_page_x;
use mnes::addr_mode::AddressingMode;
use mnes::bus::CPUBus;
use mnes::bus::IBus;
use mnes::cartridge::Cartridge;
use mnes::cpu::CpuError;
use mnes::cpu::InterruptVector;
use mnes::cpu::CPU;
use mnes::emulator::Emulator;
use mnes::instruction::Instruction;
use mnes::mapper::ConfigError;
use mnes::mapper::IMapper;
use mnes::mapper::Mapper0;
use mnes::opcode_table::decode;
use mnes::registers::Flags;

/// An image with one or two program banks (the first bytes given, the
/// vectors at the end set to `vector`) and one character bank.
fn image(prg_banks: u8, code: &[u8], vector: u16) -> Vec<u8> {
    let mut v = vec![0x4e, 0x45, 0x53, 0x1a, prg_banks, 1, 0, 0, 0, 0, 0, 0, 0, 0, 0, 0];
    let prg_len = prg_banks as usize * 0x4000;
    let mut prg = vec![0u8; prg_len];
    prg[..code.len()].copy_from_slice(code);
    for k in [prg_len - 6, prg_len - 4, prg_len - 2] {
        prg[k] = (vector & 0xff) as u8;
        prg[k + 1] = (vector >> 8) as u8;
    }
    v.extend_from_slice(&prg);
    v.extend(std::iter::repeat(0u8).take(0x2000));
    v
}

fn cpu_with(code: &[u8]) -> CPU {
    let cart = Cartridge::from_image(&image(1, code, 0x9000)).unwrap();
    let mapper = Mapper0::from(cart).unwrap();
    let mut bus = CPUBus::from();
    bus.set_mapper(mapper);
    let mut cpu = CPU::new(bus);
    cpu.regs.pc = 0x8000;
    cpu.regs.sp = 0xfd;
    cpu
}

#[test]
fn ram_is_mirrored_four_times() {
    let mut bus = CPUBus::from();
    bus.writeb(0x0005, 0x42);
    assert_eq!(bus.readb(0x0005), 0x42);
    assert_eq!(bus.readb(0x0805), 0x42);
    assert_eq!(bus.readb(0x1005), 0x42);
    assert_eq!(bus.readb(0x1805), 0x42);
    bus.writeb(0x1fff, 0x17);
    assert_eq!(bus.readb(0x07ff), 0x17);
}

#[test]
fn io_window_reads_zero_and_ignores_writes() {
    let mut bus = CPUBus::from();
    bus.writeb(0x2000, 0x99);
    assert_eq!(bus.readb(0x2000), 0);
    assert_eq!(bus.readb(0x4017), 0);
    assert_eq!(bus.readb(0x5fff), 0);
}

#[test]
fn word_access_is_little_endian_and_wraps() {
    let mut cpu = cpu_with(&[]);
    cpu.bus.writew(0x0010, 0xbeef);
    assert_eq!(cpu.bus.readb(0x0010), 0xef);
    assert_eq!(cpu.bus.readb(0x0011), 0xbe);
    assert_eq!(cpu.bus.readw(0x0010), 0xbeef);
    cpu.bus.writeb(0x0000, 0x12);
    // the high byte of a word at 0xFFFF comes from 0x0000
    assert_eq!(cpu.bus.readw(0xffff), 0x1290);
}

#[test]
fn page_cross_flag_absolute_x() {
    let mut cpu = cpu_with(&[0xff, 0x00, 0x00, 0x01]);
    cpu.regs.x = 1;
    let ad = absolute_x(&mut cpu);
    assert_eq!(ad.address, Some(0x0100));
    assert!(ad.cross_page);
    let ad = absolute_x(&mut cpu);
    assert_eq!(ad.address, Some(0x0101));
    assert!(!ad.cross_page);
    assert_eq!(cpu.regs.pc, 0x8004);
}

#[test]
fn page_cross_flag_absolute_y() {
    let mut cpu = cpu_with(&[0xff, 0x00, 0x00, 0x01]);
    cpu.regs.y = 1;
    assert!(absolute_y(&mut cpu).cross_page);
    assert!(!absolute_y(&mut cpu).cross_page);
}

#[test]
fn page_cross_flag_indirect_y_indexed() {
    let mut cpu = cpu_with(&[0x10, 0x20]);
    cpu.regs.y = 1;
    cpu.bus.writew(0x0010, 0x00ff);
    cpu.bus.writew(0x0020, 0x0100);
    let ad = indirect_y_indexed(&mut cpu);
    assert_eq!(ad.address, Some(0x0100));
    assert!(ad.cross_page);
    let ad = indirect_y_indexed(&mut cpu);
    assert_eq!(ad.address, Some(0x0101));
    assert!(!ad.cross_page);
    assert!(is_cross_page(0x00ff, 0x0100));
    assert!(!is_cross_page(0x0100, 0x0101));
}

#[test]
fn indirect_pointer_wraps_within_page() {
    let mut cpu = cpu_with(&[0xff, 0x02]);
    cpu.bus.writeb(0x02ff, 0x00);
    cpu.bus.writeb(0x0200, 0x02);
    cpu.bus.writeb(0x0300, 0x03);
    let ad = indirect(&mut cpu);
    assert_eq!(ad.address, Some(0x0200));
    assert_eq!(cpu.regs.pc, 0x8002);
}

#[test]
fn indirect_pointer_inside_page() {
    let mut cpu = cpu_with(&[0x10, 0x02]);
    cpu.bus.writew(0x0210, 0x1234);
    assert_eq!(indirect(&mut cpu).address, Some(0x1234));
}

#[test]
fn relative_offsets_are_signed() {
    let mut code = vec![0u8; 0x10];
    code[0x0f] = 0x80;
    let mut cpu = cpu_with(&code);
    cpu.regs.pc = 0x800f;
    assert_eq!(relative(&mut cpu).address, Some(0x7f90));
    assert_eq!(cpu.regs.pc, 0x8010);
    code[0x0f] = 0x7f;
    let mut cpu = cpu_with(&code);
    cpu.regs.pc = 0x800f;
    assert_eq!(relative(&mut cpu).address, Some(0x808f));
}

#[test]
fn zero_page_indexing_wraps() {
    let mut cpu = cpu_with(&[0xf0, 0xff]);
    cpu.regs.x = 0x20;
    assert_eq!(zero_page_x(&mut cpu).address, Some(0x0010));
    cpu.regs.x = 0;
    cpu.bus.writeb(0x00ff, 0x34);
    cpu.bus.writeb(0x0000, 0x12);
    assert_eq!(x_indexed_indirect(&mut cpu).address, Some(0x1234));
}

#[test]
fn sixteen_kib_program_is_mirrored() {
    let code: Vec<u8> = (0..0x4000u32).map(|i| (i * 7 % 251) as u8).collect();
    let cart = Cartridge::from_image(&image(1, &code, 0)).unwrap();
    let mapper = Mapper0::from(cart).unwrap();
    assert!(mapper.is_mirrored());
    for i in 0..0x4000u16 {
        assert_eq!(mapper.read(0x8000 + i), mapper.read(0xc000 + i));
    }
    assert_eq!(mapper.read(0x8001), 7);
}

#[test]
fn two_bank_program_is_not_mirrored() {
    let mut img = image(2, &[0x11], 0);
    img[16 + 0x4000] = 0x22;
    let mapper = Mapper0::from(Cartridge::from_image(&img).unwrap()).unwrap();
    assert!(!mapper.is_mirrored());
    assert_eq!(mapper.read(0x8000), 0x11);
    assert_eq!(mapper.read(0xc000), 0x22);
}

#[test]
fn mapper_writes_read_back() {
    let cart = Cartridge::from_image(&image(1, &[], 0)).unwrap();
    let mut mapper = Mapper0::from(cart).unwrap();
    mapper.write(0x6000, 0xaa);
    mapper.write(0x7fff, 0xbb);
    assert_eq!(mapper.read(0x6000), 0xaa);
    assert_eq!(mapper.read(0x7fff), 0xbb);
    mapper.write(0x9000, 0xcc);
    assert_eq!(mapper.read(0x9000), 0xcc);
    assert_eq!(mapper.read(0xd000), 0xcc);
    mapper.write(0x0123, 0xdd);
    assert_eq!(mapper.read(0x0123), 0xdd);
    mapper.write(0x5000, 0xee);
    assert_eq!(mapper.read(0x5000), 0);
}

#[test]
fn load_accumulator_immediate() {
    let mut cpu = cpu_with(&[0xa9, 0x05]);
    assert_eq!(cpu.execute(), Ok(2));
    assert_eq!(cpu.regs.a, 5);
    assert_eq!(cpu.regs.pc, 0x8002);
    assert!(!cpu.regs.get_flag(Flags::Z));
    assert!(!cpu.regs.get_flag(Flags::N));
}

#[test]
fn load_accumulator_zero_sets_zero_flag() {
    let mut cpu = cpu_with(&[0xa9, 0x00]);
    assert_eq!(cpu.execute(), Ok(2));
    assert!(cpu.regs.get_flag(Flags::Z));
    assert!(!cpu.regs.get_flag(Flags::N));
}

#[test]
fn undefined_opcode_is_an_error() {
    let mut cpu = cpu_with(&[0x02]);
    assert_eq!(cpu.execute(), Err(CpuError::UndefinedOpcode { opcode: 0x02, address: 0x8000 }));
    assert_eq!(cpu.regs.pc, 0x8000);
}

#[test]
fn add_with_carry_sets_overflow() {
    // LDA #$50; ADC #$50
    let mut cpu = cpu_with(&[0xa9, 0x50, 0x69, 0x50]);
    cpu.execute().unwrap();
    assert_eq!(cpu.execute(), Ok(2));
    assert_eq!(cpu.regs.a, 0xa0);
    assert!(cpu.regs.get_flag(Flags::V));
    assert!(cpu.regs.get_flag(Flags::N));
    assert!(!cpu.regs.get_flag(Flags::C));
}

#[test]
fn subtract_with_borrow() {
    // SEC; LDA #$05; SBC #$06
    let mut cpu = cpu_with(&[0x38, 0xa9, 0x05, 0xe9, 0x06]);
    cpu.execute().unwrap();
    cpu.execute().unwrap();
    cpu.execute().unwrap();
    assert_eq!(cpu.regs.a, 0xff);
    assert!(!cpu.regs.get_flag(Flags::C));
    assert!(cpu.regs.get_flag(Flags::N));
}

#[test]
fn page_cross_costs_a_cycle() {
    // LDX #$01; LDA $00FF,X
    let mut cpu = cpu_with(&[0xa2, 0x01, 0xbd, 0xff, 0x00]);
    cpu.bus.writeb(0x0100, 0x77);
    cpu.execute().unwrap();
    assert_eq!(cpu.execute(), Ok(5));
    assert_eq!(cpu.regs.a, 0x77);
}

#[test]
fn taken_branch_costs_cycles() {
    // LDA #$00; BEQ +2 (taken); BNE +0 (not taken)
    let mut cpu = cpu_with(&[0xa9, 0x00, 0xf0, 0x02, 0x00, 0x00, 0xd0, 0x00]);
    cpu.execute().unwrap();
    assert_eq!(cpu.execute(), Ok(3));
    assert_eq!(cpu.regs.pc, 0x8006);
    assert_eq!(cpu.execute(), Ok(2));
    assert_eq!(cpu.regs.pc, 0x8008);
}

#[test]
fn subroutine_call_and_return() {
    // JSR $8005; (8003) NOP; NOP; (8005) RTS
    let mut cpu = cpu_with(&[0x20, 0x05, 0x80, 0xea, 0xea, 0x60]);
    assert_eq!(cpu.execute(), Ok(6));
    assert_eq!(cpu.regs.pc, 0x8005);
    assert_eq!(cpu.regs.sp, 0xfb);
    assert_eq!(cpu.bus.readb(0x01fd), 0x80);
    assert_eq!(cpu.bus.readb(0x01fc), 0x02);
    assert_eq!(cpu.execute(), Ok(6));
    assert_eq!(cpu.regs.pc, 0x8003);
    assert_eq!(cpu.regs.sp, 0xfd);
}

#[test]
fn break_and_return_from_interrupt() {
    // BRK at 0x8000, handler at 0x9000 holds RTI
    let mut code = vec![0u8; 0x1001];
    code[0] = 0x00;
    code[0x1000] = 0x40;
    let mut cpu = cpu_with(&code);
    cpu.regs.set_flag(Flags::C, true);
    assert_eq!(cpu.execute(), Ok(7));
    assert_eq!(cpu.regs.pc, 0x9000);
    assert!(cpu.regs.get_flag(Flags::I));
    assert_eq!(cpu.bus.readb(0x01fb), 0x31);
    assert_eq!(cpu.regs.p & 0x30, 0);
    assert_eq!(cpu.execute(), Ok(6));
    assert_eq!(cpu.regs.pc, 0x8002);
    assert!(!cpu.regs.get_flag(Flags::I));
    assert!(cpu.regs.get_flag(Flags::C));
    assert_eq!(cpu.regs.p & 0x30, 0);
}

#[test]
fn push_status_sets_break_and_unused() {
    // PHP; PLA
    let mut cpu = cpu_with(&[0x08, 0x68]);
    assert_eq!(cpu.execute(), Ok(3));
    assert_eq!(cpu.execute(), Ok(4));
    assert_eq!(cpu.regs.a, 0x30);
}

#[test]
fn stack_pointer_wraps() {
    // PHA with SP at 0
    let mut cpu = cpu_with(&[0x48]);
    cpu.regs.sp = 0;
    cpu.regs.a = 0x5a;
    cpu.execute().unwrap();
    assert_eq!(cpu.regs.sp, 0xff);
    assert_eq!(cpu.bus.readb(0x0100), 0x5a);
}

#[test]
fn nmi_is_never_masked() {
    let mut cpu = cpu_with(&[]);
    cpu.regs.set_flag(Flags::I, true);
    assert_eq!(cpu.interrupt(InterruptVector::NMI), 7);
    assert_eq!(cpu.regs.pc, 0x9000);
    assert_eq!(cpu.bus.readb(0x01fd), 0x80);
    assert_eq!(cpu.bus.readb(0x01fc), 0x00);
    assert_eq!(cpu.bus.readb(0x01fb), 0x24);
}

#[test]
fn irq_is_masked_by_interrupt_disable() {
    let mut cpu = cpu_with(&[]);
    cpu.regs.set_flag(Flags::I, true);
    assert_eq!(cpu.interrupt(InterruptVector::IRQ), 0);
    assert_eq!(cpu.regs.pc, 0x8000);
    cpu.regs.set_flag(Flags::I, false);
    assert_eq!(cpu.interrupt(InterruptVector::IRQ), 7);
    assert_eq!(cpu.regs.pc, 0x9000);
    assert_eq!(cpu.bus.readb(0x01fb), 0x20);
}

#[test]
fn shifts_and_rotates() {
    // LDA #$81; ASL A; ROL A; LSR A; ROR A
    let mut cpu = cpu_with(&[0xa9, 0x81, 0x0a, 0x2a, 0x4a, 0x6a]);
    cpu.execute().unwrap();
    cpu.execute().unwrap();
    assert_eq!(cpu.regs.a, 0x02);
    assert!(cpu.regs.get_flag(Flags::C));
    cpu.execute().unwrap();
    assert_eq!(cpu.regs.a, 0x05);
    assert!(!cpu.regs.get_flag(Flags::C));
    cpu.execute().unwrap();
    assert_eq!(cpu.regs.a, 0x02);
    assert!(cpu.regs.get_flag(Flags::C));
    cpu.execute().unwrap();
    assert_eq!(cpu.regs.a, 0x81);
    assert!(cpu.regs.get_flag(Flags::N));
}

#[test]
fn compare_and_illegal_dcp() {
    // LDA #$10; CMP #$10; DCP $20
    let mut cpu = cpu_with(&[0xa9, 0x10, 0xc9, 0x10, 0xc7, 0x20]);
    cpu.bus.writeb(0x0020, 0x11);
    cpu.execute().unwrap();
    cpu.execute().unwrap();
    assert!(cpu.regs.get_flag(Flags::Z));
    assert!(cpu.regs.get_flag(Flags::C));
    assert_eq!(cpu.execute(), Ok(5));
    assert_eq!(cpu.bus.readb(0x0020), 0x10);
    assert!(cpu.regs.get_flag(Flags::Z));
}

#[test]
fn decode_table_entries() {
    let d = decode(0xa9).unwrap();
    assert_eq!(d.instruction, Instruction::LDA);
    assert_eq!(d.mode, AddressingMode::Immediate);
    assert_eq!(d.cycles, 2);
    let d = decode(0x6c).unwrap();
    assert_eq!(d.instruction, Instruction::JMP);
    assert_eq!(d.mode, AddressingMode::Indirect);
    assert_eq!(d.cycles, 5);
    assert!(decode(0x02).is_none());
    assert_eq!((0..=255u8).filter(|&b| decode(b).is_some()).count(), 203);
}

#[test]
fn header_fields_are_read() {
    let mut img = image(1, &[], 0);
    img[6] = 0x14;
    img[7] = 0x28;
    let rom = mnes::cartridge::Rom::from(&img);
    // the trainer flag makes the image 512 bytes short
    assert!(rom.is_none());
    img.extend(std::iter::repeat(0u8).take(512));
    let rom = mnes::cartridge::Rom::from(&img).unwrap();
    assert_eq!(rom.get_mapperno(), 0x21);
    assert!(rom.header.trainer);
    assert!(rom.header.ines);
    assert!(rom.header.nes20);
    assert!(rom.is_mirrored());
    assert_eq!(rom.get_prg().len(), 0x4000);
    assert_eq!(rom.get_chr().len(), 0x2000);
}

#[test]
fn short_image_is_rejected() {
    assert!(Cartridge::from_image(&[0x4e, 0x45, 0x53]).is_none());
    let img = image(1, &[], 0);
    assert!(Cartridge::from_image(&img[..img.len() - 1]).is_none());
    let cart = Cartridge::from_image(&img).unwrap();
    assert_eq!(cart.sram.len(), 0x2000);
    assert_eq!(cart.vram.len(), 0x800);
}

#[test]
fn mapper_configuration_errors() {
    let mut img = image(1, &[], 0);
    img[5] = 0;
    img.truncate(16 + 0x4000);
    let cart = Cartridge::from_image(&img).unwrap();
    assert!(matches!(Mapper0::from(cart), Err(ConfigError::ChrSize)));
    let mut img = image(1, &[], 0);
    img[6] = 0x10;
    let cart = Cartridge::from_image(&img).unwrap();
    assert!(matches!(Emulator::new(cart), Err(ConfigError::UnsupportedMapper(1))));
    let mut cart = Cartridge::from_image(&image(1, &[], 0)).unwrap();
    cart.sram.truncate(10);
    assert!(matches!(Mapper0::from(cart), Err(ConfigError::SramSize)));
    let mut cart = Cartridge::from_image(&image(1, &[], 0)).unwrap();
    cart.rom.prg.truncate(0x2000);
    assert!(matches!(Mapper0::from(cart), Err(ConfigError::PrgSize)));
}

#[test]
fn emulator_resets_and_clocks() {
    // reset vector points at 0x9000, which holds LDA #$05
    let mut code = vec![0u8; 0x1002];
    code[0x1000] = 0xa9;
    code[0x1001] = 0x05;
    let cart = Cartridge::from_image(&image(1, &code, 0x9000)).unwrap();
    let mut emu = Emulator::new(cart).unwrap();
    assert_eq!(emu.reset(), 7);
    assert_eq!(emu.cpu.regs.pc, 0x9000);
    assert_eq!(emu.clock(), Ok(2));
    assert_eq!(emu.cpu.regs.a, 5);
}

#[test]
fn save_ram_round_trip_through_bus() {
    let mut cpu = cpu_with(&[]);
    for a in [0x6000u16, 0x6abc, 0x7fff] {
        cpu.bus.writeb(a, (a >> 4) as u8);
        assert_eq!(cpu.bus.readb(a), (a >> 4) as u8);
    }
    cpu.bus.writeb(0x8010, 0x3c);
    assert_eq!(cpu.bus.readb(0x8010), 0x3c);
    assert_eq!(cpu.bus.readb(0xc010), 0x3c);
}

#[test]
fn load_negative_sets_negative_flag() {
    let mut cpu = cpu_with(&[0xa9, 0x80]);
    assert_eq!(cpu.execute(), Ok(2));
    assert_eq!(cpu.regs.a, 0x80);
    assert!(cpu.regs.get_flag(Flags::N));
    assert!(!cpu.regs.get_flag(Flags::Z));
}

#[test]
fn illegal_slo_shifts_then_ors() {
    // LDA #$01; SLO $10 with [$10] = $C0
    let mut cpu = cpu_with(&[0xa9, 0x01, 0x07, 0x10]);
    cpu.bus.writeb(0x0010, 0xc0);
    cpu.execute().unwrap();
    assert_eq!(cpu.execute(), Ok(5));
    assert_eq!(cpu.bus.readb(0x0010), 0x80);
    assert_eq!(cpu.regs.a, 0x81);
    assert!(cpu.regs.get_flag(Flags::C));
    assert!(cpu.regs.get_flag(Flags::N));
}

#[test]
fn store_and_transfer() {
    // LDX #$33; TXA; STA $0200; INX; TXS
    let mut cpu = cpu_with(&[0xa2, 0x33, 0x8a, 0x8d, 0x00, 0x02, 0xe8, 0x9a]);
    assert_eq!(cpu.execute(), Ok(2));
    assert_eq!(cpu.execute(), Ok(2));
    assert_eq!(cpu.execute(), Ok(4));
    assert_eq!(cpu.bus.readb(0x0200), 0x33);
    assert_eq!(cpu.bus.readb(0x0a00), 0x33);
    cpu.execute().unwrap();
    cpu.execute().unwrap();
    assert_eq!(cpu.regs.sp, 0x34);
}
