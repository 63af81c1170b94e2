use rusted_nes::memory::hooks::MemoryEvent;
use rusted_nes::memory::hooks::MemoryOperation;
use rusted_nes::memory::MemoryMirror;
use rusted_nes::memory::MemoryRegion;
use rusted_nes::memory::WriteProtectedRegion;
use rusted_nes::memory::MEM;
use rusted_nes::memory::MEMORY_SIZE;
use rusted_nes::pixel_processor::PPU;
use rusted_nes::processor::CpuError;
use rusted_nes::processor::MemoryMode;
use rusted_nes::processor::Opcodes;
use rusted_nes::processor::CPU;

fn machine_at(pc: u16, program: &[u8]) -> (CPU, MEM) {
    let mut cpu = CPU::new();
    let mut memory = MEM::new(MEMORY_SIZE);
    memory.write_bulk(pc as usize, program.to_vec());
    cpu.PC = pc;
    (cpu, memory)
}

#[test]
fn new_processor_is_zeroed() {
    let cpu = CPU::new();
    assert_eq!((cpu.PC, cpu.A, cpu.X, cpu.Y, cpu.S), (0, 0, 0, 0, 0));
    assert_eq!((cpu.N, cpu.V, cpu.B, cpu.D, cpu.I, cpu.Z, cpu.C), (false, false, false, false, false, false, false));
    assert_eq!(cpu.executed_opcodes, 0);
}

#[test]
fn power_on_reads_the_reset_vector() {
    let mut cpu = CPU::new();
    let mut memory = MEM::new(MEMORY_SIZE);
    memory.write_bulk(0xFFFC, vec![0x34, 0x12]);

    cpu.power_on(&mut memory, None);

    assert_eq!(cpu.PC, 0x1234);
    assert_eq!(cpu.S, 0xFD);
    assert_eq!(cpu.I, true);
}

#[test]
fn power_on_with_entry_point() {
    let mut cpu = CPU::new();
    let mut memory = MEM::new(MEMORY_SIZE);
    memory.write_bulk(0xFFFC, vec![0x34, 0x12]);

    cpu.power_on(&mut memory, Some(0xC000));

    assert_eq!(cpu.PC, 0xC000);
    assert_eq!(cpu.S, 0xFD);
    assert_eq!(cpu.I, true);
}

#[test]
fn vectors() {
    let mut cpu = CPU::new();
    let mut memory = MEM::new(MEMORY_SIZE);
    memory.write_bulk(0xFFFA, vec![0x11, 0x22, 0x33, 0x44, 0x55, 0x66]);

    cpu.nmi(&mut memory);
    assert_eq!(cpu.PC, 0x2211);
    cpu.reset(&mut memory);
    assert_eq!(cpu.PC, 0x4433);
    cpu.irq_brk(&mut memory);
    assert_eq!(cpu.PC, 0x6655);
    assert_eq!(cpu.S, 0x00);
}

#[test]
fn lda_immediate_loads_and_flags() {
    let (mut cpu, mut memory) = machine_at(0xC000, &[0xA9, 0x80]);

    assert_eq!(cpu.execute(&mut memory), Ok(()));

    assert_eq!(cpu.A, 0x80);
    assert_eq!(cpu.N, true);
    assert_eq!(cpu.Z, false);
    assert_eq!(cpu.PC, 0xC002);
    assert_eq!(cpu.executed_opcodes, 1);
}

#[test]
fn lda_zero_page_x_wraps() {
    let (mut cpu, mut memory) = machine_at(0xC000, &[0xB5, 0xF5]);
    memory.write(0x0005, 0x42);
    cpu.X = 0x10;

    assert_eq!(cpu.execute(&mut memory), Ok(()));

    assert_eq!(cpu.A, 0x42);
    assert_eq!(cpu.PC, 0xC002);
}

#[test]
fn adc_overflows_into_the_sign() {
    let (mut cpu, mut memory) = machine_at(0xC000, &[0x69, 0x01]);
    cpu.A = 0x7F;
    cpu.C = false;

    assert_eq!(cpu.execute(&mut memory), Ok(()));

    assert_eq!(cpu.A, 0x80);
    assert_eq!(cpu.C, false);
    assert_eq!(cpu.V, true);
    assert_eq!(cpu.N, true);
    assert_eq!(cpu.Z, false);
}

#[test]
fn jsr_then_rts() {
    let (mut cpu, mut memory) = machine_at(0xC000, &[0x20, 0x00, 0xD0]);
    memory.write(0xD000, 0x60);
    cpu.S = 0xFD;

    assert_eq!(cpu.execute(&mut memory), Ok(()));
    assert_eq!(cpu.PC, 0xD000);
    assert_eq!(memory.data[0x01FC], 0x02);
    assert_eq!(memory.data[0x01FD], 0xC0);
    assert_eq!(cpu.S, 0xFB);

    assert_eq!(cpu.execute(&mut memory), Ok(()));
    assert_eq!(cpu.PC, 0xC003);
    assert_eq!(cpu.S, 0xFD);
}

#[test]
fn status_read_is_seen_by_the_picture_processor() {
    let (mut cpu, mut memory) = machine_at(0xC000, &[0xAD, 0x02, 0x20]);
    let sink = memory.open_channel();
    memory.push_hook(
        MemoryOperation::Read,
        MemoryRegion { region_address: 0x2002, region_size: 1 },
        sink,
    );
    let mut ppu = PPU::new(MEM::new(0x4000));
    ppu.w = true;
    assert_eq!(memory.data[0x2002], 0x00);

    PPU::set_vblank(&mut memory);
    assert_eq!(memory.data[0x2002], 0x80);
    assert_eq!(cpu.execute(&mut memory), Ok(()));
    assert_eq!(cpu.A, 0x80);
    assert_eq!(memory.channels[sink].len(), 1);

    ppu.process_memory_events(&mut memory, sink);

    assert_eq!(memory.data[0x2002], 0x00);
    assert_eq!(ppu.w, false);
    assert_eq!(memory.channels[sink].len(), 0);
}

#[test]
fn read_through_the_register_mirror() {
    let mut memory = MEM::new(MEMORY_SIZE);
    memory.push_mirrored_range(MemoryMirror {
        physical_memory: MemoryRegion { region_address: 0x2000, region_size: 0x0008 },
        mirrored_memory: MemoryRegion { region_address: 0x2008, region_size: 0x1FF8 },
    }).unwrap();

    memory.write(0x2000, 0x42);

    assert_eq!(memory.read(0x2008, 1), 0x42);
    assert_eq!(memory.read(0x2000, 1), 0x42);
}

#[test]
fn zero_page_indexed_wraps_in_the_zero_page() {
    let (mut cpu, mut memory) = machine_at(0xC000, &[0xB5, 0xFF]);
    memory.write(0x0000, 0x11);
    memory.write(0x0100, 0x22);
    cpu.X = 1;

    cpu.execute_lda(MemoryMode::ZeroPageX, &mut memory);

    assert_eq!(cpu.A, 0x11);
}

#[test]
fn absolute_indexed_wraps_at_the_top_of_memory() {
    let (mut cpu, mut memory) = machine_at(0xC000, &[0xB9, 0xFF, 0xFF]);
    memory.write(0x0000, 0x33);
    cpu.Y = 1;

    cpu.execute_lda(MemoryMode::AbsoluteY, &mut memory);

    assert_eq!(cpu.A, 0x33);
    assert_eq!(cpu.PC, 0xC003);
}

#[test]
fn operands_wrap_at_the_top_of_memory() {
    let (mut cpu, mut memory) = machine_at(0xFFFF, &[0xA9]);
    memory.write(0x0000, 0x77);

    assert_eq!(cpu.execute(&mut memory), Ok(()));

    assert_eq!(cpu.A, 0x77);
    assert_eq!(cpu.PC, 0x0001);
}

#[test]
fn indirect_jump_does_not_cross_the_page() {
    let (mut cpu, mut memory) = machine_at(0xC000, &[0x6C, 0xFF, 0x02]);
    memory.write(0x02FF, 0x34);
    memory.write(0x0200, 0x12);
    memory.write(0x0300, 0x56);

    assert_eq!(cpu.execute(&mut memory), Ok(()));

    assert_eq!(cpu.PC, 0x1234);
}

#[test]
fn indirect_jump_inside_a_page() {
    let (mut cpu, mut memory) = machine_at(0xC000, &[0x6C, 0x10, 0x02]);
    memory.write(0x0210, 0x34);
    memory.write(0x0211, 0x12);

    assert_eq!(cpu.execute(&mut memory), Ok(()));

    assert_eq!(cpu.PC, 0x1234);
}

#[test]
fn jump_absolute() {
    for (low_byte, high_byte) in [(0x00u8, 0x00u8), (0x34, 0x12), (0xFF, 0xFF), (0x00, 0x80)] {
        let (mut cpu, mut memory) = machine_at(0x0000, &[0x4C, low_byte, high_byte]);

        cpu.execute_jmp(MemoryMode::Absolute, &mut memory);

        assert_eq!(cpu.PC, ((high_byte as u16) << 8) + low_byte as u16);
    }
}

#[test]
fn branch_backwards_by_128() {
    let (mut cpu, mut memory) = machine_at(0xC000, &[0xD0, 0x80]);
    cpu.Z = false;

    assert_eq!(cpu.execute(&mut memory), Ok(()));

    assert_eq!(cpu.PC, 0xC000 + 2 - 128);
}

#[test]
fn branches_follow_their_flags() {
    let cases: [(u8, fn(&mut CPU, bool)); 4] = [
        (0x90, |cpu, taken| cpu.C = !taken),
        (0xF0, |cpu, taken| cpu.Z = taken),
        (0x30, |cpu, taken| cpu.N = taken),
        (0x50, |cpu, taken| cpu.V = !taken),
    ];
    for (opcode, set) in cases {
        for taken in [false, true] {
            let (mut cpu, mut memory) = machine_at(0x8000, &[opcode, 0x10]);
            set(&mut cpu, taken);
            assert_eq!(cpu.execute(&mut memory), Ok(()));
            assert_eq!(cpu.PC, if taken { 0x8012 } else { 0x8002 });
        }
    }
    let inverse: [(u8, fn(&mut CPU, bool)); 4] = [
        (0xB0, |cpu, taken| cpu.C = taken),
        (0xD0, |cpu, taken| cpu.Z = !taken),
        (0x10, |cpu, taken| cpu.N = !taken),
        (0x70, |cpu, taken| cpu.V = taken),
    ];
    for (opcode, set) in inverse {
        for taken in [false, true] {
            let (mut cpu, mut memory) = machine_at(0x8000, &[opcode, 0xFE]);
            set(&mut cpu, taken);
            assert_eq!(cpu.execute(&mut memory), Ok(()));
            assert_eq!(cpu.PC, if taken { 0x8000 } else { 0x8002 });
        }
    }
}

#[test]
fn unknown_opcode_stops_the_processor() {
    let (mut cpu, mut memory) = machine_at(0xC000, &[0x02]);
    let before = cpu;

    assert_eq!(
        cpu.execute(&mut memory),
        Err(CpuError::UnknownOpcode { opcode: 0x02, pc: 0xC000 })
    );

    assert_eq!(cpu, before);
    assert_eq!(memory.data[0xC000], 0x02);
}

#[test]
fn decoder_accepts_the_documented_opcodes() {
    let mut cpu = CPU::new();
    let accepted = (0..=255u8).filter(|byte| cpu.from(*byte).is_ok()).count();
    assert_eq!(accepted, 151);
    assert_eq!(cpu.from(0xA9), Ok(Opcodes::LDA(MemoryMode::Immediate)));
    assert_eq!(cpu.from(0x6C), Ok(Opcodes::JMP(MemoryMode::Indirect)));
    assert_eq!(cpu.from(0x0A), Ok(Opcodes::ASL(MemoryMode::Acc)));
    assert_eq!(cpu.from(0x96), Ok(Opcodes::STX(MemoryMode::ZeroPageY)));
    assert_eq!(cpu.from(0x00), Ok(Opcodes::BRK(MemoryMode::Implicit)));
    assert_eq!(cpu.from(0xFF), Err(()));
    assert_eq!(cpu.from(0x80), Err(()));
}

fn length_of(mode: MemoryMode) -> u16 {
    match mode {
        MemoryMode::Implicit | MemoryMode::Acc => 1,
        MemoryMode::Absolute
        | MemoryMode::AbsoluteX
        | MemoryMode::AbsoluteY
        | MemoryMode::Indirect => 3,
        _ => 2,
    }
}

fn straight_line(opcode: Opcodes) -> Option<MemoryMode> {
    match opcode {
        Opcodes::JMP(_)
        | Opcodes::JSR(_)
        | Opcodes::RTS(_)
        | Opcodes::RTI(_)
        | Opcodes::BRK(_)
        | Opcodes::BCC(_)
        | Opcodes::BCS(_)
        | Opcodes::BEQ(_)
        | Opcodes::BNE(_)
        | Opcodes::BMI(_)
        | Opcodes::BPL(_)
        | Opcodes::BVC(_)
        | Opcodes::BVS(_) => None,
        Opcodes::ADC(m)
        | Opcodes::AND(m)
        | Opcodes::ASL(m)
        | Opcodes::BIT(m)
        | Opcodes::CLC(m)
        | Opcodes::CLD(m)
        | Opcodes::CLI(m)
        | Opcodes::CLV(m)
        | Opcodes::CMP(m)
        | Opcodes::CPX(m)
        | Opcodes::CPY(m)
        | Opcodes::DEC(m)
        | Opcodes::DEX(m)
        | Opcodes::DEY(m)
        | Opcodes::EOR(m)
        | Opcodes::INC(m)
        | Opcodes::INX(m)
        | Opcodes::INY(m)
        | Opcodes::LDA(m)
        | Opcodes::LDX(m)
        | Opcodes::LDY(m)
        | Opcodes::LSR(m)
        | Opcodes::NOP(m)
        | Opcodes::ORA(m)
        | Opcodes::PHA(m)
        | Opcodes::PHP(m)
        | Opcodes::PLA(m)
        | Opcodes::PLP(m)
        | Opcodes::ROL(m)
        | Opcodes::ROR(m)
        | Opcodes::SBC(m)
        | Opcodes::SEC(m)
        | Opcodes::SED(m)
        | Opcodes::SEI(m)
        | Opcodes::STA(m)
        | Opcodes::STX(m)
        | Opcodes::STY(m)
        | Opcodes::TAX(m)
        | Opcodes::TAY(m)
        | Opcodes::TSX(m)
        | Opcodes::TXA(m)
        | Opcodes::TXS(m)
        | Opcodes::TYA(m) => Some(m),
    }
}

#[test]
fn every_instruction_advances_by_its_length() {
    let mut decoder = CPU::new();
    let mut checked = 0;
    for byte in 0..=255u8 {
        let mode = match decoder.from(byte) {
            Ok(opcode) => match straight_line(opcode) {
                Some(mode) => mode,
                None => continue,
            },
            Err(()) => continue,
        };
        let (mut cpu, mut memory) = machine_at(0x4000, &[byte, 0x21, 0x43]);
        assert_eq!(cpu.execute(&mut memory), Ok(()));
        assert_eq!(cpu.PC, 0x4000 + length_of(mode), "opcode {byte:#04X}");
        checked += 1;
    }
    assert_eq!(checked, 151 - 14);
}

#[test]
fn push_then_pull_returns_the_byte() {
    for s in [0x00u8, 0x01, 0x7F, 0xFD, 0xFF] {
        let mut cpu = CPU::new();
        let mut memory = MEM::new(MEMORY_SIZE);
        cpu.S = s;

        cpu.push_stack(0xA5, &mut memory);

        assert_eq!(memory.data[0x0100 + s as usize], 0xA5);
        assert_eq!(cpu.S, s.wrapping_sub(1));
        assert_eq!(cpu.pull_stack(&mut memory), 0xA5);
        assert_eq!(cpu.S, s);
    }
}

#[test]
fn stack_respects_write_protection() {
    let mut cpu = CPU::new();
    let mut memory = MEM::new(MEMORY_SIZE);
    memory.push_write_protected_region(WriteProtectedRegion {
        protected_memory: MemoryRegion { region_address: 0x0100, region_size: 0x0100 },
    });
    cpu.S = 0xFD;

    cpu.push_stack(0xA5, &mut memory);

    assert_eq!(cpu.pull_stack(&mut memory), 0x00);
}

#[test]
fn status_byte_layout() {
    let mut cpu = CPU::new();
    assert_eq!(cpu.store_status(), 0b0010_0000);
    cpu.C = true;
    assert_eq!(cpu.store_status(), 0b0010_0001);
    cpu.Z = true;
    assert_eq!(cpu.store_status(), 0b0010_0011);
    cpu.I = true;
    assert_eq!(cpu.store_status(), 0b0010_0111);
    cpu.D = true;
    assert_eq!(cpu.store_status(), 0b0010_1111);
    cpu.B = true;
    assert_eq!(cpu.store_status(), 0b0011_1111);
    cpu.V = true;
    assert_eq!(cpu.store_status(), 0b0111_1111);
    cpu.N = true;
    assert_eq!(cpu.store_status(), 0b1111_1111);
}

#[test]
fn status_round_trip_keeps_b() {
    for status in 0..=255u8 {
        for b in [false, true] {
            let mut cpu = CPU::new();
            cpu.B = b;
            cpu.load_status(status);
            assert_eq!(cpu.B, b);
            assert_eq!(cpu.C, status & 0x01 != 0);
            assert_eq!(cpu.Z, status & 0x02 != 0);
            assert_eq!(cpu.I, status & 0x04 != 0);
            assert_eq!(cpu.D, status & 0x08 != 0);
            assert_eq!(cpu.V, status & 0x40 != 0);
            assert_eq!(cpu.N, status & 0x80 != 0);
            let stored = cpu.store_status();
            assert_eq!(stored & 0b1100_1111, status & 0b1100_1111);
            assert_eq!(stored & 0b0010_0000, 0b0010_0000);
            assert_eq!(stored & 0b0001_0000 != 0, b);
        }
    }
}

#[test]
fn php_sets_bits_4_and_5_and_plp_ignores_them() {
    let (mut cpu, mut memory) = machine_at(0x8000, &[0x08, 0x28]);
    cpu.S = 0xFF;
    cpu.C = true;
    cpu.N = true;

    assert_eq!(cpu.execute(&mut memory), Ok(()));
    assert_eq!(memory.data[0x01FF], 0b1011_0001);
    assert_eq!(cpu.B, false);

    cpu.C = false;
    cpu.N = false;
    memory.data[0x01FF] = 0b1111_1111;
    assert_eq!(cpu.execute(&mut memory), Ok(()));
    assert_eq!((cpu.C, cpu.Z, cpu.I, cpu.D, cpu.V, cpu.N), (true, true, true, true, true, true));
    assert_eq!(cpu.B, false);
    assert_eq!(cpu.S, 0xFF);
    assert_eq!(cpu.PC, 0x8002);
}

#[test]
fn brk_and_rti() {
    let (mut cpu, mut memory) = machine_at(0x8000, &[0x00]);
    memory.write_bulk(0xFFFE, vec![0x00, 0x90]);
    memory.write(0x9000, 0x40);
    cpu.S = 0xFF;
    cpu.C = true;

    assert_eq!(cpu.execute(&mut memory), Ok(()));
    assert_eq!(cpu.PC, 0x9000);
    assert_eq!(cpu.I, true);
    assert_eq!(cpu.S, 0xFC);
    assert_eq!(memory.data[0x01FF], 0x80);
    assert_eq!(memory.data[0x01FE], 0x02);
    assert_eq!(memory.data[0x01FD], 0b0011_0001);

    cpu.C = false;
    assert_eq!(cpu.execute(&mut memory), Ok(()));
    assert_eq!(cpu.PC, 0x8002);
    assert_eq!(cpu.S, 0xFF);
    assert_eq!(cpu.C, true);
    assert_eq!(cpu.I, false);
}

#[test]
fn flag_instructions() {
    let (mut cpu, mut memory) = machine_at(0x8000, &[0x38, 0x78, 0xF8, 0x18, 0x58, 0xD8, 0xB8, 0xEA]);
    cpu.V = true;
    assert_eq!(cpu.execute(&mut memory), Ok(()));
    assert_eq!(cpu.C, true);
    assert_eq!(cpu.execute(&mut memory), Ok(()));
    assert_eq!(cpu.I, true);
    assert_eq!(cpu.execute(&mut memory), Ok(()));
    assert_eq!(cpu.D, true);
    assert_eq!(cpu.execute(&mut memory), Ok(()));
    assert_eq!(cpu.C, false);
    assert_eq!(cpu.execute(&mut memory), Ok(()));
    assert_eq!(cpu.I, false);
    assert_eq!(cpu.execute(&mut memory), Ok(()));
    assert_eq!(cpu.D, false);
    assert_eq!(cpu.V, true);
    assert_eq!(cpu.execute(&mut memory), Ok(()));
    assert_eq!(cpu.V, false);
    let before = cpu;
    assert_eq!(cpu.execute(&mut memory), Ok(()));
    assert_eq!(cpu.PC, 0x8008);
    assert_eq!(cpu.store_status(), before.store_status());
    assert_eq!(cpu.executed_opcodes, 8);
}

#[test]
fn step_reads_the_opcode_once_for_the_hooks() {
    let (mut cpu, mut memory) = machine_at(0x8000, &[0xEA]);
    let sink = memory.open_channel();
    memory.push_hook(
        MemoryOperation::Read,
        MemoryRegion { region_address: 0x8000, region_size: 1 },
        sink,
    );

    assert_eq!(cpu.execute(&mut memory), Ok(()));

    assert_eq!(memory.try_recv(sink), Some(MemoryEvent {
        operation: MemoryOperation::Read,
        address: 0x8000,
        value: 0xEA,
    }));
    assert_eq!(memory.try_recv(sink), None);
}

#[test]
fn store_reports_its_write() {
    let (mut cpu, mut memory) = machine_at(0x8000, &[0x8D, 0x06, 0x20]);
    let sink = memory.open_channel();
    memory.push_hook(
        MemoryOperation::Write,
        MemoryRegion { region_address: 0x2006, region_size: 2 },
        sink,
    );
    cpu.A = 0x3F;

    assert_eq!(cpu.execute(&mut memory), Ok(()));

    assert_eq!(memory.data[0x2006], 0x3F);
    assert_eq!(memory.try_recv(sink), Some(MemoryEvent {
        operation: MemoryOperation::Write,
        address: 0x2006,
        value: 0x3F,
    }));
    assert_eq!(memory.try_recv(sink), None);
}
