use rusted_nes::memory::MEM;
use rusted_nes::memory::MEMORY_SIZE;
use rusted_nes::processor::MemoryMode;
use rusted_nes::processor::CPU;

#[test]
fn load_test_ldx_immediate() {
    let mut test_cpu: CPU = CPU::new();
    let mut memory: MEM = MEM::new(MEMORY_SIZE);
    memory.data[0..2].copy_from_slice(&[0xA2, 0x42]);

    assert_eq!(test_cpu.X, 0x00);
    assert_eq!(test_cpu.Z, false);
    assert_eq!(test_cpu.N, false);
    assert_eq!(test_cpu.PC, 0x0000);

    test_cpu.execute_ldx(MemoryMode::Immediate, &mut memory);
    assert_eq!(test_cpu.X, 0x42);
    assert_eq!(test_cpu.Z, false);
    assert_eq!(test_cpu.N, false);
    assert_eq!(test_cpu.PC, 0x0002);
}

#[test]
fn load_test_lnx_immediate_negative() {
    let mut test_cpu: CPU = CPU::new();
    let mut memory: MEM = MEM::new(MEMORY_SIZE);
    memory.data[0..2].copy_from_slice(&[0xA2, 0x80]);

    assert_eq!(test_cpu.X, 0x00);
    assert_eq!(test_cpu.Z, false);
    assert_eq!(test_cpu.N, false);
    assert_eq!(test_cpu.PC, 0x0000);

    test_cpu.execute_ldx(MemoryMode::Immediate, &mut memory);
    assert_eq!(test_cpu.X, 0x80);
    assert_eq!(test_cpu.Z, false);
    assert_eq!(test_cpu.N, true);
    assert_eq!(test_cpu.PC, 0x0002);
}

#[test]
fn load_test_lnx_immediate_zero() {
    let mut test_cpu: CPU = CPU::new();
    let mut memory: MEM = MEM::new(MEMORY_SIZE);
    memory.data[0..2].copy_from_slice(&[0xA2, 0x00]);

    test_cpu.X = 0x42;
    assert_eq!(test_cpu.X, 0x42);
    assert_eq!(test_cpu.Z, false);
    assert_eq!(test_cpu.N, false);
    assert_eq!(test_cpu.PC, 0x0000);

    test_cpu.execute_ldx(MemoryMode::Immediate, &mut memory);
    assert_eq!(test_cpu.X, 0x00);
    assert_eq!(test_cpu.Z, true);
    assert_eq!(test_cpu.N, false);
    assert_eq!(test_cpu.PC, 0x0002);
}

#[test]
fn load_test_lnx_zeropage() {
    let mut test_cpu: CPU = CPU::new();
    let mut memory: MEM = MEM::new(MEMORY_SIZE);
    memory.data[0..2].copy_from_slice(&[0xA2, 0x69]);
    memory.data[0x69..0x6A].copy_from_slice(&[0x42]);

    assert_eq!(test_cpu.X, 0x00);
    assert_eq!(test_cpu.Z, false);
    assert_eq!(test_cpu.N, false);
    assert_eq!(test_cpu.PC, 0x0000);

    test_cpu.execute_ldx(MemoryMode::ZeroPage, &mut memory);
    assert_eq!(test_cpu.X, 0x42);
    assert_eq!(test_cpu.Z, false);
    assert_eq!(test_cpu.N, false);
    assert_eq!(test_cpu.PC, 0x0002);
}

#[test]
fn load_test_lnx_zeropage_negative() {
    let mut test_cpu: CPU = CPU::new();
    let mut memory: MEM = MEM::new(MEMORY_SIZE);
    memory.data[0..2].copy_from_slice(&[0xA2, 0x42]);
    memory.data[0x42..0x43].copy_from_slice(&[0x80]);

    assert_eq!(test_cpu.X, 0x00);
    assert_eq!(test_cpu.Z, false);
    assert_eq!(test_cpu.N, false);
    assert_eq!(test_cpu.PC, 0x0000);

    test_cpu.execute_ldx(MemoryMode::ZeroPage, &mut memory);
    assert_eq!(test_cpu.X, 0x80);
    assert_eq!(test_cpu.Z, false);
    assert_eq!(test_cpu.N, true);
    assert_eq!(test_cpu.PC, 0x0002);
}

#[test]
fn load_test_lnx_zeropage_zero() {
    let mut test_cpu: CPU = CPU::new();
    let mut memory: MEM = MEM::new(MEMORY_SIZE);
    memory.data[0..2].copy_from_slice(&[0xA2, 0xAB]);
    memory.data[0xAB..0xAC].copy_from_slice(&[0x00]);

    test_cpu.X = 0x69;
    assert_eq!(test_cpu.X, 0x69);
    assert_eq!(test_cpu.Z, false);
    assert_eq!(test_cpu.N, false);
    assert_eq!(test_cpu.PC, 0x0000);

    test_cpu.execute_ldx(MemoryMode::ZeroPage, &mut memory);
    assert_eq!(test_cpu.X, 0x00);
    assert_eq!(test_cpu.Z, true);
    assert_eq!(test_cpu.N, false);
    assert_eq!(test_cpu.PC, 0x0002);
}

#[test]
fn load_test_ldy_immediate() {
    let mut test_cpu: CPU = CPU::new();
    let mut memory: MEM = MEM::new(MEMORY_SIZE);
    memory.data[0..2].copy_from_slice(&[0xA2, 0x42]);

    assert_eq!(test_cpu.Y, 0x00);
    assert_eq!(test_cpu.Z, false);
    assert_eq!(test_cpu.N, false);
    assert_eq!(test_cpu.PC, 0x0000);

    test_cpu.execute_ldy(MemoryMode::Immediate, &mut memory);
    assert_eq!(test_cpu.Y, 0x42);
    assert_eq!(test_cpu.Z, false);
    assert_eq!(test_cpu.N, false);
    assert_eq!(test_cpu.PC, 0x0002);
}

#[test]
fn load_test_lny_immediate_negative() {
    let mut test_cpu: CPU = CPU::new();
    let mut memory: MEM = MEM::new(MEMORY_SIZE);
    memory.data[0..2].copy_from_slice(&[0xA2, 0x80]);

    assert_eq!(test_cpu.Y, 0x00);
    assert_eq!(test_cpu.Z, false);
    assert_eq!(test_cpu.N, false);
    assert_eq!(test_cpu.PC, 0x0000);

    test_cpu.execute_ldy(MemoryMode::Immediate, &mut memory);
    assert_eq!(test_cpu.Y, 0x80);
    assert_eq!(test_cpu.Z, false);
    assert_eq!(test_cpu.N, true);
    assert_eq!(test_cpu.PC, 0x0002);
}

#[test]
fn load_test_lny_immediate_zero() {
    let mut test_cpu: CPU = CPU::new();
    let mut memory: MEM = MEM::new(MEMORY_SIZE);
    memory.data[0..2].copy_from_slice(&[0xA2, 0x00]);

    test_cpu.Y = 0x42;
    assert_eq!(test_cpu.Y, 0x42);
    assert_eq!(test_cpu.Z, false);
    assert_eq!(test_cpu.N, false);
    assert_eq!(test_cpu.PC, 0x0000);

    test_cpu.execute_ldy(MemoryMode::Immediate, &mut memory);
    assert_eq!(test_cpu.Y, 0x00);
    assert_eq!(test_cpu.Z, true);
    assert_eq!(test_cpu.N, false);
    assert_eq!(test_cpu.PC, 0x0002);
}

#[test]
fn load_test_lny_zeropage() {
    let mut test_cpu: CPU = CPU::new();
    let mut memory: MEM = MEM::new(MEMORY_SIZE);
    memory.data[0..2].copy_from_slice(&[0xA2, 0x69]);
    memory.data[0x69..0x6A].copy_from_slice(&[0x42]);

    assert_eq!(test_cpu.Y, 0x00);
    assert_eq!(test_cpu.Z, false);
    assert_eq!(test_cpu.N, false);
    assert_eq!(test_cpu.PC, 0x0000);

    test_cpu.execute_ldy(MemoryMode::ZeroPage, &mut memory);
    assert_eq!(test_cpu.Y, 0x42);
    assert_eq!(test_cpu.Z, false);
    assert_eq!(test_cpu.N, false);
    assert_eq!(test_cpu.PC, 0x0002);
}

#[test]
fn load_test_lny_zeropage_negative() {
    let mut test_cpu: CPU = CPU::new();
    let mut memory: MEM = MEM::new(MEMORY_SIZE);
    memory.data[0..2].copy_from_slice(&[0xA2, 0x42]);
    memory.data[0x42..0x43].copy_from_slice(&[0x80]);

    assert_eq!(test_cpu.Y, 0x00);
    assert_eq!(test_cpu.Z, false);
    assert_eq!(test_cpu.N, false);
    assert_eq!(test_cpu.PC, 0x0000);

    test_cpu.execute_ldy(MemoryMode::ZeroPage, &mut memory);
    assert_eq!(test_cpu.Y, 0x80);
    assert_eq!(test_cpu.Z, false);
    assert_eq!(test_cpu.N, true);
    assert_eq!(test_cpu.PC, 0x0002);
}

#[test]
fn load_test_lny_zeropage_zero() {
    let mut test_cpu: CPU = CPU::new();
    let mut memory: MEM = MEM::new(MEMORY_SIZE);
    memory.data[0..2].copy_from_slice(&[0xA2, 0xAB]);
    memory.data[0xAB..0xAC].copy_from_slice(&[0x00]);

    test_cpu.Y = 0x69;
    assert_eq!(test_cpu.Y, 0x69);
    assert_eq!(test_cpu.Z, false);
    assert_eq!(test_cpu.N, false);
    assert_eq!(test_cpu.PC, 0x0000);

    test_cpu.execute_ldy(MemoryMode::ZeroPage, &mut memory);
    assert_eq!(test_cpu.Y, 0x00);
    assert_eq!(test_cpu.Z, true);
    assert_eq!(test_cpu.N, false);
    assert_eq!(test_cpu.PC, 0x0002);
}

#[test]
fn ldx_test_ldx_immediate() {
    let mut test_cpu: CPU = CPU::new();
    let mut memory: MEM = MEM::new(MEMORY_SIZE);
    memory.data[0..2].copy_from_slice(&[0xA2, 0x42]);

    assert_eq!(test_cpu.X, 0x00);
    assert_eq!(test_cpu.Z, false);
    assert_eq!(test_cpu.N, false);
    assert_eq!(test_cpu.PC, 0x0000);

    test_cpu.execute_ldx(MemoryMode::Immediate, &mut memory);
    assert_eq!(test_cpu.X, 0x42);
    assert_eq!(test_cpu.Z, false);
    assert_eq!(test_cpu.N, false);
    assert_eq!(test_cpu.PC, 0x0002);
}

#[test]
fn ldx_test_lnx_immediate_negative() {
    let mut test_cpu: CPU = CPU::new();
    let mut memory: MEM = MEM::new(MEMORY_SIZE);
    memory.data[0..2].copy_from_slice(&[0xA2, 0x80]);

    assert_eq!(test_cpu.X, 0x00);
    assert_eq!(test_cpu.Z, false);
    assert_eq!(test_cpu.N, false);
    assert_eq!(test_cpu.PC, 0x0000);

    test_cpu.execute_ldx(MemoryMode::Immediate, &mut memory);
    assert_eq!(test_cpu.X, 0x80);
    assert_eq!(test_cpu.Z, false);
    assert_eq!(test_cpu.N, true);
    assert_eq!(test_cpu.PC, 0x0002);
}

#[test]
fn ldx_test_lnx_immediate_zero() {
    let mut test_cpu: CPU = CPU::new();
    let mut memory: MEM = MEM::new(MEMORY_SIZE);
    memory.data[0..2].copy_from_slice(&[0xA2, 0x00]);

    test_cpu.X = 0x42;
    assert_eq!(test_cpu.X, 0x42);
    assert_eq!(test_cpu.Z, false);
    assert_eq!(test_cpu.N, false);
    assert_eq!(test_cpu.PC, 0x0000);

    test_cpu.execute_ldx(MemoryMode::Immediate, &mut memory);
    assert_eq!(test_cpu.X, 0x00);
    assert_eq!(test_cpu.Z, true);
    assert_eq!(test_cpu.N, false);
    assert_eq!(test_cpu.PC, 0x0002);
}

#[test]
fn ldx_test_lnx_zeropage() {
    let mut test_cpu: CPU = CPU::new();
    let mut memory: MEM = MEM::new(MEMORY_SIZE);
    memory.data[0..2].copy_from_slice(&[0xA2, 0x69]);
    memory.data[0x69..0x6A].copy_from_slice(&[0x42]);

    assert_eq!(test_cpu.X, 0x00);
    assert_eq!(test_cpu.Z, false);
    assert_eq!(test_cpu.N, false);
    assert_eq!(test_cpu.PC, 0x0000);

    test_cpu.execute_ldx(MemoryMode::ZeroPage, &mut memory);
    assert_eq!(test_cpu.X, 0x42);
    assert_eq!(test_cpu.Z, false);
    assert_eq!(test_cpu.N, false);
    assert_eq!(test_cpu.PC, 0x0002);
}

#[test]
fn ldx_test_lnx_zeropage_negative() {
    let mut test_cpu: CPU = CPU::new();
    let mut memory: MEM = MEM::new(MEMORY_SIZE);
    memory.data[0..2].copy_from_slice(&[0xA2, 0x42]);
    memory.data[0x42..0x43].copy_from_slice(&[0x80]);

    assert_eq!(test_cpu.X, 0x00);
    assert_eq!(test_cpu.Z, false);
    assert_eq!(test_cpu.N, false);
    assert_eq!(test_cpu.PC, 0x0000);

    test_cpu.execute_ldx(MemoryMode::ZeroPage, &mut memory);
    assert_eq!(test_cpu.X, 0x80);
    assert_eq!(test_cpu.Z, false);
    assert_eq!(test_cpu.N, true);
    assert_eq!(test_cpu.PC, 0x0002);
}

#[test]
fn ldx_test_lnx_zeropage_zero() {
    let mut test_cpu: CPU = CPU::new();
    let mut memory: MEM = MEM::new(MEMORY_SIZE);
    memory.data[0..2].copy_from_slice(&[0xA2, 0xAB]);
    memory.data[0xAB..0xAC].copy_from_slice(&[0x00]);

    test_cpu.X = 0x69;
    assert_eq!(test_cpu.X, 0x69);
    assert_eq!(test_cpu.Z, false);
    assert_eq!(test_cpu.N, false);
    assert_eq!(test_cpu.PC, 0x0000);

    test_cpu.execute_ldx(MemoryMode::ZeroPage, &mut memory);
    assert_eq!(test_cpu.X, 0x00);
    assert_eq!(test_cpu.Z, true);
    assert_eq!(test_cpu.N, false);
    assert_eq!(test_cpu.PC, 0x0002);
}

#[test]
fn ldy_test_ldy_immediate() {
    let mut test_cpu: CPU = CPU::new();
    let mut memory: MEM = MEM::new(MEMORY_SIZE);
    memory.data[0..2].copy_from_slice(&[0xA2, 0x42]);

    assert_eq!(test_cpu.Y, 0x00);
    assert_eq!(test_cpu.Z, false);
    assert_eq!(test_cpu.N, false);
    assert_eq!(test_cpu.PC, 0x0000);

    test_cpu.execute_ldy(MemoryMode::Immediate, &mut memory);
    assert_eq!(test_cpu.Y, 0x42);
    assert_eq!(test_cpu.Z, false);
    assert_eq!(test_cpu.N, false);
    assert_eq!(test_cpu.PC, 0x0002);
}

#[test]
fn ldy_test_lny_immediate_negative() {
    let mut test_cpu: CPU = CPU::new();
    let mut memory: MEM = MEM::new(MEMORY_SIZE);
    memory.data[0..2].copy_from_slice(&[0xA2, 0x80]);

    assert_eq!(test_cpu.Y, 0x00);
    assert_eq!(test_cpu.Z, false);
    assert_eq!(test_cpu.N, false);
    assert_eq!(test_cpu.PC, 0x0000);

    test_cpu.execute_ldy(MemoryMode::Immediate, &mut memory);
    assert_eq!(test_cpu.Y, 0x80);
    assert_eq!(test_cpu.Z, false);
    assert_eq!(test_cpu.N, true);
    assert_eq!(test_cpu.PC, 0x0002);
}

#[test]
fn ldy_test_lny_immediate_zero() {
    let mut test_cpu: CPU = CPU::new();
    let mut memory: MEM = MEM::new(MEMORY_SIZE);
    memory.data[0..2].copy_from_slice(&[0xA2, 0x00]);

    test_cpu.Y = 0x42;
    assert_eq!(test_cpu.Y, 0x42);
    assert_eq!(test_cpu.Z, false);
    assert_eq!(test_cpu.N, false);
    assert_eq!(test_cpu.PC, 0x0000);

    test_cpu.execute_ldy(MemoryMode::Immediate, &mut memory);
    assert_eq!(test_cpu.Y, 0x00);
    assert_eq!(test_cpu.Z, true);
    assert_eq!(test_cpu.N, false);
    assert_eq!(test_cpu.PC, 0x0002);
}

#[test]
fn ldy_test_lny_zeropage() {
    let mut test_cpu: CPU = CPU::new();
    let mut memory: MEM = MEM::new(MEMORY_SIZE);
    memory.data[0..2].copy_from_slice(&[0xA2, 0x69]);
    memory.data[0x69..0x6A].copy_from_slice(&[0x42]);

    assert_eq!(test_cpu.Y, 0x00);
    assert_eq!(test_cpu.Z, false);
    assert_eq!(test_cpu.N, false);
    assert_eq!(test_cpu.PC, 0x0000);

    test_cpu.execute_ldy(MemoryMode::ZeroPage, &mut memory);
    assert_eq!(test_cpu.Y, 0x42);
    assert_eq!(test_cpu.Z, false);
    assert_eq!(test_cpu.N, false);
    assert_eq!(test_cpu.PC, 0x0002);
}

#[test]
fn ldy_test_lny_zeropage_negative() {
    let mut test_cpu: CPU = CPU::new();
    let mut memory: MEM = MEM::new(MEMORY_SIZE);
    memory.data[0..2].copy_from_slice(&[0xA2, 0x42]);
    memory.data[0x42..0x43].copy_from_slice(&[0x80]);

    assert_eq!(test_cpu.Y, 0x00);
    assert_eq!(test_cpu.Z, false);
    assert_eq!(test_cpu.N, false);
    assert_eq!(test_cpu.PC, 0x0000);

    test_cpu.execute_ldy(MemoryMode::ZeroPage, &mut memory);
    assert_eq!(test_cpu.Y, 0x80);
    assert_eq!(test_cpu.Z, false);
    assert_eq!(test_cpu.N, true);
    assert_eq!(test_cpu.PC, 0x0002);
}

#[test]
fn ldy_test_lny_zeropage_zero() {
    let mut test_cpu: CPU = CPU::new();
    let mut memory: MEM = MEM::new(MEMORY_SIZE);
    memory.data[0..2].copy_from_slice(&[0xA2, 0xAB]);
    memory.data[0xAB..0xAC].copy_from_slice(&[0x00]);

    test_cpu.Y = 0x69;
    assert_eq!(test_cpu.Y, 0x69);
    assert_eq!(test_cpu.Z, false);
    assert_eq!(test_cpu.N, false);
    assert_eq!(test_cpu.PC, 0x0000);

    test_cpu.execute_ldy(MemoryMode::ZeroPage, &mut memory);
    assert_eq!(test_cpu.Y, 0x00);
    assert_eq!(test_cpu.Z, true);
    assert_eq!(test_cpu.N, false);
    assert_eq!(test_cpu.PC, 0x0002);
}
