use rusted_nes::processor::CPU;

#[test]
fn decrement_test_dex() {
    let mut test_cpu: CPU = CPU::new();

    test_cpu.X = 0x02;
    assert_eq!(test_cpu.X, 0x02);
    assert_eq!(test_cpu.Z, false);
    assert_eq!(test_cpu.N, false);

    test_cpu.execute_dex_imp();
    assert_eq!(test_cpu.X, 0x01);
    assert_eq!(test_cpu.Z, false);
    assert_eq!(test_cpu.N, false);

    test_cpu.X = 0x43;
    test_cpu.execute_dex_imp();
    assert_eq!(test_cpu.X, 0x42);
    assert_eq!(test_cpu.Z, false);
    assert_eq!(test_cpu.N, false);

    test_cpu.X = 0x6a;
    test_cpu.execute_dex_imp();
    assert_eq!(test_cpu.X, 0x69);
    assert_eq!(test_cpu.Z, false);
    assert_eq!(test_cpu.N, false);
}

#[test]
fn decrement_test_dex_negative() {
    let mut test_cpu: CPU = CPU::new();

    test_cpu.Y = 0x00;
    assert_eq!(test_cpu.X, 0x00);
    assert_eq!(test_cpu.Z, false);
    assert_eq!(test_cpu.N, false);

    test_cpu.execute_dex_imp();
    assert_eq!(test_cpu.X, 0xFF);
    assert_eq!(test_cpu.Z, false);
    assert_eq!(test_cpu.N, true);
}

#[test]
fn decrement_test_dex_zero() {
    let mut test_cpu: CPU = CPU::new();

    test_cpu.X = 0x01;
    assert_eq!(test_cpu.X, 0x01);
    assert_eq!(test_cpu.Z, false);
    assert_eq!(test_cpu.N, false);

    test_cpu.execute_dex_imp();
    assert_eq!(test_cpu.X, 0x00);
    assert_eq!(test_cpu.Z, true);
    assert_eq!(test_cpu.N, false);
}

#[test]
fn decrement_test_dey() {
    let mut test_cpu: CPU = CPU::new();

    test_cpu.Y = 0x02;
    assert_eq!(test_cpu.Y, 0x02);
    assert_eq!(test_cpu.Z, false);
    assert_eq!(test_cpu.N, false);

    test_cpu.execute_dey_imp();
    assert_eq!(test_cpu.Y, 0x01);
    assert_eq!(test_cpu.Z, false);
    assert_eq!(test_cpu.N, false);

    test_cpu.Y = 0x43;
    test_cpu.execute_dey_imp();
    assert_eq!(test_cpu.Y, 0x42);
    assert_eq!(test_cpu.Z, false);
    assert_eq!(test_cpu.N, false);

    test_cpu.Y = 0x6a;
    test_cpu.execute_dey_imp();
    assert_eq!(test_cpu.Y, 0x69);
    assert_eq!(test_cpu.Z, false);
    assert_eq!(test_cpu.N, false);
}

#[test]
fn decrement_test_dey_negative() {
    let mut test_cpu: CPU = CPU::new();

    test_cpu.Y = 0x00;
    assert_eq!(test_cpu.Y, 0x00);
    assert_eq!(test_cpu.Z, false);
    assert_eq!(test_cpu.N, false);

    test_cpu.execute_dey_imp();
    assert_eq!(test_cpu.Y, 0xFF);
    assert_eq!(test_cpu.Z, false);
    assert_eq!(test_cpu.N, true);
}

#[test]
fn decrement_test_dey_zero() {
    let mut test_cpu: CPU = CPU::new();

    test_cpu.Y = 0x01;
    assert_eq!(test_cpu.Y, 0x01);
    assert_eq!(test_cpu.Z, false);
    assert_eq!(test_cpu.N, false);

    test_cpu.execute_dey_imp();
    assert_eq!(test_cpu.Y, 0x00);
    assert_eq!(test_cpu.Z, true);
    assert_eq!(test_cpu.N, false);
}

#[test]
fn dex_test_dex() {
    let mut test_cpu: CPU = CPU::new();

    test_cpu.X = 0x02;
    assert_eq!(test_cpu.X, 0x02);
    assert_eq!(test_cpu.Z, false);
    assert_eq!(test_cpu.N, false);

    test_cpu.execute_dex_imp();
    assert_eq!(test_cpu.X, 0x01);
    assert_eq!(test_cpu.Z, false);
    assert_eq!(test_cpu.N, false);

    test_cpu.X = 0x43;
    test_cpu.execute_dex_imp();
    assert_eq!(test_cpu.X, 0x42);
    assert_eq!(test_cpu.Z, false);
    assert_eq!(test_cpu.N, false);

    test_cpu.X = 0x6a;
    test_cpu.execute_dex_imp();
    assert_eq!(test_cpu.X, 0x69);
    assert_eq!(test_cpu.Z, false);
    assert_eq!(test_cpu.N, false);
}

#[test]
fn dex_test_dex_negative() {
    let mut test_cpu: CPU = CPU::new();

    test_cpu.Y = 0x00;
    assert_eq!(test_cpu.X, 0x00);
    assert_eq!(test_cpu.Z, false);
    assert_eq!(test_cpu.N, false);

    test_cpu.execute_dex_imp();
    assert_eq!(test_cpu.X, 0xFF);
    assert_eq!(test_cpu.Z, false);
    assert_eq!(test_cpu.N, true);
}

#[test]
fn dex_test_dex_zero() {
    let mut test_cpu: CPU = CPU::new();

    test_cpu.X = 0x01;
    assert_eq!(test_cpu.X, 0x01);
    assert_eq!(test_cpu.Z, false);
    assert_eq!(test_cpu.N, false);

    test_cpu.execute_dex_imp();
    assert_eq!(test_cpu.X, 0x00);
    assert_eq!(test_cpu.Z, true);
    assert_eq!(test_cpu.N, false);
}

#[test]
fn dey_test_dey() {
    let mut test_cpu: CPU = CPU::new();

    test_cpu.Y = 0x02;
    assert_eq!(test_cpu.Y, 0x02);
    assert_eq!(test_cpu.Z, false);
    assert_eq!(test_cpu.N, false);

    test_cpu.execute_dey_imp();
    assert_eq!(test_cpu.Y, 0x01);
    assert_eq!(test_cpu.Z, false);
    assert_eq!(test_cpu.N, false);

    test_cpu.Y = 0x43;
    test_cpu.execute_dey_imp();
    assert_eq!(test_cpu.Y, 0x42);
    assert_eq!(test_cpu.Z, false);
    assert_eq!(test_cpu.N, false);

    test_cpu.Y = 0x6a;
    test_cpu.execute_dey_imp();
    assert_eq!(test_cpu.Y, 0x69);
    assert_eq!(test_cpu.Z, false);
    assert_eq!(test_cpu.N, false);
}

#[test]
fn dey_test_dey_negative() {
    let mut test_cpu: CPU = CPU::new();

    test_cpu.Y = 0x00;
    assert_eq!(test_cpu.Y, 0x00);
    assert_eq!(test_cpu.Z, false);
    assert_eq!(test_cpu.N, false);

    test_cpu.execute_dey_imp();
    assert_eq!(test_cpu.Y, 0xFF);
    assert_eq!(test_cpu.Z, false);
    assert_eq!(test_cpu.N, true);
}

#[test]
fn dey_test_dey_zero() {
    let mut test_cpu: CPU = CPU::new();

    test_cpu.Y = 0x01;
    assert_eq!(test_cpu.Y, 0x01);
    assert_eq!(test_cpu.Z, false);
    assert_eq!(test_cpu.N, false);

    test_cpu.execute_dey_imp();
    assert_eq!(test_cpu.Y, 0x00);
    assert_eq!(test_cpu.Z, true);
    assert_eq!(test_cpu.N, false);
}

#[test]
fn increment_test_inx() {
    let mut test_cpu: CPU = CPU::new();

    assert_eq!(test_cpu.X, 0x00);
    assert_eq!(test_cpu.Z, false);
    assert_eq!(test_cpu.N, false);

    test_cpu.execute_inx_imp();
    assert_eq!(test_cpu.X, 0x01);
    assert_eq!(test_cpu.Z, false);
    assert_eq!(test_cpu.N, false);

    test_cpu.X = 0x41;
    test_cpu.execute_inx_imp();
    assert_eq!(test_cpu.X, 0x42);
    assert_eq!(test_cpu.Z, false);
    assert_eq!(test_cpu.N, false);

    test_cpu.X = 0x68;
    test_cpu.execute_inx_imp();
    assert_eq!(test_cpu.X, 0x69);
    assert_eq!(test_cpu.Z, false);
    assert_eq!(test_cpu.N, false);
}

#[test]
fn increment_test_inx_negative() {
    let mut test_cpu: CPU = CPU::new();

    test_cpu.X = 0x7F;
    assert_eq!(test_cpu.X, 0x7F);
    assert_eq!(test_cpu.Z, false);
    assert_eq!(test_cpu.N, false);

    test_cpu.execute_inx_imp();
    assert_eq!(test_cpu.X, 0x80);
    assert_eq!(test_cpu.Z, false);
    assert_eq!(test_cpu.N, true);
}

#[test]
fn increment_test_inx_zero() {
    let mut test_cpu: CPU = CPU::new();

    test_cpu.X = 0xFF;
    assert_eq!(test_cpu.X, 0xFF);
    assert_eq!(test_cpu.Z, false);
    assert_eq!(test_cpu.N, false);

    test_cpu.execute_inx_imp();
    assert_eq!(test_cpu.X, 0x00);
    assert_eq!(test_cpu.Z, true);
    assert_eq!(test_cpu.N, false);
}

#[test]
fn increment_test_iny() {

    let mut test_cpu: CPU = CPU::new();

    assert_eq!(test_cpu.Y, 0x00);
    assert_eq!(test_cpu.Z, false);
    assert_eq!(test_cpu.N, false);

    test_cpu.execute_iny_imp();
    assert_eq!(test_cpu.Y, 0x01);
    assert_eq!(test_cpu.Z, false);
    assert_eq!(test_cpu.N, false);

    test_cpu.Y = 0x41;
    test_cpu.execute_iny_imp();
    assert_eq!(test_cpu.Y, 0x42);
    assert_eq!(test_cpu.Z, false);
    assert_eq!(test_cpu.N, false);

    test_cpu.Y = 0x68;
    test_cpu.execute_iny_imp();
    assert_eq!(test_cpu.Y, 0x69);
    assert_eq!(test_cpu.Z, false);
    assert_eq!(test_cpu.N, false);
}

#[test]
fn increment_test_iny_negative() {
    let mut test_cpu: CPU = CPU::new();

    test_cpu.Y = 0x7F;
    assert_eq!(test_cpu.Y, 0x7F);
    assert_eq!(test_cpu.Z, false);
    assert_eq!(test_cpu.N, false);

    test_cpu.execute_iny_imp();
    assert_eq!(test_cpu.Y, 0x80);
    assert_eq!(test_cpu.Z, false);
    assert_eq!(test_cpu.N, true);
}

#[test]
fn increment_test_iny_zero() {
    let mut test_cpu: CPU = CPU::new();

    test_cpu.Y = 0xFF;
    assert_eq!(test_cpu.Y, 0xFF);
    assert_eq!(test_cpu.Z, false);
    assert_eq!(test_cpu.N, false);

    test_cpu.execute_iny_imp();
    assert_eq!(test_cpu.Y, 0x00);
    assert_eq!(test_cpu.Z, true);
    assert_eq!(test_cpu.N, false);
}

#[test]
fn inx_test_inx() {
    let mut test_cpu: CPU = CPU::new();

    assert_eq!(test_cpu.X, 0x00);
    assert_eq!(test_cpu.Z, false);
    assert_eq!(test_cpu.N, false);

    test_cpu.execute_inx_imp();
    assert_eq!(test_cpu.X, 0x01);
    assert_eq!(test_cpu.Z, false);
    assert_eq!(test_cpu.N, false);

    test_cpu.X = 0x41;
    test_cpu.execute_inx_imp();
    assert_eq!(test_cpu.X, 0x42);
    assert_eq!(test_cpu.Z, false);
    assert_eq!(test_cpu.N, false);

    test_cpu.X = 0x68;
    test_cpu.execute_inx_imp();
    assert_eq!(test_cpu.X, 0x69);
    assert_eq!(test_cpu.Z, false);
    assert_eq!(test_cpu.N, false);
}

#[test]
fn inx_test_inx_negative() {
    let mut test_cpu: CPU = CPU::new();

    test_cpu.X = 0x7F;
    assert_eq!(test_cpu.X, 0x7F);
    assert_eq!(test_cpu.Z, false);
    assert_eq!(test_cpu.N, false);

    test_cpu.execute_inx_imp();
    assert_eq!(test_cpu.X, 0x80);
    assert_eq!(test_cpu.Z, false);
    assert_eq!(test_cpu.N, true);
}

#[test]
fn inx_test_inx_zero() {
    let mut test_cpu: CPU = CPU::new();

    test_cpu.X = 0xFF;
    assert_eq!(test_cpu.X, 0xFF);
    assert_eq!(test_cpu.Z, false);
    assert_eq!(test_cpu.N, false);

    test_cpu.execute_inx_imp();
    assert_eq!(test_cpu.X, 0x00);
    assert_eq!(test_cpu.Z, true);
    assert_eq!(test_cpu.N, false);
}

#[test]
fn iny_test_iny() {

    let mut test_cpu: CPU = CPU::new();

    assert_eq!(test_cpu.Y, 0x00);
    assert_eq!(test_cpu.Z, false);
    assert_eq!(test_cpu.N, false);

    test_cpu.execute_iny_imp();
    assert_eq!(test_cpu.Y, 0x01);
    assert_eq!(test_cpu.Z, false);
    assert_eq!(test_cpu.N, false);

    test_cpu.Y = 0x41;
    test_cpu.execute_iny_imp();
    assert_eq!(test_cpu.Y, 0x42);
    assert_eq!(test_cpu.Z, false);
    assert_eq!(test_cpu.N, false);

    test_cpu.Y = 0x68;
    test_cpu.execute_iny_imp();
    assert_eq!(test_cpu.Y, 0x69);
    assert_eq!(test_cpu.Z, false);
    assert_eq!(test_cpu.N, false);
}

#[test]
fn iny_test_iny_negative() {
    let mut test_cpu: CPU = CPU::new();

    test_cpu.Y = 0x7F;
    assert_eq!(test_cpu.Y, 0x7F);
    assert_eq!(test_cpu.Z, false);
    assert_eq!(test_cpu.N, false);

    test_cpu.execute_iny_imp();
    assert_eq!(test_cpu.Y, 0x80);
    assert_eq!(test_cpu.Z, false);
    assert_eq!(test_cpu.N, true);
}

#[test]
fn iny_test_iny_zero() {
    let mut test_cpu: CPU = CPU::new();

    test_cpu.Y = 0xFF;
    assert_eq!(test_cpu.Y, 0xFF);
    assert_eq!(test_cpu.Z, false);
    assert_eq!(test_cpu.N, false);

    test_cpu.execute_iny_imp();
    assert_eq!(test_cpu.Y, 0x00);
    assert_eq!(test_cpu.Z, true);
    assert_eq!(test_cpu.N, false);
}
