use lc3_vm::enums::{CondFlag, Register};
use lc3_vm::vm::{Action, Machine};

#[test]
fn test_add() {
    let mut test_mach = Machine::default();
    test_mach.reg.set(Register::R0, 56);
    test_mach.reg.set(Register::R1, 0);
    test_mach.reg.set(Register::R2, 4);
    test_mach.reg.set(Register::R4, 7);
    test_mach.reg.set(Register::R7, 13);

    test_mach.decode_and_execute(0b0001_011_000_0_00_001, None);
    assert_eq!(test_mach.reg.get(Register::R3), 56);
    assert_eq!(test_mach.reg.get(Register::COND), CondFlag::Pos.value());
    test_mach.decode_and_execute(0b0001_011_000_0_00_111, None);
    assert_eq!(test_mach.reg.get(Register::R3), 69);
    assert_eq!(test_mach.reg.get(Register::COND), CondFlag::Pos.value());
    test_mach.decode_and_execute(0b0001_100_010_1_10001, None);
    assert_eq!(test_mach.reg.get(Register::R4), 0b1111_1111_1111_0101);
    assert_eq!(test_mach.reg.get(Register::COND), CondFlag::Neg.value());
    test_mach.decode_and_execute(0b0001_111_111_1_10011, None);
    assert_eq!(test_mach.reg.get(Register::R7), 0);
    assert_eq!(test_mach.reg.get(Register::COND), CondFlag::Zero.value());
}

#[test]
fn test_and() {
    let mut test_mach = Machine::default();
    test_mach.reg.set(Register::R0, 0b0010_1010_1110_1000);
    test_mach.reg.set(Register::R1, 0b1010_1010_1010_1010);
    test_mach.reg.set(Register::R2, 0b0000_0000_0000_0000);
    test_mach.reg.set(Register::R4, 0b1111_1111_1111_1111);
    test_mach.reg.set(Register::R7, 0b0101_1100_0100_1110);

    test_mach.decode_and_execute(0b0101_011_000_0_00_010, None);
    assert_eq!(test_mach.reg.get(Register::R3), 0b0000_0000_0000_0000);
    assert_eq!(test_mach.reg.get(Register::COND), CondFlag::Zero.value());
    test_mach.decode_and_execute(0b0101_011_000_0_00_111, None);
    assert_eq!(test_mach.reg.get(Register::R3), 0b0000_1000_0100_1000);
    assert_eq!(test_mach.reg.get(Register::COND), CondFlag::Pos.value());
    test_mach.decode_and_execute(0b0101_010_100_1_00110, None);
    assert_eq!(test_mach.reg.get(Register::R2), 0b0000_0000_0000_0110);
    assert_eq!(test_mach.reg.get(Register::COND), CondFlag::Pos.value());
    test_mach.decode_and_execute(0b0101_111_100_1_10011, None);
    assert_eq!(test_mach.reg.get(Register::R7), 0b1111_1111_1111_0011);
    assert_eq!(test_mach.reg.get(Register::COND), CondFlag::Neg.value());
}

#[test]
fn test_not() {
    let mut test_mach = Machine::default();
    test_mach.reg.set(Register::R0, 0b0010_1010_1110_1000);
    test_mach.reg.set(Register::R1, 0b1010_1010_1010_1010);
    test_mach.reg.set(Register::R2, 0b1111_1111_1111_1111);

    test_mach.decode_and_execute(0b1001_011_000_111111, None);
    assert_eq!(test_mach.reg.get(Register::R3), 0b1101_0101_0001_0111);
    assert_eq!(test_mach.reg.get(Register::COND), CondFlag::Neg.value());
    test_mach.decode_and_execute(0b1001_011_001_111111, None);
    assert_eq!(test_mach.reg.get(Register::R3), 0b0101_0101_0101_0101);
    assert_eq!(test_mach.reg.get(Register::COND), CondFlag::Pos.value());
    test_mach.decode_and_execute(0b1001_110_010_111111, None);
    assert_eq!(test_mach.reg.get(Register::R6), 0b0000_0000_0000_0000);
    assert_eq!(test_mach.reg.get(Register::COND), CondFlag::Zero.value());
}

#[test]
fn test_br() {
    let mut test_mach = Machine::default();
    test_mach.reg.set(Register::PC, 0b0010_1010_1110_1000);
    test_mach.reg.set(Register::COND, 0b010);

    test_mach.decode_and_execute(0b0000_1_0_0_000100110, None);
    assert_eq!(test_mach.reg.get(Register::PC), 0b0010_1010_1110_1000);
    test_mach.decode_and_execute(0b0000_0_1_0_000100110, None);
    assert_eq!(test_mach.reg.get(Register::PC), 0b0010_1011_0000_1110);
}

#[test]
fn test_jmp() {
    let mut test_mach = Machine::default();
    test_mach.reg.set(Register::PC, 0b0010_1010_1110_1000);
    test_mach.reg.set(Register::R0, 15);
    test_mach.reg.set(Register::R5, 69);

    test_mach.decode_and_execute(0b1100_000_101_000000, None);
    assert_eq!(test_mach.reg.get(Register::PC), 69);
    test_mach.decode_and_execute(0b1100_000_000_000000, None);
    assert_eq!(test_mach.reg.get(Register::PC), 15);
}

#[test]
fn test_jsr() {
    let mut test_mach = Machine::default();
    test_mach.reg.set(Register::PC, 0b0010_1010_1110_1000);
    test_mach.reg.set(Register::R5, 420);

    test_mach.decode_and_execute(0b0100_1_01001010110, None);
    assert_eq!(test_mach.reg.get(Register::PC), 0b0010_1101_0011_1110);
    test_mach.decode_and_execute(0b0100_0_00_101_000000, None);
    assert_eq!(test_mach.reg.get(Register::PC), 420);
}

#[test]
fn test_ld() {
    let mut test_mach = Machine::default();
    test_mach.reg.set(Register::PC, 0b0010_1010_1110_1000);
    test_mach.mem.write(0b0010_1011_0011_1110, 1205);
    test_mach.mem.write(0b0010_1010_1111_1100, 65142);

    test_mach.decode_and_execute(0b0010_101_001010110, None);
    assert_eq!(test_mach.reg.get(Register::R5), 1205);
    assert_eq!(test_mach.reg.get(Register::COND), CondFlag::Pos.value());
    test_mach.decode_and_execute(0b0010_001_000010100, None);
    assert_eq!(test_mach.reg.get(Register::R1), 65142);
    assert_eq!(test_mach.reg.get(Register::COND), CondFlag::Neg.value());
}

#[test]
fn test_ldi() {
    let mut test_mach = Machine::default();
    test_mach.reg.set(Register::PC, 0b0010_1010_1110_1000);
    test_mach
        .mem
        .write(0b0010_1011_0011_1110, 0b0010_1010_1111_1100);
    test_mach
        .mem
        .write(0b0010_1010_1111_1100, 0b1110_0011_0111_0101);
    test_mach.mem.write(0b1110_0011_0111_0101, 0);

    test_mach.decode_and_execute(0b1010_101_001010110, None);
    assert_eq!(test_mach.reg.get(Register::R5), 0b1110_0011_0111_0101);
    assert_eq!(test_mach.reg.get(Register::COND), CondFlag::Neg.value());
    test_mach.decode_and_execute(0b1010_001_000010100, None);
    assert_eq!(test_mach.reg.get(Register::R1), 0);
    assert_eq!(test_mach.reg.get(Register::COND), CondFlag::Zero.value());
}

#[test]
fn test_ldr() {
    let mut test_mach = Machine::default();
    test_mach.reg.set(Register::R0, 0b0010_1010_0001_1110);
    test_mach.reg.set(Register::R4, 0b0011_1100_1111_0110);
    test_mach.mem.write(0b0010_1010_0000_0011, 5087);
    test_mach.mem.write(0b0011_1101_0000_1100, 63251);

    test_mach.decode_and_execute(0b0110_101_000_100101, None);
    assert_eq!(test_mach.reg.get(Register::R5), 5087);
    assert_eq!(test_mach.reg.get(Register::COND), CondFlag::Pos.value());
    test_mach.decode_and_execute(0b0110_100_100_010110, None);
    assert_eq!(test_mach.reg.get(Register::R4), 63251);
    assert_eq!(test_mach.reg.get(Register::COND), CondFlag::Neg.value());
}

#[test]
fn test_lea() {
    let mut test_mach = Machine::default();
    test_mach.reg.set(Register::PC, 0b0111_0101_1011_0110);

    test_mach.decode_and_execute(0b1110_101_001111101, None);
    assert_eq!(test_mach.reg.get(Register::R5), 0b0111_0110_0011_0011);
    assert_eq!(test_mach.reg.get(Register::COND), CondFlag::Pos.value());
    test_mach.decode_and_execute(0b1110_100_111110001, None);
    assert_eq!(test_mach.reg.get(Register::R4), 0b0111_0101_1010_0111);
    assert_eq!(test_mach.reg.get(Register::COND), CondFlag::Pos.value());
}

#[test]
fn test_st() {
    let mut test_mach = Machine::default();
    test_mach.reg.set(Register::PC, 0b1001_1001_0111_1001);
    test_mach.reg.set(Register::R6, 1131);
    test_mach.reg.set(Register::R2, 9999);

    test_mach.decode_and_execute(0b0011_110_000101111, None);
    assert_eq!(test_mach.mem.read(0b1001_1001_1010_1000, None), 1131);
    test_mach.decode_and_execute(0b0011_010_100001011, None);
    assert_eq!(test_mach.mem.read(0b1001_1000_1000_0100, None), 9999);
}

#[test]
fn test_sti() {
    let mut test_mach = Machine::default();
    test_mach.reg.set(Register::PC, 0b1001_1011_1001_1010);
    test_mach
        .mem
        .write(0b1001_1011_1100_1001, 0b1000_0011_1011_1111);
    test_mach
        .mem
        .write(0b1001_1010_1010_0101, 0b0111_1001_1000_1101);
    test_mach.reg.set(Register::R6, 6969);
    test_mach.reg.set(Register::R2, 1034);

    test_mach.decode_and_execute(0b1011_110_000101111, None);
    assert_eq!(test_mach.mem.read(0b1000_0011_1011_1111, None), 6969);
    test_mach.decode_and_execute(0b1011_010_100001011, None);
    assert_eq!(test_mach.mem.read(0b0111_1001_1000_1101, None), 1034);
}

#[test]
fn test_str() {
    let mut test_mach = Machine::default();
    test_mach.reg.set(Register::R0, 0b1001_0100_1010_0001);
    test_mach.reg.set(Register::R4, 0b0111_1000_0110_1000);
    test_mach.reg.set(Register::R6, 38292);
    test_mach.reg.set(Register::R2, 15503);

    test_mach.decode_and_execute(0b0111_110_000_101111, None);
    assert_eq!(test_mach.mem.read(0b1001_0100_1001_0000, None), 38292);
    test_mach.decode_and_execute(0b0111_010_100_001011, None);
    assert_eq!(test_mach.mem.read(0b0111_1000_0111_0011, None), 15503);
}

#[test]
fn test_trap() {
    // each routine runs without blocking: the ones that read ask for a byte
    let mut test_mach = Machine::default();
    assert!(matches!(test_mach.decode_and_execute(0b1111_0000_00100000, None), Action::Key));
    assert!(matches!(
        test_mach.decode_and_execute(0b1111_0000_00100001, None),
        Action::Write(ref v) if v == &vec![0u8]
    ));
    assert!(matches!(
        test_mach.decode_and_execute(0b1111_0000_00100010, None),
        Action::Write(ref v) if v.is_empty()
    ));
    assert!(matches!(test_mach.decode_and_execute(0b1111_0000_00100011, None), Action::Prompt));
    assert!(matches!(
        test_mach.decode_and_execute(0b1111_0000_00100100, None),
        Action::Write(ref v) if v.is_empty()
    ));
    assert!(matches!(test_mach.decode_and_execute(0b1111_0000_00100101, None), Action::Halt));
    assert_eq!(test_mach.reg.get(Register::PC), 0x3000);
}
