use lc3_vm::enums::Register;
use lc3_vm::memory::{MemoryManager, RegisterManager, KBDR, KBSR};

#[test]
fn test_register_api() {
    let mut reg = RegisterManager::default();

    assert_eq!(reg.get(Register::PC), 0x3000);

    reg.set(Register::R0, 0x69);
    assert_eq!(reg.get(Register::R0), 0x69);

    reg.copy(Register::R7, Register::R0);
    assert_eq!(reg.get(Register::R7), 0x69);

    reg.incr(Register::R0);
    assert_eq!(reg.get(Register::R0), 0x6a);

    reg.incr_by(Register::R0, 5);
    assert_eq!(reg.get(Register::R0), 0x6f);
}

#[test]
fn test_memory_api() {
    let mut mem = MemoryManager::default();

    mem.write(0, 0x69);
    assert_eq!(mem.read(0, None), 0x69);

    mem.write(0xffff, 0x7f);
    assert_eq!(mem.read(0xffff, None), 0x7f);
}

#[test]
fn register_arithmetic_wraps() {
    let mut reg = RegisterManager::new();
    reg.set(Register::R3, 0xFFFF);
    reg.incr(Register::R3);
    assert_eq!(reg.get(Register::R3), 0);
    reg.set(Register::PC, 0xFFF0);
    reg.incr_by(Register::PC, 0x20);
    assert_eq!(reg.get(Register::PC), 0x10);
    assert_eq!(reg.get(Register::COND), 0);
}

#[test]
fn keyboard_status_read_takes_a_key() {
    let mut mem = MemoryManager::new();
    assert_eq!(mem.read(KBSR, Some(b'a')), 0x8000);
    assert_eq!(mem.peek(KBDR), b'a' as u16);
    assert_eq!(mem.read(KBDR, Some(b'z')), b'a' as u16);
    // a zero byte clears the status and leaves the data register
    assert_eq!(mem.read(KBSR, Some(0)), 0);
    assert_eq!(mem.peek(KBDR), b'a' as u16);
    // without a key the status is read as stored
    mem.write(KBSR, 0x1234);
    assert_eq!(mem.read(KBSR, None), 0x1234);
}
