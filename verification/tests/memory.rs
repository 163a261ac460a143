use wordvm::error::VmError;
use wordvm::mem::Memory;

#[test]
fn fresh_memory_is_zeroed() {
    let m = Memory::new();
    assert_eq!(m.read(0), Ok(0));
    assert_eq!(m.read(32767), Ok(0));
    assert_eq!(m.read_register(0), Ok(0));
    assert_eq!(m.read_register(7), Ok(0));
}

#[test]
fn heap_reads_and_writes_are_bounds_checked() {
    let mut m = Memory::new();
    assert_eq!(m.write(5, 99), Ok(()));
    assert_eq!(m.read(5), Ok(99));
    assert_eq!(m.read(32768), Err(VmError::AddressOutOfBounds));
    assert_eq!(m.read(65535), Err(VmError::AddressOutOfBounds));
    assert_eq!(m.write(32768, 1), Err(VmError::AddressOutOfBounds));
}

#[test]
fn register_access_is_bounds_checked() {
    let mut m = Memory::new();
    assert_eq!(m.write_register(7, 3), Ok(()));
    assert_eq!(m.read_register(7), Ok(3));
    assert_eq!(m.read_register(8), Err(VmError::RegisterIndexOutOfBounds));
    assert_eq!(m.write_register(9, 1), Err(VmError::RegisterIndexOutOfBounds));
}

#[test]
fn operand_resolution_reads_registers() {
    let mut m = Memory::new();
    assert_eq!(m.value(123), Ok(123));
    assert_eq!(m.value(32767), Ok(32767));
    m.write_register(2, 77).unwrap();
    assert_eq!(m.value(32770), Ok(77));
    assert_eq!(m.value(32770), Ok(m.read_register(2).unwrap()));
    assert_eq!(m.value(32776), Err(VmError::InvalidOperand));
    assert_eq!(m.value(65535), Err(VmError::InvalidOperand));
}

#[test]
fn stack_pops_in_reverse_order() {
    let mut m = Memory::new();
    m.push_stack(1);
    m.push_stack(2);
    m.push_stack(3);
    assert_eq!(m.pop_stack(), Ok(3));
    assert_eq!(m.pop_stack(), Ok(2));
    assert_eq!(m.pop_stack(), Ok(1));
    assert_eq!(m.pop_stack(), Err(VmError::StackUnderflow));
}

#[test]
fn pop_on_empty_stack_underflows() {
    let mut m = Memory::new();
    assert_eq!(m.pop_stack(), Err(VmError::StackUnderflow));
    m.push_stack(9);
    assert_eq!(m.pop_stack(), Ok(9));
    assert_eq!(m.pop_stack(), Err(VmError::StackUnderflow));
}

#[test]
fn loaded_words_read_back_unchanged() {
    let mut m = Memory::new();
    m.write(3, 555).unwrap();
    m.load(&[10, 20, 30]).unwrap();
    assert_eq!(m.read(0), Ok(10));
    assert_eq!(m.read(1), Ok(20));
    assert_eq!(m.read(2), Ok(30));
    assert_eq!(m.read(3), Ok(555));
    assert_eq!(m.read(4), Ok(0));
}

#[test]
fn oversized_image_does_not_load() {
    let mut m = Memory::new();
    let too_big = vec![7u16; 32769];
    assert_eq!(m.load(&too_big), Err(VmError::MalformedImage));
    assert_eq!(m.read(0), Ok(0));
    let just_fits = vec![7u16; 32768];
    assert_eq!(m.load(&just_fits), Ok(()));
    assert_eq!(m.read(32767), Ok(7));
}
