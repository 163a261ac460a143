use wordvm::error::VmError;
use wordvm::exec::Executable;
use wordvm::inst::INSTRUCTION;

#[test]
fn decodes_a_small_program() {
    let mut e = Executable::new(vec![19, 65, 0]).unwrap();
    assert!(e.is_running());
    assert_eq!(e.current_address(), 0);
    assert_eq!(e.next_instruction(), Ok(INSTRUCTION::OUT(65)));
    assert_eq!(e.current_address(), 2);
    assert_eq!(e.next_instruction(), Ok(INSTRUCTION::HALT));
    assert_eq!(e.current_address(), 3);
}

#[test]
fn decodes_each_arity() {
    let words = vec![
        1, 32768, 10, // SET
        9, 32768, 2, 3, // ADD
        6, 40, // JMP
        16, 100, 7, // WMEM
        20, 32769, // IN
        18, // RET
        21, // NOOP
    ];
    let mut e = Executable::new(words).unwrap();
    assert_eq!(e.next_instruction(), Ok(INSTRUCTION::SET(32768, 10)));
    assert_eq!(e.next_instruction(), Ok(INSTRUCTION::ADD(32768, 2, 3)));
    assert_eq!(e.next_instruction(), Ok(INSTRUCTION::JMP(40)));
    assert_eq!(e.next_instruction(), Ok(INSTRUCTION::WMEM(100, 7)));
    assert_eq!(e.next_instruction(), Ok(INSTRUCTION::IN(32769)));
    assert_eq!(e.next_instruction(), Ok(INSTRUCTION::RET));
    assert_eq!(e.next_instruction(), Ok(INSTRUCTION::NOOP));
}

#[test]
fn decoding_twice_yields_the_same_instruction() {
    let mut e = Executable::new(vec![4, 32768, 5, 5, 0]).unwrap();
    let first = e.next_instruction();
    e.jump_to(0).unwrap();
    let second = e.next_instruction();
    assert_eq!(first, second);
    assert_eq!(first, Ok(INSTRUCTION::EQ(32768, 5, 5)));
}

#[test]
fn unknown_opcode_is_reported_with_its_word() {
    let mut e = Executable::new(vec![255]).unwrap();
    assert_eq!(e.next_instruction(), Err(VmError::UnknownOpcode(255)));
    assert_eq!(e.current_address(), 1);
    let mut f = Executable::new(vec![22]).unwrap();
    assert_eq!(f.next_instruction(), Err(VmError::UnknownOpcode(22)));
}

#[test]
fn truncated_instruction_runs_out_of_bounds() {
    let mut e = Executable::new(vec![9, 1]).unwrap();
    assert_eq!(e.next_instruction(), Err(VmError::AddressOutOfBounds));
    assert_eq!(e.current_address(), 2);
    let mut f = Executable::new(vec![]).unwrap();
    assert_eq!(f.next_instruction(), Err(VmError::AddressOutOfBounds));
}

#[test]
fn cursor_jumps_stay_inside_the_image() {
    let mut e = Executable::new(vec![21, 21, 0]).unwrap();
    assert_eq!(e.jump_to(2), Ok(()));
    assert_eq!(e.current_address(), 2);
    assert_eq!(e.jump_to(3), Err(VmError::AddressOutOfBounds));
    assert_eq!(e.current_address(), 2);
    assert_eq!(e.next(), Ok(0));
    e.stop();
    assert!(!e.is_running());
}

#[test]
fn oversized_image_is_refused() {
    let too_big = vec![0u16; 32769];
    assert!(matches!(Executable::new(too_big), Err(VmError::MalformedImage)));
}
