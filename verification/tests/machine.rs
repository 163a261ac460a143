use wordvm::error::VmError;
use wordvm::vm::RunState;
use wordvm::vm::VM;

fn image(words: &[u16]) -> Vec<u8> {
    let mut bytes = Vec::new();
    for w in words {
        bytes.push((w & 0xff) as u8);
        bytes.push((w >> 8) as u8);
    }
    bytes
}

#[test]
fn fresh_machine_is_ready() {
    let vm = VM::new();
    assert_eq!(vm.state(), RunState::Ready);
    assert_eq!(vm.address(), 0);
    assert!(vm.output().is_empty());
}

#[test]
fn out_literal_prints_and_halts() {
    let mut vm = VM::new();
    let r = vm.execute(&image(&[19, 65, 0]), 100);
    assert_eq!(r, Ok(()));
    assert_eq!(vm.state(), RunState::Halted);
    assert_eq!(vm.output(), &vec![b'A']);
}

#[test]
fn register_sum_prints_star() {
    // r0 = 10; r1 = 32; r2 = r0 + r1; print r2.
    let words = [1, 32768, 10, 1, 32769, 32, 9, 32770, 32768, 32769, 19, 32770, 0];
    let mut vm = VM::new();
    let r = vm.execute(&image(&words), 100);
    assert_eq!(r, Ok(()));
    assert_eq!(vm.state(), RunState::Halted);
    assert_eq!(vm.output(), &vec![b'*']);
}

#[test]
fn unknown_opcode_faults_before_any_output() {
    let mut vm = VM::new();
    let r = vm.execute(&image(&[255]), 100);
    assert_eq!(r, Err(VmError::UnknownOpcode(255)));
    assert_eq!(vm.state(), RunState::Faulted(VmError::UnknownOpcode(255)));
    assert!(vm.output().is_empty());
}

#[test]
fn odd_image_is_rejected_untouched() {
    let mut vm = VM::new();
    let r = vm.execute(&[1, 2, 3], 100);
    assert_eq!(r, Err(VmError::MalformedImage));
    assert_eq!(vm.state(), RunState::Ready);
}

#[test]
fn oversized_image_is_rejected() {
    let mut vm = VM::new();
    let words = vec![21u16; 32769];
    let r = vm.execute(&image(&words), 100);
    assert_eq!(r, Err(VmError::MalformedImage));
    assert_eq!(vm.state(), RunState::Ready);
}

#[test]
fn call_then_ret_resumes_after_the_call() {
    // CALL 3 at 0; HALT at 2; RET at 3.
    let mut vm = VM::new();
    vm.execute(&image(&[17, 3, 0, 18]), 0).unwrap();
    assert_eq!(vm.state(), RunState::Running);
    assert_eq!(vm.address(), 0);
    vm.next_instruction().unwrap();
    assert_eq!(vm.address(), 3);
    vm.next_instruction().unwrap();
    assert_eq!(vm.address(), 2);
    vm.next_instruction().unwrap();
    assert_eq!(vm.state(), RunState::Halted);
}

#[test]
fn jt_nonzero_takes_the_target() {
    let mut vm = VM::new();
    vm.execute(&image(&[7, 1, 5, 0, 0, 0]), 0).unwrap();
    vm.next_instruction().unwrap();
    assert_eq!(vm.address(), 5);
}

#[test]
fn jt_zero_merely_advances() {
    let mut vm = VM::new();
    vm.execute(&image(&[7, 0, 5, 0, 0, 0]), 0).unwrap();
    vm.next_instruction().unwrap();
    assert_eq!(vm.address(), 3);
}

#[test]
fn jf_zero_takes_the_target() {
    let mut vm = VM::new();
    vm.execute(&image(&[8, 0, 5, 0, 0, 0]), 0).unwrap();
    vm.next_instruction().unwrap();
    assert_eq!(vm.address(), 5);
}

#[test]
fn jf_nonzero_merely_advances() {
    let mut vm = VM::new();
    vm.execute(&image(&[8, 1, 5, 0, 0, 0]), 0).unwrap();
    vm.next_instruction().unwrap();
    assert_eq!(vm.address(), 3);
}

#[test]
fn addition_wraps_modulo_32768() {
    let mut vm = VM::new();
    vm.execute(&image(&[9, 32768, 32767, 1, 19, 32768, 0]), 100).unwrap();
    assert_eq!(vm.output(), &vec![0u8]);
}

#[test]
fn multiplication_widens_before_the_modulo() {
    // r0 = 2000 * 20 mod 32768 = 7232; r1 = (r0 == 7232); print r1.
    let words = [10, 32768, 2000, 20, 4, 32769, 32768, 7232, 19, 32769, 0];
    let mut vm = VM::new();
    vm.execute(&image(&words), 100).unwrap();
    assert_eq!(vm.state(), RunState::Halted);
    assert_eq!(vm.output(), &vec![1u8]);
}

#[test]
fn bitwise_ops_mask_to_15_bits() {
    // r0 = 6 & 3; r1 = 6 | 3; r2 = not 0; print each low byte.
    let words = [
        12, 32768, 6, 3, 19, 32768, 13, 32769, 6, 3, 19, 32769, 14, 32770, 0, 19, 32770, 0,
    ];
    let mut vm = VM::new();
    vm.execute(&image(&words), 100).unwrap();
    assert_eq!(vm.output(), &vec![2u8, 7u8, 255u8]);
}

#[test]
fn modulus_takes_the_remainder() {
    let mut vm = VM::new();
    vm.execute(&image(&[11, 32768, 17, 5, 19, 32768, 0]), 100).unwrap();
    assert_eq!(vm.output(), &vec![2u8]);
}

#[test]
fn zero_divisor_faults() {
    let mut vm = VM::new();
    let r = vm.execute(&image(&[11, 32768, 5, 0]), 100);
    assert_eq!(r, Err(VmError::DivisionByZero));
    assert_eq!(vm.state(), RunState::Faulted(VmError::DivisionByZero));
}

#[test]
fn comparisons_write_one_or_zero() {
    // r0 = (5 > 3); r1 = (3 == 3); r2 = (2 > 9); print each.
    let words = [
        5, 32768, 5, 3, 4, 32769, 3, 3, 5, 32770, 2, 9, 19, 32768, 19, 32769, 19, 32770, 0,
    ];
    let mut vm = VM::new();
    vm.execute(&image(&words), 100).unwrap();
    assert_eq!(vm.output(), &vec![1u8, 1u8, 0u8]);
}

#[test]
fn pushed_values_pop_in_reverse_order() {
    let words = [2, 65, 2, 66, 3, 32768, 19, 32768, 3, 32769, 19, 32769, 0];
    let mut vm = VM::new();
    vm.execute(&image(&words), 100).unwrap();
    assert_eq!(vm.output(), &vec![66u8, 65u8]);
}

#[test]
fn pop_on_empty_stack_faults() {
    let mut vm = VM::new();
    let r = vm.execute(&image(&[3, 32768]), 100);
    assert_eq!(r, Err(VmError::StackUnderflow));
    assert_eq!(vm.state(), RunState::Faulted(VmError::StackUnderflow));
}

#[test]
fn literal_destination_faults() {
    let mut vm = VM::new();
    let r = vm.execute(&image(&[1, 5, 10]), 100);
    assert_eq!(r, Err(VmError::NotARegister));
    assert_eq!(vm.state(), RunState::Faulted(VmError::NotARegister));
}

#[test]
fn operand_above_the_register_range_faults() {
    let mut vm = VM::new();
    let r = vm.execute(&image(&[1, 32768, 32776]), 100);
    assert_eq!(r, Err(VmError::InvalidOperand));
    assert_eq!(vm.state(), RunState::Faulted(VmError::InvalidOperand));
}

#[test]
fn heap_write_reads_back_through_rmem() {
    let words = [16, 100, 77, 15, 32768, 100, 19, 32768, 0];
    let mut vm = VM::new();
    vm.execute(&image(&words), 100).unwrap();
    assert_eq!(vm.output(), &vec![77u8]);
}

#[test]
fn jump_outside_the_heap_faults() {
    // r0 = heap[5] = 40000; jump to r0; the next fetch is out of bounds.
    let words = [15, 32768, 5, 6, 32768, 40000];
    let mut vm = VM::new();
    let r = vm.execute(&image(&words), 100);
    assert_eq!(r, Err(VmError::AddressOutOfBounds));
    assert_eq!(vm.state(), RunState::Faulted(VmError::AddressOutOfBounds));
}

#[test]
fn out_emits_the_low_byte() {
    let mut vm = VM::new();
    vm.execute(&image(&[19, 321, 0]), 100).unwrap();
    assert_eq!(vm.output(), &vec![b'A']);
}

#[test]
fn input_byte_lands_in_the_register() {
    let mut vm = VM::new();
    vm.feed_input(b"H");
    vm.execute(&image(&[20, 32768, 19, 32768, 0]), 100).unwrap();
    assert_eq!(vm.state(), RunState::Halted);
    assert_eq!(vm.output(), &vec![b'H']);
}

#[test]
fn exhausted_input_faults() {
    let mut vm = VM::new();
    let r = vm.execute(&image(&[20, 32768]), 100);
    assert_eq!(r, Err(VmError::InputExhausted));
    assert_eq!(vm.state(), RunState::Faulted(VmError::InputExhausted));
}

#[test]
fn ret_on_an_empty_stack_halts_cleanly() {
    let mut vm = VM::new();
    let r = vm.execute(&image(&[18]), 100);
    assert_eq!(r, Ok(()));
    assert_eq!(vm.state(), RunState::Halted);
}

#[test]
fn step_budget_pauses_a_running_machine() {
    let mut vm = VM::new();
    let r = vm.execute(&image(&[21, 21, 0]), 1);
    assert_eq!(r, Ok(()));
    assert_eq!(vm.state(), RunState::Running);
    assert_eq!(vm.address(), 1);
    vm.next_instruction().unwrap();
    assert_eq!(vm.address(), 2);
    vm.next_instruction().unwrap();
    assert_eq!(vm.state(), RunState::Halted);
    vm.next_instruction().unwrap();
    assert_eq!(vm.state(), RunState::Halted);
}
