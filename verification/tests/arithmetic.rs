//! The shared byte arithmetic: adds, subtracts, decimal adjust, and the
//! call stack.

use chips::cpu::{execute_add, execute_add_carry, execute_daa, execute_sub, execute_sub_carry};
use chips::cpu::CallStack;

#[test]
fn add_reports_sum_carry_and_nibble_carry() {
    assert_eq!(execute_add(0x18, 0x19), (0x31, false, true));
    assert_eq!(execute_add(0x13, 0x14), (0x27, false, false));
    assert_eq!(execute_add(0x83, 0x94), (0x17, true, false));
    assert_eq!(execute_add(0x88, 0x99), (0x21, true, true));
    assert_eq!(execute_add(0xFF, 0x01), (0x00, true, true));
    assert_eq!(execute_add(0x00, 0x00), (0x00, false, false));
}

#[test]
fn add_carry_folds_the_incoming_carry() {
    assert_eq!(execute_add_carry(0x18, 0x19, true), (0x32, false, true));
    assert_eq!(execute_add_carry(0x18, 0x19, false), (0x31, false, true));
    assert_eq!(execute_add_carry(0xFF, 0x00, true), (0x00, true, true));
}

#[test]
fn sub_reports_borrow_and_nibble_carry() {
    assert_eq!(execute_sub(0x5, 0x4), (0x1, false, false));
    assert_eq!(execute_sub(0x00, 0x01), (0xFF, true, true));
    assert_eq!(execute_sub(0x10, 0x01), (0x0F, false, true));
}

#[test]
fn sub_carry_folds_the_incoming_borrow() {
    assert_eq!(execute_sub_carry(0x5, 0x4, true), (0x0, false, false));
    assert_eq!(execute_sub_carry(0x5, 0x4, false), (0x1, false, false));
    assert_eq!(execute_sub_carry(0x00, 0x00, true), (0xFF, true, true));
}

#[test]
fn daa_adjusts_binary_sums_to_decimal() {
    // 0x38 + 0x45 = 0x7D in binary; decimal 38 + 45 = 83.
    let (num, carry, nibble_carry) = execute_add(0x38, 0x45);
    assert_eq!(num, 0x7D);
    assert_eq!(execute_daa(num, carry, nibble_carry), (0x83, false, true));

    let (num, carry, nibble_carry) = execute_add(0x38, 0x41);
    assert_eq!(num, 0x79);
    assert_eq!(execute_daa(num, carry, nibble_carry), (0x79, false, false));

    // 83 + 54 = 137: the hundred becomes the outgoing carry.
    let (num, carry, nibble_carry) = execute_add(0x83, 0x54);
    assert_eq!(num, 0xD7);
    assert_eq!(execute_daa(num, carry, nibble_carry), (0x37, true, false));

    let (num, carry, nibble_carry) = execute_add(0x09, 0x08);
    assert_eq!(num, 0x11);
    assert_eq!(execute_daa(num, carry, nibble_carry), (0x17, false, true));
}

#[test]
fn daa_leaves_normalized_bytes_alone() {
    // Both nibbles at most nine, no pending carries, byte at most 0x90:
    // a fixed point.
    assert_eq!(execute_daa(0x42, false, false), (0x42, false, false));
    assert_eq!(execute_daa(0x90, false, false), (0x90, false, false));
    assert_eq!(execute_daa(0x09, false, false), (0x09, false, false));
    assert_eq!(execute_daa(0x00, false, false), (0x00, false, false));
}

#[test]
fn daa_past_ninety_is_not_a_fixed_point() {
    // 0x91 has both nibbles decimal, yet the whole-byte test reads
    // "exceeds 0x90" and the correction fires.
    assert_eq!(execute_daa(0x91, false, false), (0xF1, true, false));
}

#[test]
fn call_stack_pops_in_reverse_order() {
    let mut stack = CallStack::new();
    stack.push(0x111);
    stack.push(0x222);
    assert_eq!(stack.pop(), Some(0x222));
    assert_eq!(stack.pop(), Some(0x111));
    assert_eq!(stack.pop(), None);
}

#[test]
fn call_stack_overwrites_the_oldest_on_wraparound() {
    // Five pushes against the four-deep buffer: the last four come back
    // newest first, the very first is gone for good.
    let mut stack = CallStack::new();
    stack.push(0xA0);
    stack.push(0xA1);
    stack.push(0xA2);
    stack.push(0xA3);
    stack.push(0xA4);
    assert_eq!(stack.pop(), Some(0xA4));
    assert_eq!(stack.pop(), Some(0xA3));
    assert_eq!(stack.pop(), Some(0xA2));
    assert_eq!(stack.pop(), Some(0xA1));
    // The fifth pop walks back onto the overwritten slot: the first
    // address is unrecoverable.
    assert_eq!(stack.pop(), Some(0xA4));
    assert_eq!(stack.pop(), None);
}
