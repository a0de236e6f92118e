//! Behavioural tests of the virtual CPU, driven through its public API.

use tinyvm::errors::VmError;
use tinyvm::machine::{Core, StepEffect, DEV_CHAR, MEM_SIZE};
use tinyvm::registers::Registers;

#[test]
fn registers_start_zero() {
    let regs = Registers::new();
    assert_eq!(regs.ip, 0);
    assert_eq!(regs.rp, 0);
    for r in 0..4u8 {
        assert_eq!(regs.get(r), Ok(0));
    }
}

#[test]
fn register_set_then_get() {
    let mut regs = Registers::new();
    for r in 0..4u8 {
        assert_eq!(regs.set(r, 10 + r), Ok(()));
    }
    for r in 0..4u8 {
        assert_eq!(regs.get(r), Ok(10 + r));
    }
}

#[test]
fn register_selector_out_of_range() {
    let mut regs = Registers::new();
    regs.set(2, 0x55).unwrap();
    assert_eq!(regs.get(4), Err(VmError::RegisterError));
    assert_eq!(regs.set(7, 1), Err(VmError::RegisterError));
    // The refused write left the file untouched.
    assert_eq!(regs.get(2), Ok(0x55));
}

#[test]
fn new_core_is_blank() {
    let core = Core::new();
    assert_eq!(core.memory.len(), MEM_SIZE);
    assert!(core.memory.iter().all(|&b| b == 0));
    assert!(!core.is_halted);
    assert_eq!(core.regs, Registers::new());
}

#[test]
fn load_exact_capacity_reaches_last_address() {
    let mut core = Core::new();
    let mut image = vec![0u8; MEM_SIZE];
    image[MEM_SIZE - 1] = 0xAB;
    assert_eq!(core.load(&image), Ok(()));
    assert_eq!(core.memory[MEM_SIZE - 1], 0xAB);
}

#[test]
fn load_one_byte_too_large_is_refused() {
    let mut core = Core::new();
    let image = vec![0x11u8; MEM_SIZE + 1];
    assert_eq!(core.load(&image), Err(VmError::LoadError));
    // Nothing was copied.
    assert!(core.memory.iter().all(|&b| b == 0));
}

#[test]
fn halt_sets_flag_and_advances_ip() {
    let mut core = Core::new();
    // An all-zero memory starts with the HALT opcode.
    let effect = core.step();
    assert_eq!(effect, StepEffect::Halted);
    assert!(core.is_halted);
    assert_eq!(core.regs.ip, 1);
    assert_eq!(core.regs.rp, 0);
}

#[test]
fn step_on_halted_core_is_a_no_op() {
    let mut core = Core::new();
    core.step();
    assert!(core.is_halted);
    let ip = core.regs.ip;
    assert_eq!(core.step(), StepEffect::Halted);
    assert_eq!(core.regs.ip, ip);
}

#[test]
fn and_or_xor_nand_follow_truth_tables() {
    // instr = opcode nibble, then selector a (bits 3..2), selector b (1..0).
    let cases: [(u8, fn(u8, u8) -> u8); 4] = [
        (0x71, |a, b| a & b),         // AND r0, r1
        (0x81, |a, b| a | b),         // OR r0, r1
        (0x91, |a, b| a ^ b),         // XOR r0, r1
        (0x61, |a, b| !(a & b)),      // NAND r0, r1
    ];
    for (instr, table) in cases {
        for &(x, y) in &[(0x00u8, 0x00u8), (0xFF, 0x00), (0xA5, 0x5A), (0xCC, 0xAA), (0xFF, 0xFF)] {
            let mut core = Core::new();
            core.load(&vec![instr]).unwrap();
            core.regs.set(0, x).unwrap();
            core.regs.set(1, y).unwrap();
            assert_eq!(core.step(), StepEffect::Ran);
            assert_eq!(core.regs.get(0), Ok(table(x, y)));
            // The second operand register is untouched.
            assert_eq!(core.regs.get(1), Ok(y));
            assert_eq!(core.regs.ip, 1);
            assert_eq!(core.regs.rp, 0);
            assert!(!core.is_halted);
        }
    }
}

#[test]
fn single_shifts_and_rotates() {
    // (instr, input, expected): SHL, SHR, ROL, ROR on r1 (selector a = 1).
    let cases = [
        (0x24u8, 0b1000_0001u8, 0b0000_0010u8), // SHL drops bit 7
        (0x34, 0b1000_0001, 0b0100_0000),       // SHR drops bit 0
        (0x44, 0b1000_0001, 0b0000_0011),       // ROL wraps bit 7 to bit 0
        (0x54, 0b1000_0001, 0b1100_0000),       // ROR wraps bit 0 to bit 7
    ];
    for (instr, input, expected) in cases {
        let mut core = Core::new();
        core.load(&vec![instr]).unwrap();
        core.regs.set(1, input).unwrap();
        assert_eq!(core.step(), StepEffect::Ran);
        assert_eq!(core.regs.get(1), Ok(expected));
        assert_eq!(core.regs.ip, 1);
    }
}

#[test]
fn rotations_have_period_eight() {
    for instr in [0x40u8, 0x50u8] {
        // Eight ROL r0 (or ROR r0) in a row, then HALT.
        let image = vec![instr; 8];
        let mut core = Core::new();
        core.load(&image).unwrap();
        core.regs.set(0, 0xB1).unwrap();
        for _ in 0..8 {
            assert_eq!(core.step(), StepEffect::Ran);
        }
        assert_eq!(core.regs.get(0), Ok(0xB1));
        assert_eq!(core.step(), StepEffect::Halted);
    }
}

#[test]
fn eight_shifts_collapse_to_zero() {
    for instr in [0x20u8, 0x30u8] {
        let image = vec![instr; 8];
        let mut core = Core::new();
        core.load(&image).unwrap();
        core.regs.set(0, 0xB1).unwrap();
        for _ in 0..8 {
            core.step();
        }
        assert_eq!(core.regs.get(0), Ok(0));
    }
}

#[test]
fn load_reads_storage_and_advances_ip_by_three() {
    // LOAD r0, [0x0004]; HALT; 0x7E at offset 4.
    let mut core = Core::new();
    core.load(&vec![0xA0, 0x00, 0x04, 0x00, 0x7E]).unwrap();
    assert_eq!(core.step(), StepEffect::Ran);
    assert_eq!(core.regs.get(0), Ok(0x7E));
    assert_eq!(core.regs.ip, 3);
    assert_eq!(core.regs.rp, 0);
}

#[test]
fn stor_writes_storage_and_advances_ip_by_three() {
    // STOR r2, [0x0010].
    let mut core = Core::new();
    core.load(&vec![0xB8, 0x00, 0x10]).unwrap();
    core.regs.set(2, 0x42).unwrap();
    assert_eq!(core.step(), StepEffect::Ran);
    assert_eq!(core.memory[0x10], 0x42);
    assert_eq!(core.regs.ip, 3);
}

#[test]
fn device_write_emits_without_touching_memory() {
    // STOR r0, [0xFFFF].
    let mut core = Core::new();
    core.load(&vec![0xB0, 0xFF, 0xFF]).unwrap();
    core.regs.set(0, b'Z').unwrap();
    assert_eq!(core.step(), StepEffect::Output(b'Z'));
    // The backing byte behind the device address is untouched.
    assert_eq!(core.memory[DEV_CHAR as usize], 0);
    assert_eq!(core.regs.ip, 3);
}

#[test]
fn device_read_asks_the_driver() {
    // LOAD r3, [0xFFFF].
    let mut core = Core::new();
    core.load(&vec![0xAC, 0xFF, 0xFF]).unwrap();
    core.regs.set(3, 0x77).unwrap();
    assert_eq!(core.step(), StepEffect::AwaitInput(3));
    // The register waits for the driver; the step itself left it alone.
    assert_eq!(core.regs.get(3), Ok(0x77));
    assert_eq!(core.regs.ip, 3);
    // The driver answers with one input byte.
    core.regs.set(3, b'k').unwrap();
    assert_eq!(core.regs.get(3), Ok(b'k'));
}

#[test]
fn mem_access_keeps_device_and_storage_apart() {
    let mut core = Core::new();
    assert_eq!(core.mem_write(5, 0x33), None);
    assert_eq!(core.memory[5], 0x33);
    assert_eq!(core.mem_read(5), Some(0x33));
    assert_eq!(core.mem_write(DEV_CHAR, 0x44), Some(0x44));
    assert_eq!(core.memory[DEV_CHAR as usize], 0);
    assert_eq!(core.mem_read(DEV_CHAR), None);
}

#[test]
fn breq_taken_and_not_taken() {
    // BREQ r0, r1 -> 0x0123.
    let image = vec![0xC1, 0x01, 0x23];
    let mut core = Core::new();
    core.load(&image).unwrap();
    core.regs.set(0, 9).unwrap();
    core.regs.set(1, 9).unwrap();
    assert_eq!(core.step(), StepEffect::Ran);
    assert_eq!(core.regs.ip, 0x0123);
    assert_eq!(core.regs.rp, 0);

    let mut core = Core::new();
    core.load(&image).unwrap();
    core.regs.set(0, 9).unwrap();
    core.regs.set(1, 8).unwrap();
    assert_eq!(core.step(), StepEffect::Ran);
    assert_eq!(core.regs.ip, 3);
    assert_eq!(core.regs.rp, 0);
}

#[test]
fn brne_taken_and_not_taken() {
    // BRNE r2, r3 -> 0x0200.
    let image = vec![0xDB, 0x02, 0x00];
    let mut core = Core::new();
    core.load(&image).unwrap();
    core.regs.set(2, 1).unwrap();
    core.regs.set(3, 2).unwrap();
    assert_eq!(core.step(), StepEffect::Ran);
    assert_eq!(core.regs.ip, 0x0200);

    let mut core = Core::new();
    core.load(&image).unwrap();
    core.regs.set(2, 2).unwrap();
    core.regs.set(3, 2).unwrap();
    assert_eq!(core.step(), StepEffect::Ran);
    assert_eq!(core.regs.ip, 3);
}

#[test]
fn creq_records_return_address_only_when_taken() {
    // CREQ r0, r1 -> 0x0040.
    let image = vec![0xE1, 0x00, 0x40];
    let mut core = Core::new();
    core.load(&image).unwrap();
    assert_eq!(core.step(), StepEffect::Ran);
    // r0 == r1 == 0: taken. rp holds the address after the operand.
    assert_eq!(core.regs.ip, 0x0040);
    assert_eq!(core.regs.rp, 3);

    let mut core = Core::new();
    core.load(&image).unwrap();
    core.regs.set(0, 1).unwrap();
    assert_eq!(core.step(), StepEffect::Ran);
    assert_eq!(core.regs.ip, 3);
    assert_eq!(core.regs.rp, 0);
}

#[test]
fn crne_records_return_address_only_when_taken() {
    // CRNE r0, r1 -> 0x0040.
    let image = vec![0xF1, 0x00, 0x40];
    let mut core = Core::new();
    core.load(&image).unwrap();
    core.regs.set(0, 1).unwrap();
    assert_eq!(core.step(), StepEffect::Ran);
    assert_eq!(core.regs.ip, 0x0040);
    assert_eq!(core.regs.rp, 3);

    let mut core = Core::new();
    core.load(&image).unwrap();
    assert_eq!(core.step(), StepEffect::Ran);
    assert_eq!(core.regs.ip, 3);
    assert_eq!(core.regs.rp, 0);
}

#[test]
fn ret_jumps_to_rp_and_keeps_it() {
    let mut core = Core::new();
    core.load(&vec![0x10]).unwrap();
    core.regs.rp = 0x1234;
    assert_eq!(core.step(), StepEffect::Ran);
    assert_eq!(core.regs.ip, 0x1234);
    assert_eq!(core.regs.rp, 0x1234);
    assert!(!core.is_halted);
}

#[test]
fn call_then_ret_resumes_after_the_call() {
    // CREQ r0, r0 -> 6 (always taken); HALT at 3; then at 6: RET.
    let mut core = Core::new();
    core.load(&vec![0xE0, 0x00, 0x06, 0x00, 0x00, 0x00, 0x10]).unwrap();
    assert_eq!(core.step(), StepEffect::Ran);
    assert_eq!(core.regs.ip, 6);
    assert_eq!(core.regs.rp, 3);
    assert_eq!(core.step(), StepEffect::Ran);
    assert_eq!(core.regs.ip, 3);
    assert_eq!(core.step(), StepEffect::Halted);
    assert!(core.is_halted);
}

#[test]
fn instruction_pointer_wraps_around() {
    // A HALT as the very last byte of memory: fetching it wraps ip to 0.
    let mut core = Core::new();
    let mut image = vec![0u8; MEM_SIZE];
    image[MEM_SIZE - 1] = 0x00;
    core.load(&image).unwrap();
    core.regs.ip = 0xFFFF;
    assert_eq!(core.step(), StepEffect::Halted);
    assert_eq!(core.regs.ip, 0);
}

#[test]
fn end_to_end_prints_one_character() {
    // LOAD r0, [7]; STOR r0, [0xFFFF]; HALT; data byte 0x41 at offset 7.
    let image = vec![0xA0, 0x00, 0x07, 0xB0, 0xFF, 0xFF, 0x00, 0x41];
    let mut core = Core::new();
    core.load(&image).unwrap();
    let mut printed = Vec::new();
    while !core.is_halted {
        match core.step() {
            StepEffect::Output(b) => printed.push(b),
            StepEffect::AwaitInput(_) => panic!("no input expected"),
            StepEffect::Ran | StepEffect::Halted => {}
        }
    }
    assert_eq!(printed, vec![0x41]);
    assert!(core.is_halted);
}
