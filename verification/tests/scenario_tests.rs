use lc3_vm::vm::registers::ConditionFlag;
use lc3_vm::vm::{Lc3Vm, Outcome};

#[test]
#[allow(clippy::unusual_byte_groupings)]
fn add_register_mode_scenario() {
    let mut vm = Lc3Vm::new();
    vm.set_reg_val_by_id(3, 5);
    vm.set_reg_val_by_id(4, 3);
    // ADD R2, R3, R4
    assert_eq!(vm.run_op(0b0001_010_011_0_00_100), Ok(Outcome::Completed));
    assert_eq!(vm.get_reg_val_by_id(2), 8);
    assert_eq!(vm.get_cond_flag(), Some(ConditionFlag::Pos));
    assert_eq!(vm.get_reg_val_by_id(3), 5);
    assert_eq!(vm.get_reg_val_by_id(4), 3);
}

#[test]
#[allow(clippy::unusual_byte_groupings)]
fn add_immediate_negative_scenario() {
    let mut vm = Lc3Vm::new();
    vm.set_reg_val_by_id(0, 3);
    // ADD R1, R0, -5
    assert_eq!(vm.run_op(0b0001_001_000_1_11011), Ok(Outcome::Completed));
    assert_eq!(vm.get_reg_val_by_id(1), 0xfffe);
    assert_eq!(vm.get_cond_flag(), Some(ConditionFlag::Neg));
}

#[test]
#[allow(clippy::unusual_byte_groupings)]
fn ldi_scenario() {
    let mut vm = Lc3Vm::new();
    vm.memory.write(0x3050, 0x3085).unwrap();
    vm.memory.write(0x3085, 1234).unwrap();
    vm.registers.set_program_counter(0x3000);
    // LDI R2, +80
    assert_eq!(vm.run_op(0b1010_010_001010000), Ok(Outcome::Completed));
    assert_eq!(vm.get_reg_val_by_id(2), 1234);
    assert_eq!(vm.get_cond_flag(), Some(ConditionFlag::Pos));
}

#[test]
#[allow(clippy::unusual_byte_groupings)]
fn br_z_scenario() {
    let instr: u16 = 0b0000_010_001010000;
    let mut vm = Lc3Vm::new();
    vm.registers.set_cond_reg(ConditionFlag::Zro);
    vm.registers.set_program_counter(0x3000);
    assert_eq!(vm.run_op(instr), Ok(Outcome::Completed));
    assert_eq!(vm.registers.program_counter(), 0x3050);

    for flag in [ConditionFlag::Pos, ConditionFlag::Neg] {
        let mut vm = Lc3Vm::new();
        vm.registers.set_cond_reg(flag);
        vm.registers.set_program_counter(0x3000);
        assert_eq!(vm.run_op(instr), Ok(Outcome::Completed));
        assert_eq!(vm.registers.program_counter(), 0x3000);
    }
}

#[test]
#[allow(clippy::unusual_byte_groupings)]
fn jsr_scenario() {
    let mut vm = Lc3Vm::new();
    vm.registers.set_program_counter(0x3000);
    // JSR +133
    assert_eq!(vm.run_op(0b0100_1_00010000101), Ok(Outcome::Completed));
    assert_eq!(vm.registers.program_counter(), 0x3085);
    assert_eq!(vm.get_reg_val_by_id(7), 0x3000);
    // no condition code was set
    assert_eq!(vm.registers.cond_reg(), 0);
}

#[test]
fn puts_trap_scenario() {
    let mut vm = Lc3Vm::new();
    let text = "Hello world!";
    let mut address: u16 = 0x303b;
    for byte in text.bytes() {
        vm.memory.write(address, byte as u16).unwrap();
        address += 1;
    }
    vm.memory.write(address, 0).unwrap();
    vm.set_reg_val_by_id(0, 0x303b);
    assert_eq!(vm.puts_troutine(), Ok(()));
    assert_eq!(vm.take_output(), text.as_bytes().to_vec());
    // through the instruction: TRAP x22
    assert_eq!(vm.run_op(0xf022), Ok(Outcome::Completed));
    assert_eq!(vm.take_output(), text.as_bytes().to_vec());
    assert_eq!(vm.get_reg_val_by_id(0), 0x303b);
    assert_eq!(vm.get_reg_val_by_id(7), 0x3000);
}
