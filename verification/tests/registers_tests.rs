use lc3_vm::vm::registers::{ConditionFlag, RegisterName, Registers, GENERAL_REGISTER_COUNT};
use lc3_vm::vm::Lc3Vm;

const NAMES: [RegisterName; 10] = [
    RegisterName::R0,
    RegisterName::R1,
    RegisterName::R2,
    RegisterName::R3,
    RegisterName::R4,
    RegisterName::R5,
    RegisterName::R6,
    RegisterName::R7,
    RegisterName::PC,
    RegisterName::Cond,
];

#[test]
fn new_registers_hold_zero() {
    let registers = Registers::new();
    for name in NAMES {
        assert_eq!(registers.get_reg_value(name), 0);
    }
    assert_eq!(registers.program_counter(), 0);
    assert_eq!(registers.cond_reg(), 0);
    assert_eq!(GENERAL_REGISTER_COUNT, 8);
}

#[test]
fn each_slot_keeps_its_own_word() {
    let mut registers = Registers::new();
    for (i, name) in NAMES.iter().enumerate() {
        registers.set_reg_value(*name, 0x1000 + i as u16);
    }
    for (i, name) in NAMES.iter().enumerate() {
        assert_eq!(registers.get_reg_value(*name), 0x1000 + i as u16);
    }
    assert_eq!(registers.program_counter(), 0x1008);
    assert_eq!(registers.cond_reg(), 0x1009);
    registers.set_reg_value(RegisterName::R3, 0xffff);
    assert_eq!(registers.get_reg_value(RegisterName::R3), 0xffff);
    assert_eq!(registers.get_reg_value(RegisterName::R2), 0x1002);
    assert_eq!(registers.get_reg_value(RegisterName::R4), 0x1004);
}

#[test]
fn register_names_by_number() {
    for (i, name) in NAMES.iter().enumerate() {
        assert_eq!(RegisterName::from(i as u16), Some(*name));
    }
    assert_eq!(RegisterName::from(10), None);
    assert_eq!(RegisterName::from(0xffff), None);
}

#[test]
fn program_counter_increments_and_wraps() {
    let mut registers = Registers::new();
    assert_eq!(registers.increment_program_counter(), 1);
    assert_eq!(registers.program_counter(), 1);
    registers.set_program_counter(0x3000);
    assert_eq!(registers.increment_program_counter(), 0x3001);
    registers.set_program_counter(0xfffe);
    assert_eq!(registers.increment_program_counter(), 0xffff);
    assert_eq!(registers.increment_program_counter(), 0x0000);
    assert_eq!(registers.program_counter(), 0x0000);
    // nothing else moved
    for name in &NAMES[..8] {
        assert_eq!(registers.get_reg_value(*name), 0);
    }
    assert_eq!(registers.cond_reg(), 0);
}

#[test]
fn condition_flag_of_a_word() {
    assert_eq!(ConditionFlag::parse_u16(0), ConditionFlag::Zro);
    assert_eq!(ConditionFlag::parse_u16(1), ConditionFlag::Pos);
    assert_eq!(ConditionFlag::parse_u16(0x7fff), ConditionFlag::Pos);
    assert_eq!(ConditionFlag::parse_u16(0x8000), ConditionFlag::Neg);
    assert_eq!(ConditionFlag::parse_u16(0xffff), ConditionFlag::Neg);
}

#[test]
fn condition_flag_encodings_are_one_hot() {
    assert_eq!(u16::from(ConditionFlag::Pos), 0b001);
    assert_eq!(u16::from(ConditionFlag::Zro), 0b010);
    assert_eq!(u16::from(ConditionFlag::Neg), 0b100);
    assert_eq!(ConditionFlag::from(0b001), Some(ConditionFlag::Pos));
    assert_eq!(ConditionFlag::from(0b010), Some(ConditionFlag::Zro));
    assert_eq!(ConditionFlag::from(0b100), Some(ConditionFlag::Neg));
    for other in [0u16, 3, 5, 6, 7, 8, 0x8000, 0xffff] {
        assert_eq!(ConditionFlag::from(other), None);
    }
    let mut registers = Registers::new();
    for flag in [ConditionFlag::Neg, ConditionFlag::Pos, ConditionFlag::Zro] {
        registers.set_cond_reg(flag);
        assert_eq!(registers.cond_reg(), u16::from(flag));
        assert_eq!(ConditionFlag::from(registers.cond_reg()), Some(flag));
    }
}

#[test]
fn new_machine_starts_at_the_default_origin() {
    let mut vm = Lc3Vm::new();
    assert_eq!(Lc3Vm::DEFAULT_PC_START, 0x3000);
    assert_eq!(vm.registers.program_counter(), 0x3000);
    assert_eq!(vm.registers.cond_reg(), 0);
    assert_eq!(vm.get_cond_flag(), None);
    for id in 0..8 {
        assert_eq!(vm.get_reg_val_by_id(id), 0);
    }
    assert!(vm.running());
    assert_eq!(vm.memory.read(0x3000), 0);
    assert!(vm.take_output().is_empty());
}

#[test]
fn registers_by_id_leave_the_condition_register_alone() {
    let mut vm = Lc3Vm::new();
    vm.registers.set_cond_reg(ConditionFlag::Pos);
    for id in 0..8u16 {
        vm.set_reg_val_by_id(id, 0x8000 + id);
    }
    for id in 0..8u16 {
        assert_eq!(vm.get_reg_val_by_id(id), 0x8000 + id);
    }
    assert_eq!(vm.get_cond_flag(), Some(ConditionFlag::Pos));
    assert_eq!(vm.registers.program_counter(), 0x3000);
    assert_eq!(vm.registers.get_reg_value(RegisterName::R5), 0x8005);
}
