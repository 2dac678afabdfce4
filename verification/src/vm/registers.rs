//! The register file: eight general-purpose registers, the program counter
//! and the condition register.

use vstd::prelude::*;
use vstd::std_specs::convert::FromSpecImpl;

verus! {

/// One sixteen-bit register.
#[derive(Clone, Copy)]
pub struct Register(u16);

impl View for Register {
    type V = u16;

    closed spec fn view(&self) -> u16 {
        self.0
    }
}

impl Register {
    pub fn value(&self) -> (value: u16)
        ensures
            value == self@,
    {
        self.0
    }

    pub fn set(&mut self, value: u16)
        ensures
            final(self)@ == value,
    {
        self.0 = value;
    }
}

pub const GENERAL_REGISTER_COUNT: usize = 8;

/// The ten named slots of the register file.
#[derive(Clone, Copy, PartialEq, Eq, Structural, Debug)]
pub enum RegisterName {
    R0,
    R1,
    R2,
    R3,
    R4,
    R5,
    R6,
    R7,
    /// Program counter.
    PC,
    /// Condition register.
    Cond,
}

impl RegisterName {
    /// The number of the slot: `0..=7` for the general registers, `8` for
    /// the program counter, `9` for the condition register.
    pub open spec fn index(self) -> int {
        match self {
            RegisterName::R0 => 0,
            RegisterName::R1 => 1,
            RegisterName::R2 => 2,
            RegisterName::R3 => 3,
            RegisterName::R4 => 4,
            RegisterName::R5 => 5,
            RegisterName::R6 => 6,
            RegisterName::R7 => 7,
            RegisterName::PC => 8,
            RegisterName::Cond => 9,
        }
    }

    /// The slot with number `value`, if there is one.
    pub fn from(value: u16) -> (name: Option<RegisterName>)
        ensures
            name is Some <==> value <= 9,
            name matches Some(n) ==> n.index() == value,
    {
        match value {
            0 => Some(RegisterName::R0),
            1 => Some(RegisterName::R1),
            2 => Some(RegisterName::R2),
            3 => Some(RegisterName::R3),
            4 => Some(RegisterName::R4),
            5 => Some(RegisterName::R5),
            6 => Some(RegisterName::R6),
            7 => Some(RegisterName::R7),
            8 => Some(RegisterName::PC),
            9 => Some(RegisterName::Cond),
            _ => None,
        }
    }
}

/// The sign of the last value written to a general-purpose register.
#[derive(Clone, Copy, PartialEq, Eq, Structural, Debug)]
pub enum ConditionFlag {
    Pos,
    Zro,
    Neg,
}

impl ConditionFlag {
    /// The flag of a word: `Zro` for zero, `Neg` when the top bit is set,
    /// `Pos` otherwise.
    pub open spec fn of_word(value: u16) -> ConditionFlag {
        if value == 0 {
            ConditionFlag::Zro
        } else if value >= 0x8000 {
            ConditionFlag::Neg
        } else {
            ConditionFlag::Pos
        }
    }

    /// The one-hot word that stands for the flag in the condition register.
    pub open spec fn encoding(self) -> u16 {
        match self {
            ConditionFlag::Pos => 0b001,
            ConditionFlag::Zro => 0b010,
            ConditionFlag::Neg => 0b100,
        }
    }

    /// The flag that a condition-register word stands for, if it is one of
    /// the three one-hot encodings.
    pub open spec fn decode(value: u16) -> Option<ConditionFlag> {
        if value == 0b001 {
            Some(ConditionFlag::Pos)
        } else if value == 0b010 {
            Some(ConditionFlag::Zro)
        } else if value == 0b100 {
            Some(ConditionFlag::Neg)
        } else {
            None
        }
    }

    /// Given a `u16` value, determine what is the flag that will be set.
    pub fn parse_u16(value: u16) -> (flag: ConditionFlag)
        ensures
            flag == ConditionFlag::of_word(value),
    {
        if value == 0 {
            ConditionFlag::Zro
        } else {
            let most_sig_bit = value >> 15;
            assert((value >> 15u16 == 0) <==> value < 0x8000) by (bit_vector);
            if most_sig_bit == 0 {
                ConditionFlag::Pos
            } else {
                ConditionFlag::Neg
            }
        }
    }

    /// Reads a condition-register word back as a flag.
    pub fn from(value: u16) -> (flag: Option<ConditionFlag>)
        ensures
            flag == ConditionFlag::decode(value),
    {
        match value {
            0b001 => Some(ConditionFlag::Pos),
            0b010 => Some(ConditionFlag::Zro),
            0b100 => Some(ConditionFlag::Neg),
            _ => None,
        }
    }
}

impl From<ConditionFlag> for u16 {
    /// The word written to the condition register for the flag, as
    /// `from_spec` says.
    fn from(value: ConditionFlag) -> (word: u16) {
        match value {
            ConditionFlag::Pos => 0b001,
            ConditionFlag::Zro => 0b010,
            ConditionFlag::Neg => 0b100,
        }
    }
}

impl FromSpecImpl<ConditionFlag> for u16 {
    open spec fn obeys_from_spec() -> bool {
        true
    }

    open spec fn from_spec(value: ConditionFlag) -> u16 {
        value.encoding()
    }
}

/// What a register file holds.
#[verifier::ext_equal]
pub struct RegistersView {
    /// R0 to R7, in this order.
    pub general: Seq<u16>,
    pub pc: u16,
    pub cond: u16,
}

impl RegistersView {
    pub open spec fn wf(self) -> bool {
        self.general.len() == GENERAL_REGISTER_COUNT
    }

    /// The word in the slot `name`.
    pub open spec fn get(self, name: RegisterName) -> u16 {
        match name {
            RegisterName::PC => self.pc,
            RegisterName::Cond => self.cond,
            _ => self.general[name.index()],
        }
    }

    /// The register file after `value` is written to the slot `name`.
    pub open spec fn set(self, name: RegisterName, value: u16) -> RegistersView {
        match name {
            RegisterName::PC => RegistersView { pc: value, ..self },
            RegisterName::Cond => RegistersView { cond: value, ..self },
            _ => RegistersView { general: self.general.update(name.index(), value), ..self },
        }
    }
}

pub struct Registers {
    general_regs: [Register; GENERAL_REGISTER_COUNT],
    program_counter_reg: Register,
    /// Condition register stores condition flags about most recently executed calcs.
    condition_reg: Register,
}

impl View for Registers {
    type V = RegistersView;

    closed spec fn view(&self) -> RegistersView {
        RegistersView {
            general: self.general_regs@.map_values(|r: Register| r@),
            pc: self.program_counter_reg@,
            cond: self.condition_reg@,
        }
    }
}

impl Registers {
    pub fn new() -> (registers: Registers)
        ensures
            registers@.wf(),
            registers@.pc == 0,
            registers@.cond == 0,
            forall|i: int| 0 <= i < GENERAL_REGISTER_COUNT ==> registers@.general[i] == 0,
    {
        let general_regs: [Register; GENERAL_REGISTER_COUNT] = [Register(0);
            GENERAL_REGISTER_COUNT];
        let program_counter_reg = Register(0);
        let condition_reg = Register(0);
        Self { general_regs, program_counter_reg, condition_reg }
    }

    /// Every register file holds eight general-purpose registers.
    pub proof fn lemma_view_wf(&self)
        ensures
            self@.wf(),
    {
    }

    pub fn get_reg_value(&self, register: RegisterName) -> (value: u16)
        ensures
            value == self@.get(register),
    {
        match register {
            RegisterName::PC => self.program_counter_reg.value(),
            RegisterName::Cond => self.condition_reg.value(),
            RegisterName::R0 => self.general_regs[0].value(),
            RegisterName::R1 => self.general_regs[1].value(),
            RegisterName::R2 => self.general_regs[2].value(),
            RegisterName::R3 => self.general_regs[3].value(),
            RegisterName::R4 => self.general_regs[4].value(),
            RegisterName::R5 => self.general_regs[5].value(),
            RegisterName::R6 => self.general_regs[6].value(),
            RegisterName::R7 => self.general_regs[7].value(),
        }
    }

    pub fn set_reg_value(&mut self, register: RegisterName, value: u16)
        ensures
            final(self)@ == old(self)@.set(register, value),
    {
        match register {
            RegisterName::PC => self.program_counter_reg.set(value),
            RegisterName::Cond => self.condition_reg.set(value),
            RegisterName::R0 => self.general_regs[0].set(value),
            RegisterName::R1 => self.general_regs[1].set(value),
            RegisterName::R2 => self.general_regs[2].set(value),
            RegisterName::R3 => self.general_regs[3].set(value),
            RegisterName::R4 => self.general_regs[4].set(value),
            RegisterName::R5 => self.general_regs[5].set(value),
            RegisterName::R6 => self.general_regs[6].set(value),
            RegisterName::R7 => self.general_regs[7].set(value),
        }
    }

    pub fn program_counter(&self) -> (pc: u16)
        ensures
            pc == self@.pc,
    {
        self.program_counter_reg.value()
    }

    /// Advances the program counter by one, from `0xFFFF` to `0`.
    pub fn increment_program_counter(&mut self) -> (pc: u16)
        ensures
            pc == (old(self)@.pc + 1) % 0x10000,
            final(self)@ == (RegistersView { pc, ..old(self)@ }),
    {
        let new_pc_val = self.program_counter_reg.value().wrapping_add(1);
        self.program_counter_reg.set(new_pc_val);
        new_pc_val
    }

    pub fn set_program_counter(&mut self, value: u16)
        ensures
            final(self)@ == (RegistersView { pc: value, ..old(self)@ }),
    {
        self.program_counter_reg.set(value);
    }

    pub fn cond_reg(&self) -> (cond: u16)
        ensures
            cond == self@.cond,
    {
        self.condition_reg.value()
    }

    pub fn set_cond_reg(&mut self, flag: ConditionFlag)
        ensures
            final(self)@ == (RegistersView { cond: flag.encoding(), ..old(self)@ }),
    {
        self.condition_reg.set(flag.into());
    }
}

} // verus!
