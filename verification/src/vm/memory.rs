//! Memory: 65,536 words of storage, with five addresses that lead to device
//! registers instead.

use super::console::{print_result, Console};
use super::error::VmError;
use vstd::prelude::*;

verus! {

/// Number of words that a sixteen-bit address reaches.
pub const MEMORY_MAX: usize = 0x1_0000;

/// The word that a status register shows when its device is ready.
pub const READY: u16 = 0x8000;

/// The memory-mapped device registers. A read or a write at the address of
/// one of them goes to the device and not to storage.
#[derive(Clone, Copy, PartialEq, Eq, Structural, Debug)]
pub enum DeviceRegister {
    /// Keyboard status register. The ready bit (bit [15]) indicates if the
    /// keyboard has received a new character. Mapped to `0xFE00`.
    Kbsr,
    /// Keyboard data register. Bits [7:0] contain the last character typed on
    /// the keyboard. Mapped to `0xFE02`.
    Kbdr,
    /// Display status register. The ready bit (bit [15]) indicates if the
    /// display is ready to receive another character. Mapped to `0xFE04`.
    Dsr,
    /// Display data register. A character written in the low byte of this
    /// register is displayed on the screen. Mapped to `0xFE06`.
    Ddr,
    /// Machine control register. Bit [15] is the clock enable bit. When
    /// cleared, instruction processing stops. Mapped to `0xFFFE`.
    Mcr,
}

impl DeviceRegister {
    pub const KBSR_ADDR: u16 = 0xfe00;

    pub const KBDR_ADDR: u16 = 0xfe02;

    pub const DSR_ADDR: u16 = 0xfe04;

    pub const DDR_ADDR: u16 = 0xfe06;

    pub const MCR_ADDR: u16 = 0xfffe;

    /// The device register that `address` leads to, if it leads to one.
    pub open spec fn at(address: u16) -> Option<DeviceRegister> {
        if address == DeviceRegister::KBSR_ADDR {
            Some(DeviceRegister::Kbsr)
        } else if address == DeviceRegister::KBDR_ADDR {
            Some(DeviceRegister::Kbdr)
        } else if address == DeviceRegister::DSR_ADDR {
            Some(DeviceRegister::Dsr)
        } else if address == DeviceRegister::DDR_ADDR {
            Some(DeviceRegister::Ddr)
        } else if address == DeviceRegister::MCR_ADDR {
            Some(DeviceRegister::Mcr)
        } else {
            None
        }
    }

    pub fn from_address(address: u16) -> (device: Option<DeviceRegister>)
        ensures
            device == DeviceRegister::at(address),
    {
        if address == DeviceRegister::KBSR_ADDR {
            Some(DeviceRegister::Kbsr)
        } else if address == DeviceRegister::KBDR_ADDR {
            Some(DeviceRegister::Kbdr)
        } else if address == DeviceRegister::DSR_ADDR {
            Some(DeviceRegister::Dsr)
        } else if address == DeviceRegister::DDR_ADDR {
            Some(DeviceRegister::Ddr)
        } else if address == DeviceRegister::MCR_ADDR {
            Some(DeviceRegister::Mcr)
        } else {
            None
        }
    }
}

/// One word of storage.
#[derive(Clone, Copy)]
pub struct MemorySlice(u16);

impl View for MemorySlice {
    type V = u16;

    closed spec fn view(&self) -> u16 {
        self.0
    }
}

impl MemorySlice {
    pub fn read(&self) -> (value: u16)
        ensures
            value == self@,
    {
        self.0
    }

    pub fn write(&mut self, value: u16)
        ensures
            final(self)@ == value,
    {
        self.0 = value;
    }
}

/// The device registers whose value has to be kept between accesses.
pub struct MmapRegisters {
    kbdr: MemorySlice,
    mcr: MemorySlice,
}

impl MmapRegisters {
    /// The machine control register of a machine that was just built: the
    /// clock is enabled.
    pub const MCR_DEFAULT_VALUE: u16 = 0x8000;

    pub closed spec fn kbdr(&self) -> u16 {
        self.kbdr@
    }

    pub closed spec fn mcr(&self) -> u16 {
        self.mcr@
    }

    pub fn new() -> (registers: MmapRegisters)
        ensures
            registers.kbdr() == 0,
            registers.mcr() == MmapRegisters::MCR_DEFAULT_VALUE,
    {
        Self { kbdr: MemorySlice(0), mcr: MemorySlice(MmapRegisters::MCR_DEFAULT_VALUE) }
    }
}

/// The low eight bits of a word: the character that a word stands for.
pub open spec fn low_byte(value: u16) -> u8 {
    (value & 0xff) as u8
}

/// What a memory holds: storage, the two device latches and the console.
#[verifier::ext_equal]
pub struct MemoryView {
    /// The stored word of every address.
    pub cells: Seq<u16>,
    /// The last byte that a keyboard poll took, zero-extended.
    pub kbdr: u16,
    /// The machine control word.
    pub mcr: u16,
    /// Typed and not yet polled, oldest first.
    pub input: Seq<u8>,
    /// Printed and not yet collected, oldest first.
    pub output: Seq<u8>,
}

impl MemoryView {
    pub open spec fn wf(self) -> bool {
        self.cells.len() == MEMORY_MAX
    }

    /// Whether the memory is as it is built: storage holds 0 at every
    /// address, the keyboard data register holds 0, the clock is enabled, and
    /// nothing was typed or printed.
    pub open spec fn blank(self) -> bool {
        &&& self.wf()
        &&& forall|address: int| 0 <= address < MEMORY_MAX ==> self.cells[address] == 0
        &&& self.kbdr == 0
        &&& self.mcr == MmapRegisters::MCR_DEFAULT_VALUE
        &&& self.input.len() == 0
        &&& self.output.len() == 0
    }

    /// Whether bit 15 of the machine control word is set.
    pub open spec fn clock_enabled(self) -> bool {
        self.mcr >= 0x8000
    }

    /// The word that a read of a device register returns.
    pub open spec fn device_value(self, device: DeviceRegister) -> u16 {
        match device {
            DeviceRegister::Kbsr => if self.input.len() > 0 {
                READY
            } else {
                0
            },
            DeviceRegister::Kbdr => self.kbdr,
            DeviceRegister::Dsr => READY,
            DeviceRegister::Ddr => 0,
            DeviceRegister::Mcr => self.mcr,
        }
    }

    /// The memory after a read of a device register. Only a poll of the
    /// keyboard status register that finds a typed byte changes anything: the
    /// byte leaves the queue and is latched in the keyboard data register.
    pub open spec fn after_device_read(self, device: DeviceRegister) -> MemoryView {
        if device == DeviceRegister::Kbsr && self.input.len() > 0 {
            MemoryView { kbdr: self.input[0] as u16, input: self.input.skip(1), ..self }
        } else {
            self
        }
    }

    /// What a write of `value` to a device register returns: only a byte
    /// above `0x7F` for the display is refused.
    pub open spec fn device_write_result(self, device: DeviceRegister, value: u16) -> Result<
        (),
        VmError,
    > {
        if device == DeviceRegister::Ddr {
            print_result(low_byte(value))
        } else {
            Ok(())
        }
    }

    /// The memory after a write of `value` to a device register: the display
    /// data register prints the low byte, the machine control register keeps
    /// the word, the other three ignore it.
    pub open spec fn after_device_write(self, device: DeviceRegister, value: u16) -> MemoryView {
        match device {
            DeviceRegister::Ddr => self.after_print(low_byte(value)),
            DeviceRegister::Mcr => MemoryView { mcr: value, ..self },
            _ => self,
        }
    }

    /// The memory after an attempt to print `byte`.
    pub open spec fn after_print(self, byte: u8) -> MemoryView {
        if byte <= 0x7f {
            MemoryView { output: self.output.push(byte), ..self }
        } else {
            self
        }
    }

    /// The word that a read at `address` returns.
    pub open spec fn read_value(self, address: u16) -> u16 {
        match DeviceRegister::at(address) {
            None => self.cells[address as int],
            Some(device) => self.device_value(device),
        }
    }

    /// The memory after a read at `address`.
    pub open spec fn after_read(self, address: u16) -> MemoryView {
        match DeviceRegister::at(address) {
            None => self,
            Some(device) => self.after_device_read(device),
        }
    }

    /// What a write of `value` at `address` returns.
    pub open spec fn write_result(self, address: u16, value: u16) -> Result<(), VmError> {
        match DeviceRegister::at(address) {
            None => Ok(()),
            Some(device) => self.device_write_result(device, value),
        }
    }

    /// The memory after a write of `value` at `address`.
    pub open spec fn after_write(self, address: u16, value: u16) -> MemoryView {
        match DeviceRegister::at(address) {
            None => MemoryView { cells: self.cells.update(address as int, value), ..self },
            Some(device) => self.after_device_write(device, value),
        }
    }
}

pub struct Memory {
    mem_arr: [MemorySlice; MEMORY_MAX],
    mmap_registers: MmapRegisters,
    console: Console,
}

impl View for Memory {
    type V = MemoryView;

    closed spec fn view(&self) -> MemoryView {
        MemoryView {
            cells: self.mem_arr@.map_values(|slice: MemorySlice| slice@),
            kbdr: self.mmap_registers.kbdr(),
            mcr: self.mmap_registers.mcr(),
            input: self.console@.input,
            output: self.console@.output,
        }
    }
}

impl Memory {
    /// A memory of zeros with the clock enabled and an empty console.
    pub fn new() -> (memory: Memory)
        ensures
            memory@.blank(),
    {
        let mem_arr: [MemorySlice; MEMORY_MAX] = [MemorySlice(0); MEMORY_MAX];
        let mmap_registers = MmapRegisters::new();
        Self { mem_arr, mmap_registers, console: Console::new() }
    }

    /// Every memory holds one word for each address.
    pub proof fn lemma_view_wf(&self)
        ensures
            self@.wf(),
    {
    }

    /// Reads the value at the given memory address. If the address leads to
    /// a device register, the read action of that register is performed.
    pub fn read(&mut self, address: u16) -> (value: u16)
        ensures
            value == old(self)@.read_value(address),
            final(self)@ == old(self)@.after_read(address),
    {
        match DeviceRegister::from_address(address) {
            None => self.mem_arr[address as usize].read(),
            Some(device_register) => self.read_device_register(device_register),
        }
    }

    /// Calls the function that reads the given device register.
    pub fn read_device_register(&mut self, device_register: DeviceRegister) -> (value: u16)
        ensures
            value == old(self)@.device_value(device_register),
            final(self)@ == old(self)@.after_device_read(device_register),
    {
        match device_register {
            DeviceRegister::Kbsr => self.read_kbsr(),
            DeviceRegister::Kbdr => self.read_kbdr(),
            DeviceRegister::Dsr => self.read_dsr(),
            DeviceRegister::Ddr => self.read_ddr(),
            DeviceRegister::Mcr => self.read_mcr(),
        }
    }

    /// Writes the value at the given memory address. If the address leads to
    /// a device register, the write action of that register is performed.
    pub fn write(&mut self, address: u16, value: u16) -> (written: Result<(), VmError>)
        ensures
            written == old(self)@.write_result(address, value),
            final(self)@ == old(self)@.after_write(address, value),
    {
        match DeviceRegister::from_address(address) {
            None => {
                self.mem_arr[address as usize].write(value);
                Ok(())
            },
            Some(device_register) => self.write_device_register(device_register, value),
        }
    }

    /// Calls the function that writes the given device register. The
    /// keyboard registers and the display status register ignore writes.
    pub fn write_device_register(
        &mut self,
        device_register: DeviceRegister,
        value: u16,
    ) -> (written: Result<(), VmError>)
        ensures
            written == old(self)@.device_write_result(device_register, value),
            final(self)@ == old(self)@.after_device_write(device_register, value),
    {
        match device_register {
            DeviceRegister::Ddr => self.write_ddr(value),
            DeviceRegister::Mcr => {
                self.write_mcr(value);
                Ok(())
            },
            // Other registers don't have any specified write behaviour
            _ => Ok(()),
        }
    }

    /// Whether the clock-enable bit of the machine control register is 0.
    pub fn mcr_is_cleared(&self) -> (cleared: bool)
        ensures
            cleared == !self@.clock_enabled(),
    {
        let mcr_value = self.mmap_registers.mcr.read();
        let clock_bit = mcr_value >> 15;
        assert((mcr_value >> 15u16 == 0) <==> mcr_value < 0x8000) by (bit_vector);
        clock_bit == 0
    }

    /// Stops the clock: the machine control register becomes 0.
    pub fn clear_mcr(&mut self)
        ensures
            final(self)@ == (MemoryView { mcr: 0, ..old(self)@ }),
    {
        self.mmap_registers.mcr.write(0);
    }

    /// Polls the keyboard. A typed byte, if one waits, leaves the queue and
    /// is latched in the keyboard data register, and the ready bit is shown.
    /// Without one the register shows 0. The poll never waits.
    pub fn read_kbsr(&mut self) -> (status: u16)
        ensures
            status == old(self)@.device_value(DeviceRegister::Kbsr),
            final(self)@ == old(self)@.after_device_read(DeviceRegister::Kbsr),
    {
        match self.console.poll() {
            None => 0,
            Some(byte) => {
                self.mmap_registers.kbdr.write(byte as u16);
                READY
            },
        }
    }

    /// The byte that the last successful keyboard poll took.
    pub fn read_kbdr(&self) -> (value: u16)
        ensures
            value == self@.kbdr,
    {
        self.mmap_registers.kbdr.read()
    }

    /// The display is always ready.
    pub fn read_dsr(&self) -> (value: u16)
        ensures
            value == READY,
    {
        READY
    }

    /// The display data register is for writing: a read returns 0.
    pub fn read_ddr(&self) -> (value: u16)
        ensures
            value == 0,
    {
        0
    }

    pub fn read_mcr(&self) -> (value: u16)
        ensures
            value == self@.mcr,
    {
        self.mmap_registers.mcr.read()
    }

    /// Writes the machine control register. The machine stops once bit 15
    /// of it is 0.
    pub fn write_mcr(&mut self, value: u16)
        ensures
            final(self)@ == (MemoryView { mcr: value, ..old(self)@ }),
    {
        self.mmap_registers.mcr.write(value);
    }

    /// Prints the character in the low eight bits of `value`.
    pub fn write_ddr(&mut self, value: u16) -> (written: Result<(), VmError>)
        ensures
            written == old(self)@.device_write_result(DeviceRegister::Ddr, value),
            final(self)@ == old(self)@.after_device_write(DeviceRegister::Ddr, value),
    {
        assert(value & 0xff <= 0xff) by (bit_vector);
        let byte = (value & 0xff) as u8;
        self.console.print(byte)
    }

    /// Queues a byte typed at the keyboard.
    pub fn type_byte(&mut self, byte: u8)
        ensures
            final(self)@ == (MemoryView { input: old(self)@.input.push(byte), ..old(self)@ }),
    {
        self.console.type_byte(byte);
    }

    /// Whether a typed byte waits to be read.
    pub fn has_input(&self) -> (waiting: bool)
        ensures
            waiting == (self@.input.len() > 0),
    {
        self.console.has_input()
    }

    /// Takes the oldest typed byte, if there is one, past the keyboard
    /// registers.
    pub fn take_input(&mut self) -> (byte: Option<u8>)
        ensures
            old(self)@.input.len() == 0 ==> byte is None && final(self)@ == old(self)@,
            old(self)@.input.len() > 0 ==> byte == Some(old(self)@.input[0]) && final(self)@ == (
            MemoryView { input: old(self)@.input.skip(1), ..old(self)@ }),
    {
        self.console.poll()
    }

    /// Prints one character past the display registers.
    pub fn print(&mut self, byte: u8) -> (printed: Result<(), VmError>)
        ensures
            printed == print_result(byte),
            final(self)@ == old(self)@.after_print(byte),
    {
        self.console.print(byte)
    }

    /// Appends bytes to what is printed, as they are, past the display
    /// registers.
    pub fn write_all(&mut self, bytes: &[u8])
        ensures
            final(self)@ == (MemoryView { output: old(self)@.output + bytes@, ..old(self)@ }),
    {
        self.console.write_all(bytes);
    }

    /// Hands over everything printed so far and starts an empty buffer.
    pub fn take_output(&mut self) -> (printed: Vec<u8>)
        ensures
            printed@ == old(self)@.output,
            final(self)@ == (MemoryView { output: Seq::empty(), ..old(self)@ }),
    {
        self.console.take_output()
    }
}

} // verus!
