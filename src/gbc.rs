//! The machine: a CPU and its bus, built from a cartridge image and an optional
//! boot ROM, stepped one instruction at a time.
use vstd::prelude::*;
use crate::apu::StereoFrame;
use crate::bus::IO;
use crate::cpu::{CPU, CpuError};
use crate::header::CartridgeError;
use crate::joypad::Button;
use crate::registers::Reg16;

verus! {

/// Upper bound on boot-ROM steps before the core takes over regardless.
pub const BOOT_STEP_LIMIT: u64 = 50_000_000;

/// Why a machine could not be started.
#[derive(Clone, Copy, PartialEq, Eq, Debug)]
pub enum GbcError {
    Cartridge(CartridgeError),
    Cpu(CpuError),
}

pub struct GBC {
    pub cpu: CPU,
    pub io: IO,
}

impl GBC {
    pub open spec fn wf(&self) -> bool {
        self.cpu.wf() && self.io.wf()
    }

    /// Loads a cartridge. With a 256-byte (DMG) or 2304-byte (CGB) boot ROM, runs it
    /// until it hands over (PC at 0x0100, or the overlay unmapped through 0xFF50)
    /// and then unmaps it; it fails then only on an unused opcode in the boot code; with any other boot image
    /// the registers start in the state the DMG boot ROM leaves them in.
    pub fn new(rom: Vec<u8>, boot_rom: Vec<u8>) -> (r: Result<Self, GbcError>)
        ensures
            r matches Ok(g) ==> g.wf() && !g.io.boot_rom_active && !g.io.should_close,
            crate::header::header_error(rom@) is Some ==> r == Err::<Self, GbcError>(
                GbcError::Cartridge(crate::header::header_error(rom@).unwrap()),
            ),
            crate::header::header_error(rom@) is None && !crate::mbc::supported_type(rom@[0x147]) ==> r
                == Err::<Self, GbcError>(GbcError::Cartridge(CartridgeError::UnsupportedType(rom@[0x147]))),
            crate::header::header_error(rom@) is None && crate::mbc::supported_type(rom@[0x147]) && !(boot_rom@.len()
                == 0x100 || boot_rom@.len() == 0x900) ==> r is Ok,
            crate::header::header_error(rom@) is None && crate::mbc::supported_type(rom@[0x147]) ==> (r is Ok || r
                is Err && r->Err_0 is Cpu),
            r matches Err(GbcError::Cpu(CpuError::IllegalOpcode { opcode, pc })) ==> crate::cpu::illegal_opcode(opcode),
            !(boot_rom@.len() == 0x100 || boot_rom@.len() == 0x900) ==> (r matches Ok(g) ==> {
                &&& g.cpu.regs.pc == 0x0100 && g.cpu.regs.sp == 0xFFFE
                &&& g.cpu.regs.spec_get16(Reg16::AF) == (if g.io.in_cgb { 0x1180u16 } else { 0x01B0u16 })
                &&& g.cpu.regs.spec_get16(Reg16::BC) == 0x0013
                &&& g.cpu.regs.spec_get16(Reg16::DE) == 0x00D8
                &&& g.cpu.regs.spec_get16(Reg16::HL) == 0x014D
            }),
    {
        let mut io = match IO::new(rom) {
            Ok(io) => io,
            Err(e) => return Err(GbcError::Cartridge(e)),
        };
        let mut cpu = CPU::new();
        let mut boot = boot_rom;
        if boot.len() == 0x100 || boot.len() == 0x900 {
            io.swap_boot_rom(&mut boot);
            let run = cpu.emulate_boot_rom(&mut io, BOOT_STEP_LIMIT);
            io.swap_boot_rom(&mut boot);
            io.boot_rom_active = false;
            if let Err(e) = run {
                return Err(GbcError::Cpu(e));
            }
        } else {
            cpu.regs.set16(Reg16::AF, if io.in_cgb { 0x1180 } else { 0x01B0 });
            cpu.regs.set16(Reg16::BC, 0x0013);
            cpu.regs.set16(Reg16::DE, 0x00D8);
            cpu.regs.set16(Reg16::HL, 0x014D);
            cpu.regs.sp = 0xFFFE;
            cpu.regs.pc = 0x0100;
            io.write(0xFF40, 0x91);
            io.write(0xFF47, 0xFC);
        }
        io.should_close = false;
        Ok(GBC { cpu, io })
    }

    /// Runs one CPU step; it fails only on an unused opcode.
    pub fn emulate(&mut self) -> (r: Result<(), CpuError>)
        requires
            old(self).wf(),
        ensures
            final(self).wf(),
            old(self).cpu.step(old(self).io, final(self).cpu, final(self).io, r),
            r matches Err(CpuError::IllegalOpcode { opcode, pc }) ==> crate::cpu::illegal_opcode(opcode),
            old(self).io.ppu.gdma_remaining != 0 ==> final(self).cpu == old(self).cpu && r is Ok,
    {
        self.cpu.emulate(&mut self.io)
    }

    pub fn is_running(&self) -> (r: bool)
        ensures
            r == !self.io.should_close,
    {
        !self.io.should_close
    }

    /// Marks the machine as stopped at the host's request.
    pub fn request_close(&mut self)
        ensures
            final(self).io.should_close,
            final(self).cpu == old(self).cpu,
            final(self).io.wf() == old(self).io.wf(),
    {
        self.io.should_close = true;
    }

    /// Button events from the host.
    pub fn update_inputs(&mut self, events: &Vec<(Button, bool)>)
        requires
            old(self).wf(),
        ensures
            final(self).wf(),
    {
        self.io.update_inputs(events);
    }

    /// Bytes the program sent over the serial port since the last call.
    pub fn take_serial_output(&mut self) -> (r: Vec<u8>)
        requires
            old(self).wf(),
        ensures
            final(self).wf(),
            r@ == old(self).io.serial.out@,
    {
        self.io.serial.take_output()
    }

    /// Audio frames mixed since the last call.
    pub fn take_samples(&mut self) -> (r: Vec<StereoFrame>)
        requires
            old(self).wf(),
        ensures
            final(self).wf(),
            r@ == old(self).io.apu.samples@,
    {
        self.io.apu.take_samples()
    }

    /// Whether a frame was completed since the last call.
    pub fn take_frame_ready(&mut self) -> (r: bool)
        requires
            old(self).wf(),
        ensures
            final(self).wf(),
            r == old(self).io.ppu.frame_ready,
    {
        self.io.ppu.take_frame_ready()
    }

    /// The 160×144 row-major RGB framebuffer.
    pub fn framebuffer(&self) -> (r: &Vec<u8>)
        ensures
            r@ == self.io.ppu.pixels@,
    {
        &self.io.ppu.pixels
    }

    /// Whether the machine runs at CGB double speed.
    pub fn double_speed(&self) -> (r: bool)
        ensures
            r == self.io.double_speed,
    {
        self.io.double_speed
    }
}

} // verus!
