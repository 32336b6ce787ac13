use vstd::prelude::*;
use crate::cart::hw_mbc5::HwMbc5;
use crate::error::EmuError;
use crate::other::mode::CompatibilityMode;

verus! {

/// The fields of a cartridge header that the core uses.
#[derive(Clone, Copy, Debug, PartialEq, Eq, Structural)]
pub struct Header {
    pub compatibility_mode: CompatibilityMode,
    /// Byte 0x0147: which controller the cartridge has.
    pub cart_type: u8,
    /// Byte 0x0148: the ROM is `0x8000 << rom_size_code` bytes.
    pub rom_size_code: u8,
    /// Byte 0x0149.
    pub ram_size_code: u8,
}

/// The number of 8 KiB RAM banks that a header's RAM size byte declares.
pub open spec fn spec_ram_banks(code: u8) -> nat {
    if code == 2 {
        1
    } else if code == 3 {
        4
    } else if code == 4 {
        16
    } else if code == 5 {
        8
    } else {
        0
    }
}

/// The number of ROM bytes that a header's ROM size byte declares:
/// `0x8000 << code` for the codes 0 to 8.
pub open spec fn spec_rom_size(code: u8) -> nat {
    match code {
        0 => 0x8000,
        1 => 0x10000,
        2 => 0x20000,
        3 => 0x40000,
        4 => 0x80000,
        5 => 0x100000,
        6 => 0x200000,
        7 => 0x400000,
        _ => 0x800000,
    }
}

/// Whether `rom` is a ROM image that the loader accepts: a whole header, a
/// known size code, and at least the bytes that the header claims.
pub open spec fn spec_header_ok(rom: Seq<u8>) -> bool {
    rom.len() >= 0x150 && rom[0x148] <= 8 && rom.len() >= spec_rom_size(rom[0x148])
}

impl Header {
    pub fn compatibility_mode(&self) -> (r: CompatibilityMode)
        ensures
            r == self.compatibility_mode,
    {
        self.compatibility_mode
    }

    /// The number of 8 KiB RAM banks that the header declares.
    pub fn ram_banks(&self) -> (r: usize)
        ensures
            r == spec_ram_banks(self.ram_size_code),
    {
        match self.ram_size_code {
            2 => 1,
            3 => 4,
            4 => 16,
            5 => 8,
            _ => 0,
        }
    }

    /// The number of ROM bytes that the header declares.
    pub fn rom_size(&self) -> (r: usize)
        requires
            self.rom_size_code <= 8,
        ensures
            r == spec_rom_size(self.rom_size_code),
    {
        let size: usize = match self.rom_size_code {
            0 => 0x8000,
            1 => 0x10000,
            2 => 0x20000,
            3 => 0x40000,
            4 => 0x80000,
            5 => 0x100000,
            6 => 0x200000,
            7 => 0x400000,
            _ => 0x800000,
        };
        size
    }

    /// Reads the header of a ROM image.
    pub fn parse(rom: &Vec<u8>) -> (r: Result<Header, EmuError>)
        ensures
            r is Ok <==> spec_header_ok(rom@),
            r matches Ok(h) ==> h == (Header {
                compatibility_mode: CompatibilityMode::spec_from_flag(rom@[0x143]),
                cart_type: rom@[0x147],
                rom_size_code: rom@[0x148],
                ram_size_code: rom@[0x149],
            }),
            r matches Err(e) ==> e == EmuError::BadHeader,
    {
        if rom.len() < 0x150 {
            return Err(EmuError::BadHeader);
        }
        let h = Header {
            compatibility_mode: CompatibilityMode::from_flag(rom[0x143]),
            cart_type: rom[0x147],
            rom_size_code: rom[0x148],
            ram_size_code: rom[0x149],
        };
        if h.rom_size_code > 8 {
            return Err(EmuError::BadHeader);
        }
        if rom.len() < h.rom_size() {
            return Err(EmuError::BadHeader);
        }
        Ok(h)
    }
}

/// A cartridge: its header and its controller, which holds ROM and RAM.
pub struct Cart {
    pub header: Header,
    pub hw: HwMbc5,
}

impl Cart {
    pub open spec fn wf(&self) -> bool {
        self.hw@.rom_hi <= 1
    }

    pub fn header(&self) -> (r: &Header)
        ensures
            r == self.header,
    {
        &self.header
    }

    /// Loads a ROM image: the ROM buffer holds the bytes that the header
    /// claims, and the RAM as many banks as it declares.
    pub fn from_rom(rom: Vec<u8>) -> (r: Result<Cart, EmuError>)
        ensures
            r is Ok <==> spec_header_ok(rom@),
            r matches Err(e) ==> e == EmuError::BadHeader,
            r matches Ok(c) ==> {
                &&& c.wf()
                &&& c.header.compatibility_mode == CompatibilityMode::spec_from_flag(rom@[0x143])
                &&& c.header.cart_type == rom@[0x147]
                &&& c.header.rom_size_code == rom@[0x148]
                &&& c.header.ram_size_code == rom@[0x149]
                &&& c.hw@.rom == rom@.subrange(0, spec_rom_size(rom@[0x148]) as int)
                &&& c.hw@.ram.len() == spec_ram_banks(rom@[0x149]) * 0x2000
                &&& !c.hw@.ram_enable
                &&& c.hw@.rom_bank() == 0
                &&& c.hw@.ram_bank == 0
            },
    {
        let header = match Header::parse(&rom) {
            Ok(h) => h,
            Err(e) => {
                return Err(e);
            },
        };
        let size = header.rom_size();
        let mut rom = rom;
        rom.truncate(size);
        let hw = HwMbc5::with_rom(rom, header.ram_banks());
        Ok(Cart { header, hw })
    }

    /// Reads through the cartridge's controller.
    pub fn read(&self, addr: u16) -> (r: Result<u8, EmuError>)
        requires
            self.wf(),
        ensures
            r == self.hw@.read(addr),
    {
        self.hw.read(addr)
    }

    /// Writes through the cartridge's controller.
    pub fn write(&mut self, addr: u16, data: u8) -> (r: Result<(), EmuError>)
        requires
            old(self).wf(),
        ensures
            final(self).wf(),
            final(self).header == old(self).header,
            old(self).hw@.write(addr, data) matches Ok(v) ==> r is Ok && final(self).hw@ == v,
            old(self).hw@.write(addr, data) is Err ==> r == Err::<(), EmuError>(
                EmuError::InvalidAddress,
            ) && final(self).hw@ == old(self).hw@,
    {
        self.hw.write(addr, data)
    }
}

} // verus!
