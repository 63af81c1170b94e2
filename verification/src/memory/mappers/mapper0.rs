//! Mapper 0: program ROM sits at 0x8000 in the processor's address space,
//! character ROM at 0x0000 in the picture processor's, and nothing moves.

use vstd::prelude::*;

use super::check_if_correct_mapper;
use super::MapperError;
use super::PPU_MEM;
use crate::memory::ines::iNESData;
use crate::memory::ines::iNESImage;
use crate::memory::MemoryMirror;
use crate::memory::MemoryModel;
use crate::memory::MemoryRegion;
use crate::memory::WriteProtectedRegion;
use crate::memory::MEM;

verus! {

/// Where program ROM starts in the processor's address space.
pub const PRG_ROM_START: usize = 0x8000;

/// Size of the processor's address space.
pub const CPU_SPACE: usize = 0x10000;

/// Size of the picture processor's address space.
pub const PPU_SPACE: usize = 0x4000;

/// Whether the program ROM is one bank or two, of 16 KiB each.
pub open spec fn prg_rom_fits(image: iNESImage) -> bool {
    ||| image.header.prg_rom_size == 1 && image.prg_rom.len() == 0x4000
    ||| image.header.prg_rom_size == 2 && image.prg_rom.len() == 0x8000
}

/// Whether mapper 0 can lay the cartridge out.
pub open spec fn accepts(image: iNESImage) -> bool {
    image.header.mapper_number == 0 && prg_rom_fits(image) && image.chr_rom.len() == 0x2000
}

/// Why mapper 0 refuses a cartridge that it does not accept.
pub open spec fn refusal(image: iNESImage) -> MapperError {
    if image.header.mapper_number != 0 {
        MapperError::UnsupportedMapper
    } else if !prg_rom_fits(image) {
        MapperError::BadPrgRomSize
    } else {
        MapperError::BadChrRomSize
    }
}

/// A single bank of program ROM is seen a second time from 0xC000 on.
pub open spec fn prg_rom_mirror() -> MemoryMirror {
    MemoryMirror {
        physical_memory: MemoryRegion { region_address: 0x8000, region_size: 0x4000 },
        mirrored_memory: MemoryRegion { region_address: 0xC000, region_size: 0x4000 },
    }
}

/// `len` zero bytes with `bytes` laid over them from `address` on.
pub open spec fn overlay(len: nat, address: int, bytes: Seq<u8>) -> Seq<u8> {
    Seq::new(
        len,
        |i: int|
            if address <= i < address + bytes.len() {
                bytes[i - address]
            } else {
                0u8
            },
    )
}

/// The processor's address space as mapper 0 leaves it.
pub open spec fn cpu_layout(image: iNESImage) -> MemoryModel {
    MemoryModel {
        data: overlay(CPU_SPACE as nat, PRG_ROM_START as int, image.prg_rom),
        mirroring: if image.header.prg_rom_size == 1 {
            seq![prg_rom_mirror()]
        } else {
            Seq::empty()
        },
        write_protection: Seq::empty(),
        hooks: Seq::empty(),
        channels: Seq::empty(),
    }
}

/// The picture processor's address space as mapper 0 leaves it: character
/// ROM at the bottom, and everything up to 0x7FFF protected from writes.
pub open spec fn ppu_layout(image: iNESImage) -> MemoryModel {
    MemoryModel {
        data: overlay(PPU_SPACE as nat, 0, image.chr_rom),
        mirroring: Seq::empty(),
        write_protection: seq![
            WriteProtectedRegion {
                protected_memory: MemoryRegion { region_address: 0x0000, region_size: 0x8000 },
            },
        ],
        hooks: Seq::empty(),
        channels: Seq::empty(),
    }
}

/// In an address space without rules or hooks, writing bytes in bulk lays
/// them over the bytes that were there and changes nothing else.
pub proof fn lemma_plain_bulk_write(m: MemoryModel, address: int, bytes: Seq<u8>, n: nat)
    requires
        m.mirroring.len() == 0,
        m.write_protection.len() == 0,
        m.hooks.len() == 0,
        0 <= address,
        address + n <= m.data.len(),
        n <= bytes.len(),
    ensures
        m.after_write_bulk(address, bytes, n) == (MemoryModel {
            data: Seq::new(
                m.data.len(),
                |i: int|
                    if address <= i < address + n {
                        bytes[i - address]
                    } else {
                        m.data[i]
                    },
            ),
            ..m
        }),
    decreases n,
{
    if n == 0 {
        assert(m.data =~= Seq::new(
            m.data.len(),
            |i: int|
                if address <= i < address + 0 {
                    bytes[i - address]
                } else {
                    m.data[i]
                },
        ));
    } else {
        lemma_plain_bulk_write(m, address, bytes, (n - 1) as nat);
        let earlier = m.after_write_bulk(address, bytes, (n - 1) as nat);
        let target = address + n - 1;
        assert(!earlier.mirrored(target));
        assert(!earlier.protected(target));
        assert(earlier.redirect(target) == target);
        let later = earlier.after_write(target, bytes[n - 1]);
        assert(later.channels == earlier.channels);
        assert(later.data =~= Seq::new(
            m.data.len(),
            |i: int|
                if address <= i < address + n {
                    bytes[i - address]
                } else {
                    m.data[i]
                },
        ));
    }
}

/// Lays a cartridge out as mapper 0 does: one or two banks of program ROM
/// from 0x8000 on, a single bank mirrored at 0xC000, and 8 KiB of
/// character ROM, protected from writes, at the bottom of the picture
/// processor's address space.
pub fn map(data: iNESData) -> (r: Result<(MEM, PPU_MEM), MapperError>)
    ensures
        r.is_ok() <==> accepts(data@),
        r matches Ok((memory, ppu_memory)) ==> {
            &&& memory@.wf()
            &&& ppu_memory@.wf()
            &&& memory@ == cpu_layout(data@)
            &&& ppu_memory@ == ppu_layout(data@)
        },
        r matches Err(e) ==> e == refusal(data@),
{
    if check_if_correct_mapper(data.header.mapper_number, 0).is_err() {
        return Err(MapperError::UnsupportedMapper);
    }
    let ghost image = data@;
    let iNESData { header, prg_rom, chr_rom } = data;
    let mut memory = MEM::new(CPU_SPACE);
    let mut ppu_memory = MEM::new(PPU_SPACE);
    let ghost blank = memory@;
    let ghost ppu_blank = ppu_memory@;
    if header.prg_rom_size == 1 {
        if prg_rom.len() != 0x4000 {
            return Err(MapperError::BadPrgRomSize);
        }
        memory.write_bulk(PRG_ROM_START, prg_rom);
        proof {
            lemma_plain_bulk_write(blank, PRG_ROM_START as int, image.prg_rom, 0x4000);
        }
        let mirror = MemoryMirror {
            physical_memory: MemoryRegion { region_address: 0x8000, region_size: 0x4000 },
            mirrored_memory: MemoryRegion { region_address: 0xC000, region_size: 0x4000 },
        };
        let pushed = memory.push_mirrored_range(mirror);
        assert(pushed.is_ok());
        assert(memory@.mirroring =~= seq![prg_rom_mirror()]);
    } else if header.prg_rom_size == 2 {
        if prg_rom.len() != 0x8000 {
            return Err(MapperError::BadPrgRomSize);
        }
        memory.write_bulk(PRG_ROM_START, prg_rom);
        proof {
            lemma_plain_bulk_write(blank, PRG_ROM_START as int, image.prg_rom, 0x8000);
        }
    } else {
        return Err(MapperError::BadPrgRomSize);
    }
    if chr_rom.len() != 0x2000 {
        return Err(MapperError::BadChrRomSize);
    }
    ppu_memory.write_bulk(0x0000, chr_rom);
    proof {
        lemma_plain_bulk_write(ppu_blank, 0, image.chr_rom, 0x2000);
    }
    ppu_memory.push_write_protected_region(
        WriteProtectedRegion {
            protected_memory: MemoryRegion { region_address: 0x0000, region_size: 0x8000 },
        },
    );
    proof {
        assert(memory@.data =~= cpu_layout(image).data);
        assert(memory@.mirroring =~= cpu_layout(image).mirroring);
        assert(memory@.write_protection =~= cpu_layout(image).write_protection);
        assert(memory@.hooks =~= cpu_layout(image).hooks);
        assert(memory@.channels =~= cpu_layout(image).channels);
        assert(ppu_memory@.data =~= ppu_layout(image).data);
        assert(ppu_memory@.mirroring =~= ppu_layout(image).mirroring);
        assert(ppu_memory@.write_protection =~= ppu_layout(image).write_protection);
        assert(ppu_memory@.hooks =~= ppu_layout(image).hooks);
        assert(ppu_memory@.channels =~= ppu_layout(image).channels);
    }
    Ok((memory, ppu_memory))
}

} // verus!
