//! Cartridge mappers: how the ROM banks of a cartridge are laid out in the
//! address spaces of the processor and of the picture processor.

use vstd::pervasive::unreached;
use vstd::prelude::*;

use super::ines::iNESData;
use super::MemoryMirror;
use super::MemoryModel;
use super::MemoryRegion;
use super::MEM;

pub mod mapper0;

verus! {

/// The address space of the picture processor.
#[allow(non_camel_case_types)]
pub type PPU_MEM = MEM;

/// Why a cartridge could not be mapped.
#[derive(PartialEq, Eq, Structural, Debug, Clone, Copy)]
pub enum MapperError {
    /// The cartridge asks for a mapper other than mapper 0.
    UnsupportedMapper,
    /// Mapper 0 takes one or two banks of program ROM, no more and no fewer.
    BadPrgRomSize,
    /// Mapper 0 takes exactly one bank of character ROM.
    BadChrRomSize,
}

/// The processor sees the eight registers of the picture processor again
/// and again up to 0x3FFF.
pub open spec fn ppu_registers_mirror() -> MemoryMirror {
    MemoryMirror {
        physical_memory: MemoryRegion { region_address: 0x2000, region_size: 0x0008 },
        mirrored_memory: MemoryRegion { region_address: 0x2008, region_size: 0x1FF8 },
    }
}

/// The 2 KiB of internal RAM are mirrored up to 0x1FFF.
pub open spec fn internal_ram_mirror() -> MemoryMirror {
    MemoryMirror {
        physical_memory: MemoryRegion { region_address: 0x0000, region_size: 0x0800 },
        mirrored_memory: MemoryRegion { region_address: 0x0800, region_size: 0x1800 },
    }
}

/// The 32 bytes of palette RAM are mirrored up to 0x3FFF.
pub open spec fn palette_mirror() -> MemoryMirror {
    MemoryMirror {
        physical_memory: MemoryRegion { region_address: 0x3F00, region_size: 0x0020 },
        mirrored_memory: MemoryRegion { region_address: 0x3F20, region_size: 0x00E0 },
    }
}

/// Whether `mirror`'s span is free in `memory`: it overlaps no span that
/// is mirrored already.
pub open spec fn span_free(memory: MemoryModel, mirror: MemoryMirror) -> bool {
    forall|i: int|
        0 <= i < memory.mirroring.len() ==> !mirror.mirrored_memory.intersects(
            (#[trigger] memory.mirroring[i]).mirrored_memory,
        )
}

/// The processor's address space with the console's own mirrors added.
pub open spec fn with_console_mirrors(memory: MemoryModel) -> MemoryModel {
    MemoryModel {
        mirroring: memory.mirroring.push(ppu_registers_mirror()).push(internal_ram_mirror()),
        ..memory
    }
}

/// The picture processor's address space with the console's own mirror added.
pub open spec fn with_palette_mirror(ppu_memory: MemoryModel) -> MemoryModel {
    MemoryModel { mirroring: ppu_memory.mirroring.push(palette_mirror()), ..ppu_memory }
}

/// Whether the console's mirrors fit beside those a mapper installed.
pub open spec fn console_mirrors_fit(memory: MemoryModel, ppu_memory: MemoryModel) -> bool {
    &&& span_free(memory, ppu_registers_mirror())
    &&& span_free(memory, internal_ram_mirror())
    &&& span_free(ppu_memory, palette_mirror())
}

/// Lays a cartridge out in the two address spaces: the cartridge's mapper
/// places the ROM banks, then the console's own mirrors are added. Only
/// mapper 0 is supported.
pub fn map(input: iNESData) -> (r: Result<(MEM, PPU_MEM), MapperError>)
    ensures
        r.is_ok() <==> input@.header.mapper_number == 0 && mapper0::accepts(input@),
        r matches Ok((memory, ppu_memory)) ==> {
            &&& memory@.wf()
            &&& ppu_memory@.wf()
            &&& memory@ == with_console_mirrors(mapper0::cpu_layout(input@))
            &&& ppu_memory@ == with_palette_mirror(mapper0::ppu_layout(input@))
        },
        r matches Err(e) ==> e == (if input@.header.mapper_number != 0 {
            MapperError::UnsupportedMapper
        } else {
            mapper0::refusal(input@)
        }),
{
    if input.header.mapper_number != 0 {
        return Err(MapperError::UnsupportedMapper);
    }
    match mapper0::map(input) {
        Err(e) => Err(e),
        Ok(spaces) => {
            // The spans that mapper 0 mirrors leave those of the console free.
            match add_write_protection_and_mirroring(spaces) {
                Ok(spaces) => Ok(spaces),
                Err(_) => unreached(),
            }
        },
    }
}

/// Adds the console's own mirrors to the two address spaces a mapper has
/// filled. Nothing is added where one of them would overlap a span that
/// is mirrored already.
pub fn add_write_protection_and_mirroring(spaces: (MEM, PPU_MEM)) -> (r: Result<
    (MEM, PPU_MEM),
    super::MemoryError,
>)
    requires
        spaces.0@.wf(),
        spaces.1@.wf(),
    ensures
        r.is_ok() <==> console_mirrors_fit(spaces.0@, spaces.1@),
        r matches Ok((memory, ppu_memory)) ==> {
            &&& memory@.wf()
            &&& ppu_memory@.wf()
            &&& memory@ == with_console_mirrors(spaces.0@)
            &&& ppu_memory@ == with_palette_mirror(spaces.1@)
        },
        r matches Err(e) ==> e == super::MemoryError::MirrorOverlap,
{
    let (mut memory, mut ppu_memory) = spaces;
    // PPU registers mirroring
    let registers = MemoryMirror {
        physical_memory: MemoryRegion { region_address: 0x2000, region_size: 0x0008 },
        mirrored_memory: MemoryRegion { region_address: 0x2008, region_size: 0x1FF8 },
    };
    // 2KB ram mirroring
    let ram = MemoryMirror {
        physical_memory: MemoryRegion { region_address: 0x0000, region_size: 0x0800 },
        mirrored_memory: MemoryRegion { region_address: 0x0800, region_size: 0x1800 },
    };
    // PPU palette ram indexes
    let palette = MemoryMirror {
        physical_memory: MemoryRegion { region_address: 0x3F00, region_size: 0x0020 },
        mirrored_memory: MemoryRegion { region_address: 0x3F20, region_size: 0x00E0 },
    };
    if memory.push_mirrored_range(registers).is_err() {
        return Err(super::MemoryError::MirrorOverlap);
    }
    let ghost with_registers = memory@;
    if memory.push_mirrored_range(ram).is_err() {
        return Err(super::MemoryError::MirrorOverlap);
    }
    assert forall|i: int| 0 <= i < spaces.0@.mirroring.len() implies !ram.mirrored_memory.intersects(
        (#[trigger] spaces.0@.mirroring[i]).mirrored_memory,
    ) by {
        assert(with_registers.mirroring[i] == spaces.0@.mirroring[i]);
    }
    if ppu_memory.push_mirrored_range(palette).is_err() {
        return Err(super::MemoryError::MirrorOverlap);
    }
    Ok((memory, ppu_memory))
}

/// Whether `used_mapper` is the mapper that was expected.
pub fn check_if_correct_mapper(used_mapper: u16, expected_mapper: u16) -> (r: Result<
    (),
    MapperError,
>)
    ensures
        r.is_ok() <==> used_mapper == expected_mapper,
        r.is_err() ==> r == Err::<(), MapperError>(MapperError::UnsupportedMapper),
{
    if used_mapper != expected_mapper {
        Err(MapperError::UnsupportedMapper)
    } else {
        Ok(())
    }
}

} // verus!
