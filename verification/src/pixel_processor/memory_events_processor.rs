//! The registers of the picture processor, driven by the memory events of
//! the processor: reads of the status register, writes to the address
//! register, and reads and writes of the data register.

use vstd::prelude::*;

use super::holds_registers;
use super::lowered;
use super::PictureModel;
use super::PICTURE_MEMORY_SIZE;
use super::PPU;
use super::PPUADDR;
use super::PPUDATA;
use super::PPUSTATUS;
use crate::memory::hooks::MemoryEvent;
use crate::memory::hooks::MemoryHook;
use crate::memory::hooks::MemoryOperation;
use crate::memory::MemoryModel;
use crate::memory::MemoryRegion;
use crate::memory::MEM;

verus! {

/// What an event makes the picture processor do to the processor's
/// address space.
#[derive(Debug, Clone, Copy, PartialEq, Eq, Structural)]
pub enum RegisterEffect {
    /// Nothing.
    Nothing,
    /// The vertical blank flag is cleared.
    ClearVBlank,
    /// The data register is loaded with `value`, for the processor's next
    /// read of it.
    LoadData { value: u8 },
}

/// The address register after a write of `value`: the first write of a
/// pair sets its high six bits, the second its low eight.
pub open spec fn address_after_write(vram_address: int, w: bool, value: u8) -> int {
    if !w {
        (value % 64) * 256 + vram_address % 256
    } else {
        (vram_address / 256) * 256 + value
    }
}

/// The address register after an access of the data register: one
/// further, modulo 2^14.
pub open spec fn address_after_access(vram_address: int) -> int {
    (vram_address + 1) % (PICTURE_MEMORY_SIZE as int)
}

impl PictureModel {
    /// The picture processor after `event`.
    pub open spec fn after_event(self, event: MemoryEvent) -> PictureModel {
        if event.operation == MemoryOperation::Read && event.address == PPUSTATUS {
            PictureModel { w: false, ..self }
        } else if event.operation == MemoryOperation::Write && event.address == PPUADDR {
            PictureModel {
                vram_address: address_after_write(self.vram_address, self.w, event.value),
                w: !self.w,
                ..self
            }
        } else if event.operation == MemoryOperation::Read && event.address == PPUDATA {
            PictureModel {
                memory: self.memory.after_read(self.vram_address, 1),
                vram_address: address_after_access(self.vram_address),
                ..self
            }
        } else if event.operation == MemoryOperation::Write && event.address == PPUDATA {
            PictureModel {
                memory: self.memory.after_write(self.vram_address, event.value),
                vram_address: address_after_access(self.vram_address),
                ..self
            }
        } else {
            self
        }
    }

    /// What `event` makes the picture processor do to the processor's
    /// address space.
    pub open spec fn effect_of(self, event: MemoryEvent) -> RegisterEffect {
        if event.operation == MemoryOperation::Read && event.address == PPUSTATUS {
            RegisterEffect::ClearVBlank
        } else if event.operation == MemoryOperation::Read && event.address == PPUDATA {
            RegisterEffect::LoadData { value: self.memory.read_byte(self.vram_address) }
        } else {
            RegisterEffect::Nothing
        }
    }
}

/// The processor's address space after `effect` was applied to it.
pub open spec fn after_effect(memory: MemoryModel, effect: RegisterEffect) -> MemoryModel {
    match effect {
        RegisterEffect::Nothing => memory,
        RegisterEffect::ClearVBlank => lowered(memory),
        RegisterEffect::LoadData { value } => memory.poked(PPUDATA as int, value),
    }
}

/// What polling does: nothing where no event waits on channel `sink`;
/// otherwise the oldest event leaves the channel, the picture processor
/// takes note of it, and its effect is applied to the processor's address
/// space.
pub open spec fn polled(
    before: PictureModel,
    memory_before: MemoryModel,
    after: PictureModel,
    memory_after: MemoryModel,
    sink: int,
) -> bool {
    match memory_before.waiting(sink) {
        None => after == before && memory_after == memory_before,
        Some(event) => {
            &&& after == before.after_event(event)
            &&& memory_after == after_effect(
                memory_before.after_receive(sink),
                before.effect_of(event),
            )
        },
    }
}

/// The hooks that tell the picture processor of the processor's accesses
/// to its registers, all reporting to channel `sink`: reads of the status
/// register, writes to the address register and to the data register, and
/// reads of the data register.
pub open spec fn register_hooks(sink: usize) -> Seq<MemoryHook> {
    seq![
        MemoryHook {
            operation: MemoryOperation::Read,
            range: MemoryRegion { region_address: PPUSTATUS, region_size: 1 },
            sink,
        },
        MemoryHook {
            operation: MemoryOperation::Write,
            range: MemoryRegion { region_address: PPUADDR, region_size: 1 },
            sink,
        },
        MemoryHook {
            operation: MemoryOperation::Write,
            range: MemoryRegion { region_address: PPUDATA, region_size: 1 },
            sink,
        },
        MemoryHook {
            operation: MemoryOperation::Read,
            range: MemoryRegion { region_address: PPUDATA, region_size: 1 },
            sink,
        },
    ]
}

impl PPU {
    /// Opens a channel in the processor's address space and installs the
    /// hooks that report the processor's accesses to the registers of the
    /// picture processor on it. Returns the number of the channel.
    pub fn connect(memory: &mut MEM) -> (sink: usize)
        requires
            old(memory)@.wf(),
        ensures
            final(memory)@.wf(),
            sink == old(memory)@.channels.len(),
            final(memory)@ == (MemoryModel {
                channels: old(memory)@.channels.push(Seq::empty()),
                hooks: old(memory)@.hooks + register_hooks(sink),
                ..old(memory)@
            }),
    {
        let sink = memory.open_channel();
        memory.push_hook(
            MemoryOperation::Read,
            MemoryRegion { region_address: PPUSTATUS, region_size: 1 },
            sink,
        );
        memory.push_hook(
            MemoryOperation::Write,
            MemoryRegion { region_address: PPUADDR, region_size: 1 },
            sink,
        );
        memory.push_hook(
            MemoryOperation::Write,
            MemoryRegion { region_address: PPUDATA, region_size: 1 },
            sink,
        );
        memory.push_hook(
            MemoryOperation::Read,
            MemoryRegion { region_address: PPUDATA, region_size: 1 },
            sink,
        );
        assert(memory@.hooks =~= old(memory)@.hooks + register_hooks(sink));
        sink
    }

    /// Takes note of one memory event and says what it does to the
    /// processor's address space.
    pub fn handle_event(&mut self, event: MemoryEvent) -> (effect: RegisterEffect)
        requires
            old(self)@.wf(),
        ensures
            final(self)@.wf(),
            final(self)@ == old(self)@.after_event(event),
            effect == old(self)@.effect_of(event),
    {
        proof {
            self@.memory.lemma_read_keeps_wf(self.vram_address as int, 1);
            self@.memory.lemma_access_keeps_wf(
                MemoryOperation::Write,
                self.vram_address as int,
                event.value,
            );
        }
        match event.operation {
            MemoryOperation::Read => {
                if event.address == 0x2002 {
                    self.w = false;
                    RegisterEffect::ClearVBlank
                } else if event.address == 0x2007 {
                    let vram_data = self.ppu_memory.read_byte(self.vram_address);
                    self.increment_vram_address();
                    RegisterEffect::LoadData { value: vram_data }
                } else {
                    RegisterEffect::Nothing
                }
            },
            MemoryOperation::Write => {
                if event.address == 0x2006 {
                    self.vram_address = if !self.w {
                        ((event.value % 64) as usize) * 256 + self.vram_address % 256
                    } else {
                        (self.vram_address / 256) * 256 + event.value as usize
                    };
                    self.w = !self.w;
                } else if event.address == 0x2007 {
                    self.ppu_memory.write(self.vram_address, event.value);
                    self.increment_vram_address();
                }
                RegisterEffect::Nothing
            },
        }
    }

    /// Moves the address register one further, modulo 2^14.
    fn increment_vram_address(&mut self)
        requires
            old(self).vram_address < PICTURE_MEMORY_SIZE,
        ensures
            final(self).vram_address == address_after_access(old(self).vram_address as int),
            final(self).framebuffer == old(self).framebuffer,
            final(self).ppu_memory == old(self).ppu_memory,
            final(self).w == old(self).w,
    {
        self.vram_address = (self.vram_address + 1) % PICTURE_MEMORY_SIZE;
    }

    /// Applies what an event did to the processor's address space.
    pub fn apply_effect(memory: &mut MEM, effect: RegisterEffect)
        requires
            holds_registers(old(memory)@),
        ensures
            holds_registers(final(memory)@),
            final(memory)@ == after_effect(old(memory)@, effect),
    {
        match effect {
            RegisterEffect::Nothing => {},
            RegisterEffect::ClearVBlank => Self::clear_vblank(memory),
            RegisterEffect::LoadData { value } => {
                proof {
                    memory@.lemma_poke_keeps_wf(PPUDATA as int, value);
                }
                memory.data.set(PPUDATA, value);
            },
        }
    }

    /// Takes the oldest event waiting on channel `sink` of the processor's
    /// address space, if there is one, and handles it.
    pub fn process_memory_events(&mut self, memory: &mut MEM, sink: usize)
        requires
            old(self)@.wf(),
            holds_registers(old(memory)@),
        ensures
            final(self)@.wf(),
            holds_registers(final(memory)@),
            polled(old(self)@, old(memory)@, final(self)@, final(memory)@, sink as int),
    {
        match memory.try_recv(sink) {
            Some(event) => {
                let effect = self.handle_event(event);
                Self::apply_effect(memory, effect);
            },
            None => {},
        }
    }
}

} // verus!
