//! The picture processor: its registers as the processor sees them, the
//! pacing of a frame, and the rendering of the background.

use vstd::prelude::*;

use crate::memory::mappers::PPU_MEM;
use crate::memory::MemoryModel;
use crate::memory::MEM;

pub mod helper;
pub mod memory_events_processor;
pub mod rendering;
pub mod tile;

verus! {

/// Size of the picture processor's address space.
pub const PICTURE_MEMORY_SIZE: usize = 0x4000;

/// Width of the picture in pixels.
pub const SCREEN_WIDTH: usize = 256;

/// Height of the picture in pixels.
pub const SCREEN_HEIGHT: usize = 240;

/// The number of pixels of the picture.
pub const SCREEN_PIXELS: usize = 61440;

/// Address of the status register in the processor's address space.
pub const PPUSTATUS: usize = 0x2002;

/// Address of the address register in the processor's address space.
pub const PPUADDR: usize = 0x2006;

/// Address of the data register in the processor's address space.
pub const PPUDATA: usize = 0x2007;

/// Nanoseconds from the start of a frame to the start of vertical blank:
/// 241 scanlines of 341 pixels of 186.2433862 ns each, rounded down.
pub const VBLANK_START_NS: u64 = 15_305_667;

/// Nanoseconds from the start of a frame to its end: 262 scanlines of 341
/// pixels of 186.2433862 ns each, rounded down.
pub const FRAME_END_NS: u64 = 16_639_356;

/// How often the frame rate is reported, in milliseconds.
pub const REPORT_INTERVAL_MS: u64 = 10_000;

/// Whether the picture processor can work on `memory`: the address space
/// is well formed and holds every 14-bit address.
pub open spec fn picture_memory(memory: MemoryModel) -> bool {
    memory.wf() && memory.data.len() >= PICTURE_MEMORY_SIZE
}

/// Whether `memory` holds the registers of the picture processor.
pub open spec fn holds_registers(memory: MemoryModel) -> bool {
    memory.wf() && memory.data.len() > PPUDATA
}

/// The picture processor.
#[derive(Debug)]
pub struct PPU {
    pub framebuffer: Vec<u32>,
    pub ppu_memory: PPU_MEM,
    pub vram_address: usize,
    pub w: bool,
}

/// The mathematical content of the picture processor.
#[verifier::ext_equal]
pub struct PictureModel {
    pub framebuffer: Seq<u32>,
    pub memory: MemoryModel,
    pub vram_address: int,
    pub w: bool,
}

impl View for PPU {
    type V = PictureModel;

    open spec fn view(&self) -> PictureModel {
        PictureModel {
            framebuffer: self.framebuffer@,
            memory: self.ppu_memory@,
            vram_address: self.vram_address as int,
            w: self.w,
        }
    }
}

impl PictureModel {
    /// The memory is that of a picture processor, the frame buffer holds
    /// one picture, and the address register holds 14 bits.
    pub open spec fn wf(self) -> bool {
        &&& picture_memory(self.memory)
        &&& self.framebuffer.len() == SCREEN_PIXELS
        &&& 0 <= self.vram_address < PICTURE_MEMORY_SIZE
    }
}

/// Where the picture processor is in a frame.
#[derive(Debug, Clone, Copy, PartialEq, Eq, Structural)]
pub enum FrameStage {
    /// The frame has not begun.
    Start,
    /// The picture is drawn; vertical blank has not begun.
    Visible,
    /// Vertical blank.
    VBlank,
}

/// What the picture processor does next.
#[derive(Debug, Clone, Copy, PartialEq, Eq, Structural)]
pub enum FrameAction {
    /// Note the time as the start of the frame and render the picture.
    Render,
    /// Process the memory events that wait.
    Poll,
    /// Set the vertical blank flag.
    RaiseVBlank,
    /// Clear the vertical blank flag; the frame is over.
    LowerVBlank,
}

/// The action that is due in `stage`, `elapsed_ns` nanoseconds after the
/// start of the frame.
pub open spec fn action_due(stage: FrameStage, elapsed_ns: u64) -> FrameAction {
    match stage {
        FrameStage::Start => FrameAction::Render,
        FrameStage::Visible => if elapsed_ns < VBLANK_START_NS {
            FrameAction::Poll
        } else {
            FrameAction::RaiseVBlank
        },
        FrameStage::VBlank => if elapsed_ns < FRAME_END_NS {
            FrameAction::Poll
        } else {
            FrameAction::LowerVBlank
        },
    }
}

/// The stage that follows `stage` once `action` was carried out.
pub open spec fn stage_after(stage: FrameStage, action: FrameAction) -> FrameStage {
    match action {
        FrameAction::Render => FrameStage::Visible,
        FrameAction::Poll => stage,
        FrameAction::RaiseVBlank => FrameStage::VBlank,
        FrameAction::LowerVBlank => FrameStage::Start,
    }
}

/// The byte of the status register with the vertical blank flag, bit 7, set.
pub open spec fn with_vblank(status: u8) -> u8 {
    if status >= 0x80 {
        status
    } else {
        (status + 0x80) as u8
    }
}

/// The byte of the status register with the vertical blank flag, bit 7, cleared.
pub open spec fn without_vblank(status: u8) -> u8 {
    status % 0x80
}

/// The processor's address space with the vertical blank flag set.
pub open spec fn raised(memory: MemoryModel) -> MemoryModel {
    memory.poked(PPUSTATUS as int, with_vblank(memory.data[PPUSTATUS as int]))
}

/// The processor's address space with the vertical blank flag cleared.
pub open spec fn lowered(memory: MemoryModel) -> MemoryModel {
    memory.poked(PPUSTATUS as int, without_vblank(memory.data[PPUSTATUS as int]))
}

/// What a frame rate report says: the frames of the interval, and the
/// average time of a frame in nanoseconds.
#[derive(Debug, Clone, Copy, PartialEq, Eq, Structural)]
pub struct FrameReport {
    pub frames: u64,
    pub average_frame_ns: u64,
}

impl PPU {
    /// A picture processor over `ppu_memory`, with a black picture, the
    /// address register at zero and the write toggle off.
    pub fn new(ppu_memory: PPU_MEM) -> (r: Self)
        requires
            picture_memory(ppu_memory@),
        ensures
            r@.wf(),
            r@ == (PictureModel {
                framebuffer: Seq::new(SCREEN_PIXELS as nat, |i: int| 0u32),
                memory: ppu_memory@,
                vram_address: 0,
                w: false,
            }),
    {
        Self { framebuffer: vec![0u32; SCREEN_PIXELS], ppu_memory, vram_address: 0, w: false }
    }

    /// Whether the picture processor is well formed: its memory is well
    /// formed and holds every 14-bit address, the frame buffer holds one
    /// picture, and the address register holds 14 bits.
    pub fn is_well_formed(&self) -> (r: bool)
        ensures
            r == self@.wf(),
    {
        self.ppu_memory.is_well_formed() && self.ppu_memory.data.len() >= PICTURE_MEMORY_SIZE
            && self.framebuffer.len() == SCREEN_PIXELS && self.vram_address < PICTURE_MEMORY_SIZE
    }

    /// What is due in `stage`, `elapsed_ns` nanoseconds after the start
    /// of the frame, and the stage that follows. A frame is rendered when
    /// it starts; then events are processed until vertical blank begins,
    /// 241 scanlines into the frame, and on until the frame ends, 262
    /// scanlines into it.
    pub fn next_frame_action(stage: FrameStage, elapsed_ns: u64) -> (r: (FrameAction, FrameStage))
        ensures
            r.0 == action_due(stage, elapsed_ns),
            r.1 == stage_after(stage, r.0),
    {
        match stage {
            FrameStage::Start => (FrameAction::Render, FrameStage::Visible),
            FrameStage::Visible => if elapsed_ns < VBLANK_START_NS {
                (FrameAction::Poll, FrameStage::Visible)
            } else {
                (FrameAction::RaiseVBlank, FrameStage::VBlank)
            },
            FrameStage::VBlank => if elapsed_ns < FRAME_END_NS {
                (FrameAction::Poll, FrameStage::VBlank)
            } else {
                (FrameAction::LowerVBlank, FrameStage::Start)
            },
        }
    }

    /// Takes one turn of the frame loop: carries out what is due in
    /// `stage`, `elapsed_ns` nanoseconds after the start of the frame, and
    /// says what it was and which stage follows. The picture is rendered
    /// into the frame buffer; an event is taken from channel `sink` of the
    /// processor's address space; the vertical blank flag is set or cleared
    /// there.
    pub fn run(
        &mut self,
        memory: &mut MEM,
        sink: usize,
        stage: FrameStage,
        elapsed_ns: u64,
    ) -> (r: (FrameAction, FrameStage))
        requires
            old(self)@.wf(),
            holds_registers(old(memory)@),
        ensures
            final(self)@.wf(),
            holds_registers(final(memory)@),
            r.0 == action_due(stage, elapsed_ns),
            r.1 == stage_after(stage, r.0),
            r.0 == FrameAction::Render ==> final(memory)@ == old(memory)@ && rendering::rendered(
                old(self)@,
                final(self)@,
            ),
            r.0 == FrameAction::Poll ==> memory_events_processor::polled(
                old(self)@,
                old(memory)@,
                final(self)@,
                final(memory)@,
                sink as int,
            ),
            r.0 == FrameAction::RaiseVBlank ==> final(self)@ == old(self)@
                && final(memory)@ == raised(old(memory)@),
            r.0 == FrameAction::LowerVBlank ==> final(self)@ == old(self)@
                && final(memory)@ == lowered(old(memory)@),
    {
        let turn = Self::next_frame_action(stage, elapsed_ns);
        match turn.0 {
            FrameAction::Render => self.render_frame(),
            FrameAction::Poll => self.process_memory_events(memory, sink),
            FrameAction::RaiseVBlank => Self::set_vblank(memory),
            FrameAction::LowerVBlank => Self::clear_vblank(memory),
        }
        turn
    }

    /// The frame rate report that is due after `frames` frames in
    /// `elapsed_ms` milliseconds and `elapsed_ns` nanoseconds: none before
    /// ten seconds have passed or while no frame was drawn.
    pub fn frame_report(frames: u64, elapsed_ms: u64, elapsed_ns: u64) -> (r: Option<FrameReport>)
        ensures
            r.is_some() <==> elapsed_ms >= REPORT_INTERVAL_MS && frames > 0,
            r matches Some(report) ==> report.frames == frames && report.average_frame_ns
                == elapsed_ns / frames,
    {
        if elapsed_ms >= REPORT_INTERVAL_MS && frames > 0 {
            Some(FrameReport { frames, average_frame_ns: elapsed_ns / frames })
        } else {
            None
        }
    }

    /// Sets the vertical blank flag: bit 7 of the status register in the
    /// processor's address space.
    pub fn set_vblank(memory: &mut MEM)
        requires
            holds_registers(old(memory)@),
        ensures
            holds_registers(final(memory)@),
            final(memory)@ == raised(old(memory)@),
    {
        let status = memory.data[PPUSTATUS];
        proof {
            memory@.lemma_poke_keeps_wf(PPUSTATUS as int, with_vblank(status));
        }
        if status < 0x80 {
            memory.data.set(PPUSTATUS, status + 0x80);
        }
        assert(memory@.data =~= old(memory)@.data.update(
            PPUSTATUS as int,
            with_vblank(old(memory)@.data[PPUSTATUS as int]),
        ));
    }

    /// Clears the vertical blank flag: bit 7 of the status register in
    /// the processor's address space.
    pub fn clear_vblank(memory: &mut MEM)
        requires
            holds_registers(old(memory)@),
        ensures
            holds_registers(final(memory)@),
            final(memory)@ == lowered(old(memory)@),
    {
        let status = memory.data[PPUSTATUS];
        proof {
            memory@.lemma_poke_keeps_wf(PPUSTATUS as int, without_vblank(status));
        }
        memory.data.set(PPUSTATUS, status % 0x80);
    }
}

/// Setting the vertical blank flag makes the status register read as 0x80
/// or more; clearing it makes the register read as less; neither touches
/// the other seven bits.
pub proof fn lemma_vblank_flag(status: u8)
    ensures
        with_vblank(status) >= 0x80,
        without_vblank(status) < 0x80,
        with_vblank(status) % 0x80 == status % 0x80,
        without_vblank(with_vblank(status)) == status % 0x80,
        with_vblank(without_vblank(status)) == with_vblank(status),
{
}

} // verus!
