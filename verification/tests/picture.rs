use rusted_nes::memory::hooks::MemoryEvent;
use rusted_nes::memory::hooks::MemoryOperation;
use rusted_nes::memory::MemoryRegion;
use rusted_nes::memory::WriteProtectedRegion;
use rusted_nes::memory::MEM;
use rusted_nes::pixel_processor::helper::overlay_sprite;
use rusted_nes::pixel_processor::memory_events_processor::RegisterEffect;
use rusted_nes::pixel_processor::tile::get_color;
use rusted_nes::pixel_processor::tile::get_tile_and_palette;
use rusted_nes::pixel_processor::tile::PixelPalette;
use rusted_nes::pixel_processor::tile::PixelPaletteColorIndex;
use rusted_nes::pixel_processor::tile::Tile;
use rusted_nes::pixel_processor::FrameAction;
use rusted_nes::pixel_processor::FrameReport;
use rusted_nes::pixel_processor::FrameStage;
use rusted_nes::pixel_processor::PPU;

fn read_event(address: u16) -> MemoryEvent {
    MemoryEvent { operation: MemoryOperation::Read, address, value: 0 }
}

fn write_event(address: u16, value: u8) -> MemoryEvent {
    MemoryEvent { operation: MemoryOperation::Write, address, value }
}

#[test]
fn new_picture_processor() {
    let ppu = PPU::new(MEM::new(0x4000));
    assert_eq!(ppu.framebuffer, vec![0u32; 256 * 240]);
    assert_eq!(ppu.vram_address, 0);
    assert_eq!(ppu.w, false);
}

#[test]
fn address_register_takes_two_writes() {
    let mut ppu = PPU::new(MEM::new(0x4000));

    assert_eq!(ppu.handle_event(write_event(0x2006, 0xFF)), RegisterEffect::Nothing);
    assert_eq!((ppu.vram_address, ppu.w), (0x3F00, true));
    assert_eq!(ppu.handle_event(write_event(0x2006, 0x10)), RegisterEffect::Nothing);
    assert_eq!((ppu.vram_address, ppu.w), (0x3F10, false));
    assert_eq!(ppu.handle_event(write_event(0x2006, 0x21)), RegisterEffect::Nothing);
    assert_eq!((ppu.vram_address, ppu.w), (0x2110, true));
}

#[test]
fn status_read_resets_the_write_toggle() {
    let mut ppu = PPU::new(MEM::new(0x4000));
    ppu.handle_event(write_event(0x2006, 0x20));
    assert_eq!(ppu.w, true);

    assert_eq!(ppu.handle_event(read_event(0x2002)), RegisterEffect::ClearVBlank);

    assert_eq!(ppu.w, false);
    assert_eq!(ppu.vram_address, 0x2000);
    ppu.handle_event(write_event(0x2006, 0x3F));
    assert_eq!(ppu.vram_address, 0x3F00);
}

#[test]
fn data_register_writes_and_reads_picture_memory() {
    let mut ppu = PPU::new(MEM::new(0x4000));
    ppu.handle_event(write_event(0x2006, 0x20));
    ppu.handle_event(write_event(0x2006, 0x00));

    assert_eq!(ppu.handle_event(write_event(0x2007, 0xAB)), RegisterEffect::Nothing);
    assert_eq!(ppu.handle_event(write_event(0x2007, 0xCD)), RegisterEffect::Nothing);

    assert_eq!(ppu.ppu_memory.data[0x2000..0x2002], [0xAB, 0xCD]);
    assert_eq!(ppu.vram_address, 0x2002);
    ppu.handle_event(write_event(0x2006, 0x20));
    ppu.handle_event(write_event(0x2006, 0x01));
    assert_eq!(ppu.handle_event(read_event(0x2007)), RegisterEffect::LoadData { value: 0xCD });
    assert_eq!(ppu.vram_address, 0x2002);
}

#[test]
fn address_register_wraps_at_14_bits() {
    let mut ppu = PPU::new(MEM::new(0x4000));
    ppu.vram_address = 0x3FFF;
    ppu.ppu_memory.data[0x3FFF] = 0x12;

    assert_eq!(ppu.handle_event(read_event(0x2007)), RegisterEffect::LoadData { value: 0x12 });

    assert_eq!(ppu.vram_address, 0x0000);
}

#[test]
fn data_register_respects_protection() {
    let mut memory = MEM::new(0x4000);
    memory.push_write_protected_region(WriteProtectedRegion {
        protected_memory: MemoryRegion { region_address: 0, region_size: 0x2000 },
    });
    let mut ppu = PPU::new(memory);

    ppu.handle_event(write_event(0x2007, 0xAB));

    assert_eq!(ppu.ppu_memory.data[0], 0x00);
    assert_eq!(ppu.vram_address, 1);
}

#[test]
fn other_events_are_ignored() {
    let mut ppu = PPU::new(MEM::new(0x4000));
    ppu.vram_address = 0x1234;
    ppu.w = true;
    for event in [read_event(0x2006), write_event(0x2002, 9), read_event(0x2000), write_event(0x2005, 1), read_event(0x4014)] {
        assert_eq!(ppu.handle_event(event), RegisterEffect::Nothing);
        assert_eq!((ppu.vram_address, ppu.w), (0x1234, true));
    }
}

#[test]
fn effects_on_the_processor_memory() {
    let mut memory = MEM::new(0x10000);
    memory.data[0x2002] = 0b1010_0101;

    PPU::apply_effect(&mut memory, RegisterEffect::Nothing);
    assert_eq!(memory.data[0x2002], 0b1010_0101);
    PPU::apply_effect(&mut memory, RegisterEffect::ClearVBlank);
    assert_eq!(memory.data[0x2002], 0b0010_0101);
    PPU::apply_effect(&mut memory, RegisterEffect::LoadData { value: 0x77 });
    assert_eq!(memory.data[0x2007], 0x77);
    PPU::set_vblank(&mut memory);
    assert_eq!(memory.data[0x2002], 0b1010_0101);
    PPU::set_vblank(&mut memory);
    assert_eq!(memory.data[0x2002], 0b1010_0101);
    PPU::clear_vblank(&mut memory);
    PPU::clear_vblank(&mut memory);
    assert_eq!(memory.data[0x2002], 0b0010_0101);
}

#[test]
fn events_are_processed_in_order() {
    let mut memory = MEM::new(0x10000);
    let sink = memory.open_channel();
    memory.push_hook(MemoryOperation::Write, MemoryRegion { region_address: 0x2006, region_size: 2 }, sink);
    memory.push_hook(MemoryOperation::Read, MemoryRegion { region_address: 0x2007, region_size: 1 }, sink);
    let mut ppu = PPU::new(MEM::new(0x4000));

    memory.write(0x2006, 0x21);
    memory.write(0x2006, 0x08);
    memory.write(0x2007, 0x5A);
    memory.write(0x2006, 0x21);
    memory.write(0x2006, 0x08);
    memory.read(0x2007, 1);
    for _ in 0..8 {
        ppu.process_memory_events(&mut memory, sink);
    }

    assert_eq!(ppu.ppu_memory.data[0x2108], 0x5A);
    assert_eq!(memory.data[0x2007], 0x5A);
    assert_eq!(ppu.vram_address, 0x2109);
    assert_eq!(memory.channels[sink].len(), 0);
}

#[test]
fn frame_pacing() {
    assert_eq!(PPU::next_frame_action(FrameStage::Start, 0), (FrameAction::Render, FrameStage::Visible));
    assert_eq!(PPU::next_frame_action(FrameStage::Start, 99_999_999), (FrameAction::Render, FrameStage::Visible));
    assert_eq!(PPU::next_frame_action(FrameStage::Visible, 0), (FrameAction::Poll, FrameStage::Visible));
    assert_eq!(PPU::next_frame_action(FrameStage::Visible, 15_305_666), (FrameAction::Poll, FrameStage::Visible));
    assert_eq!(PPU::next_frame_action(FrameStage::Visible, 15_305_667), (FrameAction::RaiseVBlank, FrameStage::VBlank));
    assert_eq!(PPU::next_frame_action(FrameStage::VBlank, 15_305_667), (FrameAction::Poll, FrameStage::VBlank));
    assert_eq!(PPU::next_frame_action(FrameStage::VBlank, 16_639_355), (FrameAction::Poll, FrameStage::VBlank));
    assert_eq!(PPU::next_frame_action(FrameStage::VBlank, 16_639_356), (FrameAction::LowerVBlank, FrameStage::Start));
}

#[test]
fn frame_constants_follow_the_pixel_clock() {
    let pixel: f64 = 186.2433862;
    let scanline = 341. * pixel;
    assert_eq!(rusted_nes::pixel_processor::VBLANK_START_NS, (241. * scanline) as u64);
    assert_eq!(rusted_nes::pixel_processor::FRAME_END_NS, (262. * scanline) as u64);
}

#[test]
fn frame_reports() {
    assert_eq!(PPU::frame_report(600, 9_999, 9_999_000_000), None);
    assert_eq!(PPU::frame_report(0, 10_000, 10_000_000_000), None);
    assert_eq!(
        PPU::frame_report(600, 10_000, 10_000_000_000),
        Some(FrameReport { frames: 600, average_frame_ns: 16_666_666 })
    );
}

#[test]
fn colors() {
    assert_eq!(get_color(0x00), 0xFF626262);
    assert_eq!(get_color(0x0D), 0xFF000000);
    assert_eq!(get_color(0x20), 0xFFFFFFFF);
    assert_eq!(get_color(0x21), 0xFF4AB5FF);
    assert_eq!(get_color(0x3D), 0xFFB8B8B8);
    assert_eq!(get_color(0x3F), 0xFF000000);
    let sample = PixelPalette::get_sample_palette();
    assert_eq!(
        (sample.background, sample.color1, sample.color2, sample.color3),
        (0xFF000000, 0xFF0000FF, 0xFFFF00FF, 0xFF00FFFF)
    );
}

#[test]
fn palette_by_quadrant() {
    let mut memory = MEM::new(0x4000);
    memory.data[0x23C0] = 0b11_10_01_00;
    memory.data[0x23C0 + 7 + 7 * 8] = 0b00_01_10_11;
    for palette in 0..4 {
        for entry in 0..4 {
            memory.data[0x3F00 + palette * 4 + entry] = (palette * 4 + entry) as u8 + 0x40;
        }
    }
    let expect = |palette: u8| PixelPalette {
        background: get_color(palette * 4),
        color1: get_color(palette * 4 + 1),
        color2: get_color(palette * 4 + 2),
        color3: get_color(palette * 4 + 3),
    };

    assert_eq!(PixelPalette::get(&memory, 0), expect(0));
    assert_eq!(PixelPalette::get(&memory, 1), expect(0));
    assert_eq!(PixelPalette::get(&memory, 2), expect(1));
    assert_eq!(PixelPalette::get(&memory, 3), expect(1));
    assert_eq!(PixelPalette::get(&memory, 33), expect(0));
    assert_eq!(PixelPalette::get(&memory, 64), expect(2));
    assert_eq!(PixelPalette::get(&memory, 65 + 32), expect(2));
    assert_eq!(PixelPalette::get(&memory, 66), expect(3));
    assert_eq!(PixelPalette::get(&memory, 99), expect(3));
    assert_eq!(PixelPalette::get(&memory, 28 * 32 + 31), expect(2));
    assert_eq!(PixelPalette::get(&memory, 29 * 32 + 31), expect(2));
    assert_eq!(PixelPalette::get(&memory, 28 * 32 + 28), expect(3));
    assert_eq!(PixelPalette::get(&memory, 4), expect(0));
}

#[test]
fn tile_decoding() {
    let mut memory = MEM::new(0x4000);
    let base = 5 * 16;
    memory.data[base] = 0b1000_0001;
    memory.data[base + 8] = 0b1100_0000;
    memory.data[base + 7] = 0b0000_0001;
    memory.data[0x1000 + base + 8 + 3] = 0b0001_0000;

    let tile = Tile::get(&memory, 5, false);

    assert_eq!(tile.data[0], PixelPaletteColorIndex::Color3);
    assert_eq!(tile.data[1], PixelPaletteColorIndex::Color2);
    assert_eq!(tile.data[2], PixelPaletteColorIndex::Background);
    assert_eq!(tile.data[7], PixelPaletteColorIndex::Color1);
    assert_eq!(tile.data[63], PixelPaletteColorIndex::Color1);
    assert_eq!(tile.data.iter().filter(|pixel| **pixel != PixelPaletteColorIndex::Background).count(), 4);
    let second = Tile::get(&memory, 5, true);
    assert_eq!(second.data[3 * 8 + 3], PixelPaletteColorIndex::Color2);
    assert_eq!(second.data.iter().filter(|pixel| **pixel != PixelPaletteColorIndex::Background).count(), 1);

    let rendered = tile.rendered(PixelPalette { background: 10, color1: 11, color2: 12, color3: 13 });
    assert_eq!(rendered[0..8], [13, 12, 10, 10, 10, 10, 10, 11]);
    assert_eq!(rendered[56..64], [10, 10, 10, 10, 10, 10, 10, 11]);
}

#[test]
fn tile_and_palette_of_a_cell() {
    let mut memory = MEM::new(0x4000);
    memory.data[0x2000 + 34] = 0xFF;
    memory.data[0xFF * 16] = 0b0100_0000;
    memory.data[0x3F01] = 0x21;

    let (tile, palette) = get_tile_and_palette(&memory, 34, false);

    assert_eq!(tile.data[1], PixelPaletteColorIndex::Color1);
    assert_eq!(palette.color1, 0xFF4AB5FF);
    assert_eq!(palette.background, 0xFF626262);
}

#[test]
fn sprite_overlay() {
    let mut screen = vec![0u32; 6 * 4];
    let sprite: Vec<u32> = (1..=7).collect();

    overlay_sprite(&mut screen, &sprite, 2, 1, 6, 3);

    assert_eq!(screen, vec![
        0, 0, 0, 0, 0, 0,
        0, 0, 1, 2, 3, 0,
        0, 0, 4, 5, 6, 0,
        0, 0, 0, 0, 0, 0,
    ]);
}

#[test]
fn sprite_overlay_wraps_into_the_next_row() {
    let mut screen = vec![0u32; 4 * 3];
    let sprite: Vec<u32> = (1..=6).collect();

    overlay_sprite(&mut screen, &sprite, 2, 0, 4, 3);

    assert_eq!(screen, vec![
        0, 0, 1, 2,
        3, 0, 4, 5,
        6, 0, 0, 0,
    ]);
}

fn reference_pixel(memory: &MEM, x: usize, y: usize) -> u32 {
    let tile_id = (y / 8) * 32 + x / 8;
    let pattern = memory.data[0x2000 + tile_id] as usize;
    let low = memory.data[pattern * 16 + y % 8] >> (7 - x % 8) & 1;
    let high = memory.data[pattern * 16 + 8 + y % 8] >> (7 - x % 8) & 1;
    let attribute = memory.data[0x23C0 + (x / 32) + (y / 32) * 8];
    let shift = ((x / 16) % 2) * 2 + ((y / 16) % 2) * 4;
    let palette = (attribute >> shift & 3) as usize;
    get_color(memory.data[0x3F00 + palette * 4 + (high * 2 + low) as usize] % 64)
}

#[test]
fn background_rendering() {
    let mut memory = MEM::new(0x4000);
    let mut state: u32 = 12345;
    for cell in memory.data.iter_mut() {
        state = state.wrapping_mul(1103515245).wrapping_add(12345);
        *cell = (state >> 16) as u8;
    }
    let mut ppu = PPU::new(memory);
    ppu.vram_address = 0x123;
    ppu.w = true;

    ppu.render_frame();

    assert_eq!(ppu.framebuffer.len(), 256 * 240);
    for y in 0..240 {
        for x in 0..256 {
            assert_eq!(ppu.framebuffer[y * 256 + x], reference_pixel(&ppu.ppu_memory, x, y), "pixel {x},{y}");
        }
    }
    assert_eq!((ppu.vram_address, ppu.w), (0x123, true));
}

#[test]
fn pattern_table_rendering() {
    let mut memory = MEM::new(0x4000);
    memory.data[17 * 16] = 0b1000_0000;
    memory.data[0x1000 + 255 * 16 + 8 + 7] = 0b0000_0001;
    let ppu = PPU::new(memory);

    let picture = ppu.render_pattern_table();

    assert_eq!(picture.len(), 256 * 128);
    assert_eq!(picture[8 * 256 + 8], 0xFF0000FF);
    assert_eq!(picture[8 * 256 + 9], 0xFF000000);
    assert_eq!(picture[127 * 256 + 255], 0xFFFF00FF);
    assert_eq!(picture.iter().filter(|pixel| **pixel != 0xFF000000).count(), 2);
}

#[test]
fn connecting_the_registers() {
    let mut memory = MEM::new(0x10000);
    let other = memory.open_channel();

    let sink = PPU::connect(&mut memory);

    assert_eq!((other, sink), (0, 1));
    assert_eq!(memory.hooks.len(), 4);
    assert_eq!(memory.get_hooks(MemoryOperation::Read, 0x2002).len(), 1);
    assert_eq!(memory.get_hooks(MemoryOperation::Write, 0x2002).len(), 0);
    assert_eq!(memory.get_hooks(MemoryOperation::Write, 0x2006).len(), 1);
    assert_eq!(memory.get_hooks(MemoryOperation::Read, 0x2006).len(), 0);
    assert_eq!(memory.get_hooks(MemoryOperation::Write, 0x2007).len(), 1);
    assert_eq!(memory.get_hooks(MemoryOperation::Read, 0x2007).len(), 1);
    assert_eq!(memory.get_hooks(MemoryOperation::Read, 0x2008).len(), 0);
    assert!(memory.hooks.iter().all(|hook| hook.sink == sink));
    memory.read(0x2002, 1);
    assert_eq!(memory.channels[other].len(), 0);
    assert_eq!(memory.channels[sink].len(), 1);
}

#[test]
fn one_turn_of_the_frame_loop() {
    let mut memory = MEM::new(0x10000);
    let sink = PPU::connect(&mut memory);
    let mut picture_memory = MEM::new(0x4000);
    picture_memory.data[0x3F00] = 0x21;
    let mut ppu = PPU::new(picture_memory);

    assert_eq!(ppu.run(&mut memory, sink, FrameStage::Start, 0), (FrameAction::Render, FrameStage::Visible));
    assert_eq!(ppu.framebuffer, vec![0xFF4AB5FFu32; 256 * 240]);

    memory.write(0x2006, 0x20);
    assert_eq!(ppu.run(&mut memory, sink, FrameStage::Visible, 1_000), (FrameAction::Poll, FrameStage::Visible));
    assert_eq!((ppu.vram_address, ppu.w), (0x2000, true));
    assert_eq!(ppu.run(&mut memory, sink, FrameStage::Visible, 2_000), (FrameAction::Poll, FrameStage::Visible));
    assert_eq!((ppu.vram_address, ppu.w), (0x2000, true));

    assert_eq!(
        ppu.run(&mut memory, sink, FrameStage::Visible, 15_305_667),
        (FrameAction::RaiseVBlank, FrameStage::VBlank)
    );
    assert_eq!(memory.data[0x2002], 0x80);
    memory.read(0x2002, 1);
    assert_eq!(
        ppu.run(&mut memory, sink, FrameStage::VBlank, 15_400_000),
        (FrameAction::Poll, FrameStage::VBlank)
    );
    assert_eq!(memory.data[0x2002], 0x00);
    assert_eq!(ppu.w, false);
    PPU::set_vblank(&mut memory);
    assert_eq!(
        ppu.run(&mut memory, sink, FrameStage::VBlank, 16_639_356),
        (FrameAction::LowerVBlank, FrameStage::Start)
    );
    assert_eq!(memory.data[0x2002], 0x00);
}

#[test]
fn well_formedness_of_the_picture_processor() {
    let mut ppu = PPU::new(MEM::new(0x4000));
    assert_eq!(ppu.is_well_formed(), true);
    ppu.vram_address = 0x4000;
    assert_eq!(ppu.is_well_formed(), false);
    ppu.vram_address = 0x3FFF;
    ppu.framebuffer.pop();
    assert_eq!(ppu.is_well_formed(), false);
    ppu.framebuffer.push(0);
    ppu.ppu_memory.data.pop();
    assert_eq!(ppu.is_well_formed(), false);
}
