use rewinds::gba::bus::Memory;
use rewinds::gba::ppu::inspect::BackgroundKind;
use rewinds::gba::ppu::memory::{PpuMemoryView, VRAM_BASE};
use rewinds::gba::ppu::Ppu;

fn set_oam(mem: &mut Memory, index: usize, attr0: u16, attr1: u16, attr2: u16) {
    let b = index * 8;
    mem.oam[b..b + 2].copy_from_slice(&attr0.to_le_bytes());
    mem.oam[b + 2..b + 4].copy_from_slice(&attr1.to_le_bytes());
    mem.oam[b + 4..b + 6].copy_from_slice(&attr2.to_le_bytes());
}

#[test]
fn mode_and_backgrounds_report_configuration() {
    let mut ppu = Ppu::new();
    ppu.write_dispcnt((1 << 8) | (1 << 10)); // mode 0, BG0 and BG2 on
    ppu.registers.bgcnt[0] = 2; // BG0 priority 2
    assert_eq!(ppu.current_mode(), 0);

    let bgs = ppu.backgrounds();
    assert!(bgs[0].enabled && bgs[0].kind == BackgroundKind::Text && bgs[0].priority == 2);
    assert!(!bgs[1].enabled);
    assert!(bgs[2].enabled && bgs[2].kind == BackgroundKind::Text);
    assert_eq!(ppu.active_backgrounds().len(), 2);
}

#[test]
fn bitmap_mode_marks_bg2_as_bitmap() {
    let mut ppu = Ppu::new();
    ppu.write_dispcnt(0x0003 | (1 << 10));
    assert_eq!(ppu.backgrounds()[2].kind, BackgroundKind::Bitmap);
}

#[test]
fn sprite_at_and_source_memory_resolve_a_pixel() {
    let mut ppu = Ppu::new();
    let mut mem = Memory::default();
    ppu.write_dispcnt((1 << 12) | (1 << 6)); // OBJ enabled, 1D mapping
    mem.palette[(256 + 5) * 2..(256 + 5) * 2 + 2].copy_from_slice(&0x03E0u16.to_le_bytes());
    set_oam(&mut mem, 3, 0, 0, 1); // sprite 3, tile 1 at (0,0)
    mem.vram[0x10020] = 0x05;

    let view = PpuMemoryView::new(&mem);
    let sprite = ppu.sprite_at(0, 0, &view).expect("sprite covers pixel");
    assert_eq!(sprite.oam_index, 3);

    let addrs = ppu.source_memory(0, 0, &view);
    assert!(addrs.contains(&(VRAM_BASE + 0x10020)));
}

#[test]
fn sprites_on_scanline_lists_visible_sprites() {
    let mut ppu = Ppu::new();
    let mut mem = Memory::default();
    ppu.write_dispcnt((1 << 12) | (1 << 6));
    // A zeroed OAM entry is a valid 8×8 sprite at the origin, so disable all,
    // then place two.
    for i in 0..128 {
        set_oam(&mut mem, i, 1 << 9, 0, 0);
    }
    set_oam(&mut mem, 0, 0, 0, 1); // on line 0
    set_oam(&mut mem, 1, 100, 0, 1); // Y=100, not on line 0

    let view = PpuMemoryView::new(&mem);
    let sprites = ppu.sprites_on_scanline(0, &view);
    assert_eq!(sprites.len(), 1);
    assert_eq!(sprites[0].oam_index, 0);
}
