use rewinds::gba::bus::Memory;
use rewinds::gba::ppu::debug::explain::ExplainError;
use rewinds::gba::ppu::compositor::gather;
use rewinds::gba::ppu::debug::provenance::{
    BitmapSample, RejectionReason, SourceProvenance, WindowRegion,
};
use rewinds::gba::ppu::debug::sink::{NullSink, PixelRecorder, ProvenanceSink};
use rewinds::gba::ppu::memory::{PpuMemoryView, PALETTE_BASE, VRAM_BASE};
use rewinds::gba::ppu::state::{
    CandidatePixel, Color15, LayerId, PixelFlags, Scratch, WIDTH,
};
use rewinds::gba::ppu::window::WindowMask;
use rewinds::gba::ppu::Ppu;

/// A palette-0 backdrop color and a rendered line should be that color when no
/// background is enabled.
#[test]
fn backdrop_fills_the_line_when_no_bg_is_enabled() {
    let mut ppu = Ppu::new();
    let mut mem = Memory::default();
    // Backdrop = palette entry 0 = red (0x001F).
    mem.palette[0..2].copy_from_slice(&0x001Fu16.to_le_bytes());
    ppu.latch_for_scanline();

    let view = PpuMemoryView::new(&mem);
    ppu.render_scanline(0, &view, &mut NullSink);
    assert_eq!(ppu.framebuffer()[0], Color15(0x001F));
    assert_eq!(ppu.framebuffer()[239], Color15(0x001F));
}

/// Mode 3 samples direct color from VRAM into BG2.
#[test]
fn mode3_samples_direct_color_from_vram() {
    let mut ppu = Ppu::new();
    let mut mem = Memory::default();
    // Enable Mode 3 with BG2 on.
    ppu.write_dispcnt(0x0003 | (1 << 10));
    // Pixel (1, 0): byte offset (0*240 + 1) * 2 = 2. Green (0x03E0).
    let off = 2;
    mem.vram[off..off + 2].copy_from_slice(&0x03E0u16.to_le_bytes());
    ppu.latch_for_scanline();

    let view = PpuMemoryView::new(&mem);
    ppu.render_scanline(0, &view, &mut NullSink);
    assert_eq!(ppu.framebuffer()[1], Color15(0x03E0));
}

/// The explain path reports the exact VRAM source address for a Mode 3 pixel.
#[test]
fn explain_reports_mode3_source_address() {
    let mut ppu = Ppu::new();
    let mut mem = Memory::default();
    ppu.write_dispcnt(0x0003 | (1 << 10));
    let off = (5 * WIDTH + 10) * 2;
    mem.vram[off..off + 2].copy_from_slice(&0x7FFFu16.to_le_bytes());

    let view = PpuMemoryView::new(&mem);
    let explanation = ppu.explain_current_pixel(10, 5, &view).unwrap();
    assert_eq!(explanation.final_color, Color15(0x7FFF));
    assert_eq!(explanation.video_mode, 3);

    let bg2 = explanation.candidate_for(LayerId::Bg2).expect("BG2 candidate");
    match bg2.provenance {
        SourceProvenance::BitmapBg(p) => {
            assert_eq!(p.vram_address, VRAM_BASE + off as u32);
            assert_eq!(p.resolved, Color15(0x7FFF));
        }
        _ => panic!("expected bitmap provenance"),
    }
    // The backdrop is also a candidate, lower priority.
    let backdrop = explanation
        .candidate_for(LayerId::Backdrop)
        .expect("backdrop candidate");
    match backdrop.provenance {
        SourceProvenance::Backdrop(p) => assert_eq!(p.palette_address, PALETTE_BASE),
        _ => panic!("expected backdrop provenance"),
    }
}

/// Mode 4 looks up an 8-bit index in the background palette; index 0 is
/// transparent and shows the backdrop.
#[test]
fn mode4_indexed_lookup_and_transparency() {
    let mut ppu = Ppu::new();
    let mut mem = Memory::default();
    ppu.write_dispcnt(0x0004 | (1 << 10));
    mem.palette[0..2].copy_from_slice(&0x7C00u16.to_le_bytes()); // backdrop = blue
    mem.palette[10..12].copy_from_slice(&0x03E0u16.to_le_bytes()); // index 5 = green
    mem.vram[0] = 5; // pixel (0,0) -> index 5
    mem.vram[1] = 0; // pixel (1,0) -> transparent
    ppu.latch_for_scanline();

    let view = PpuMemoryView::new(&mem);
    ppu.render_scanline(0, &view, &mut NullSink);
    assert_eq!(ppu.framebuffer()[0], Color15(0x03E0));
    assert_eq!(ppu.framebuffer()[1], Color15(0x7C00)); // transparent -> backdrop
}

/// Mode 4's `DISPCNT` bit 4 selects the second VRAM page.
#[test]
fn mode4_frame_select_reads_second_page() {
    let mut ppu = Ppu::new();
    let mut mem = Memory::default();
    ppu.write_dispcnt(0x0004 | (1 << 10) | (1 << 4)); // frame 1
    mem.palette[2..4].copy_from_slice(&0x001Fu16.to_le_bytes()); // index 1 = red
    mem.vram[0xA000] = 1; // frame 1, pixel (0,0)
    mem.vram[0] = 7; // frame 0 value, must be ignored
    ppu.latch_for_scanline();

    let view = PpuMemoryView::new(&mem);
    ppu.render_scanline(0, &view, &mut NullSink);
    assert_eq!(ppu.framebuffer()[0], Color15(0x001F));
}

/// Mode 5 is direct color but only 160×128; outside those bounds is backdrop.
#[test]
fn mode5_direct_color_within_reduced_dimensions() {
    let mut ppu = Ppu::new();
    let mut mem = Memory::default();
    ppu.write_dispcnt(0x0005 | (1 << 10));
    mem.palette[0..2].copy_from_slice(&0x7C00u16.to_le_bytes()); // backdrop = blue
    mem.vram[0..2].copy_from_slice(&0x03E0u16.to_le_bytes()); // pixel (0,0) = green
    ppu.latch_for_scanline();

    let view = PpuMemoryView::new(&mem);
    ppu.render_scanline(0, &view, &mut NullSink);
    assert_eq!(ppu.framebuffer()[0], Color15(0x03E0));
    // x = 200 is beyond mode 5's 160-wide framebuffer -> backdrop.
    assert_eq!(ppu.framebuffer()[200], Color15(0x7C00));

    // A line beyond mode 5's 128-tall framebuffer is entirely backdrop.
    ppu.render_scanline(130, &view, &mut NullSink);
    assert_eq!(ppu.framebuffer()[130 * WIDTH], Color15(0x7C00));
}

/// Mode 4's explanation reports both the VRAM index address and the palette
/// entry it resolved through.
#[test]
fn explain_reports_mode4_palette_source() {
    let mut ppu = Ppu::new();
    let mut mem = Memory::default();
    ppu.write_dispcnt(0x0004 | (1 << 10));
    mem.palette[20..22].copy_from_slice(&0x7FFFu16.to_le_bytes()); // index 10 = white
    let off = 3 * WIDTH + 4; // pixel (4, 3)
    mem.vram[off] = 10;

    let view = PpuMemoryView::new(&mem);
    let explanation = ppu.explain_current_pixel(4, 3, &view).unwrap();
    assert_eq!(explanation.final_color, Color15(0x7FFF));
    assert_eq!(explanation.video_mode, 4);

    let bg2 = explanation.candidate_for(LayerId::Bg2).expect("BG2 candidate");
    match bg2.provenance {
        SourceProvenance::BitmapBg(p) => {
            assert_eq!(p.vram_address, VRAM_BASE + off as u32);
            assert_eq!(p.palette_address, Some(PALETTE_BASE + 10 * 2));
            assert!(matches!(p.raw, BitmapSample::Indexed(10)));
        }
        _ => panic!("expected bitmap provenance"),
    }
}

/// A pixel outside the visible framebuffer is an explicit error.
#[test]
fn explain_rejects_out_of_range_pixel() {
    let mut ppu = Ppu::new();
    let mem = Memory::default();
    let view = PpuMemoryView::new(&mem);
    assert!(matches!(
        ppu.explain_current_pixel(240, 0, &view),
        Err(ExplainError::PixelOutsideFramebuffer { .. })
    ));
}

/// A rejection is reported with its reason, on the layer's candidate or, where it has
/// none, as an entry of its own.
#[test]
fn rejections_are_reported_with_or_without_a_candidate() {
    let mut recorder = PixelRecorder::new(3);
    let reason = RejectionReason::WindowHidden { region: WindowRegion::Win1 };
    recorder.record_rejection(3, LayerId::Bg1, reason);
    recorder.record_rejection(4, LayerId::Bg2, reason); // another column
    let explanation = recorder.finish(0, 0);
    assert_eq!(explanation.candidates.len(), 1);
    let entry = explanation.candidate_for(LayerId::Bg1).unwrap();
    assert_eq!(entry.rejection_reason, Some(reason));
    assert!(!entry.visible_after_window);
    assert!(entry.provenance.source_addresses().is_empty());
}

/// A layer hidden by a window is left out of the set and reported with the region.
#[test]
fn a_hidden_layer_is_rejected_with_its_region() {
    let mut scratch = Scratch::default();
    let pixel = CandidatePixel {
        color: Color15(7),
        layer: LayerId::Bg2,
        priority: 1,
        flags: PixelFlags::none(),
    };
    scratch.bg[2].pixels[5] = Some(pixel);
    let mut mask = WindowMask::all_visible();
    mask.bg[2] = false;
    let backdrop = CandidatePixel::backdrop(Color15(1));
    let mut recorder = PixelRecorder::new(5);
    let set = gather(5, &scratch, &mask, WindowRegion::Win0, backdrop, &mut recorder);
    assert_eq!(set.len(), 1);
    let explanation = recorder.finish(0, 0);
    assert_eq!(explanation.window.region, WindowRegion::Win0);
    assert!(!explanation.window.layers_enabled[2]);
    let entry = explanation.candidate_for(LayerId::Bg2).unwrap();
    assert_eq!(
        entry.rejection_reason,
        Some(RejectionReason::WindowHidden { region: WindowRegion::Win0 })
    );
}
