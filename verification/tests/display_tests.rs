use st7789_core::color::DisplayColorModeBPP;
use st7789_core::color::DisplayMADCTL;
use st7789_core::color::DisplayRotation;
use st7789_core::display::Display;
use st7789_core::link::LinkOp;

fn new_cleared(width: u16, height: u16, bpp: DisplayColorModeBPP) -> Display {
    let mut display = Display::new(width, height, bpp, DisplayRotation::Portrait);
    display.clear_ops();
    display
}

/// The five operations arming a window, as the driver emits them.
fn window_ops(x0: u16, y0: u16, x1: u16, y1: u16) -> Vec<LinkOp> {
    vec![
        LinkOp::Command(0x2A),
        LinkOp::Data(vec![
            (x0 >> 8) as u8,
            (x0 & 0xFF) as u8,
            (x1 >> 8) as u8,
            (x1 & 0xFF) as u8,
        ]),
        LinkOp::Command(0x2B),
        LinkOp::Data(vec![
            (y0 >> 8) as u8,
            (y0 & 0xFF) as u8,
            (y1 >> 8) as u8,
            (y1 & 0xFF) as u8,
        ]),
        LinkOp::Command(0x2C),
    ]
}

#[test]
fn set_columns_emits_big_endian_range() {
    let mut display = new_cleared(300, 200, DisplayColorModeBPP::BPP16);
    display.set_columns(258, 299);
    assert_eq!(
        display.ops().as_slice(),
        &[
            LinkOp::Command(0x2A),
            LinkOp::Data(vec![0x01, 0x02, 0x01, 0x2B]),
        ]
    );
}

#[test]
fn set_rows_emits_big_endian_range() {
    let mut display = new_cleared(300, 200, DisplayColorModeBPP::BPP16);
    display.set_rows(0, 199);
    assert_eq!(
        display.ops().as_slice(),
        &[
            LinkOp::Command(0x2B),
            LinkOp::Data(vec![0x00, 0x00, 0x00, 0xC7]),
        ]
    );
}

#[test]
fn set_columns_out_of_order_is_a_silent_no_op() {
    let mut display = new_cleared(240, 240, DisplayColorModeBPP::BPP16);
    display.set_columns(5, 4);
    assert!(display.ops().is_empty());
    assert_eq!(display.width(), 240);
    assert_eq!(display.color_mode(), DisplayColorModeBPP::BPP16);
}

#[test]
fn set_columns_off_the_surface_is_a_silent_no_op() {
    let mut display = new_cleared(240, 240, DisplayColorModeBPP::BPP16);
    display.set_columns(0, 240);
    assert!(display.ops().is_empty());
}

#[test]
fn set_rows_out_of_order_is_a_silent_no_op() {
    let mut display = new_cleared(240, 240, DisplayColorModeBPP::BPP16);
    display.set_rows(9, 3);
    assert!(display.ops().is_empty());
}

#[test]
fn set_rows_off_the_surface_is_a_silent_no_op() {
    let mut display = new_cleared(240, 240, DisplayColorModeBPP::BPP16);
    display.set_rows(100, 300);
    assert!(display.ops().is_empty());
}

#[test]
fn set_window_emits_both_ranges_and_memory_write() {
    let mut display = new_cleared(240, 240, DisplayColorModeBPP::BPP16);
    display.set_window(3, 4, 10, 20);
    assert_eq!(display.ops().as_slice(), window_ops(3, 4, 10, 20).as_slice());
}

#[test]
fn set_window_with_rejected_range_still_arms_memory_write() {
    let mut display = new_cleared(240, 240, DisplayColorModeBPP::BPP16);
    display.set_window(10, 4, 5, 20);
    assert_eq!(
        display.ops().as_slice(),
        &[
            LinkOp::Command(0x2B),
            LinkOp::Data(vec![0x00, 0x04, 0x00, 0x14]),
            LinkOp::Command(0x2C),
        ]
    );
}

#[test]
fn fill_240_by_240_streams_one_pixel_per_position() {
    let mut display = new_cleared(240, 240, DisplayColorModeBPP::BPP16);
    display.fill(0x00000000);
    let ops = display.ops();
    assert_eq!(ops.len(), 5 + 240 * 240);
    assert_eq!(&ops[0..5], window_ops(0, 0, 239, 239).as_slice());
    for i in 0..240 * 240 {
        assert_eq!(ops[5 + i], LinkOp::Data(vec![0x00, 0x00]));
    }
}

#[test]
fn pack_16_bit_truncates_the_low_16_bits() {
    let mut display = new_cleared(8, 8, DisplayColorModeBPP::BPP16);
    display.draw_solid_rect(0, 0, 1, 1, 0xFF1234);
    assert_eq!(display.ops()[5], LinkOp::Data(vec![0x12, 0x34]));

    display.clear_ops();
    display.draw_solid_rect(0, 0, 1, 1, 0xABCDEF);
    assert_eq!(display.ops()[5], LinkOp::Data(vec![0xCD, 0xEF]));

    // Everything above bit 15 is ignored: same low bytes, same wire bytes.
    display.clear_ops();
    display.draw_solid_rect(0, 0, 1, 1, 0x00CDEF);
    assert_eq!(display.ops()[5], LinkOp::Data(vec![0xCD, 0xEF]));
}

#[test]
fn pack_18_bit_sends_three_bytes() {
    let mut display = new_cleared(8, 8, DisplayColorModeBPP::BPP18);
    display.draw_solid_rect(0, 0, 2, 1, 0xABCDEF);
    let ops = display.ops();
    assert_eq!(ops.len(), 5 + 2);
    assert_eq!(ops[5], LinkOp::Data(vec![0xAB, 0xCD, 0xEF]));
    assert_eq!(ops[6], LinkOp::Data(vec![0xAB, 0xCD, 0xEF]));
}

#[test]
fn pack_16m_truncated_sends_three_bytes() {
    let mut display = new_cleared(8, 8, DisplayColorModeBPP::BPP16M);
    display.draw_solid_rect(0, 0, 1, 1, 0x123456);
    assert_eq!(display.ops()[5], LinkOp::Data(vec![0x12, 0x34, 0x56]));
}

#[test]
fn pack_12_bit_sends_empty_payloads() {
    // The 12-bit variant packs no bytes at all; each pixel is still one
    // (empty) data transaction.
    let mut display = new_cleared(8, 8, DisplayColorModeBPP::BPP12);
    display.draw_solid_rect(0, 0, 2, 2, 0xFFFFFF);
    let ops = display.ops();
    assert_eq!(ops.len(), 5 + 4);
    for i in 0..4 {
        assert_eq!(ops[5 + i], LinkOp::Data(vec![]));
    }
}

#[test]
fn draw_while_unset_emits_nothing() {
    let mut display = new_cleared(240, 240, DisplayColorModeBPP::UNKNOWN);
    display.draw_solid_rect(0, 0, 10, 10, 0xFFFF);
    display.fill(0x1234);
    assert!(display.ops().is_empty());
}

#[test]
fn construction_with_unset_mode_fills_nothing() {
    let display = Display::new(4, 4, DisplayColorModeBPP::UNKNOWN, DisplayRotation::Portrait);
    for op in display.ops() {
        // The bring-up fill emits nothing under the sentinel: no window,
        // no pixel stream, so no memory-write command anywhere.
        assert_ne!(*op, LinkOp::Command(0x2C));
    }
}

#[test]
fn rect_is_clamped_onto_the_surface() {
    let mut display = new_cleared(10, 10, DisplayColorModeBPP::BPP16);
    // Both the origin and the extent lie off the surface: the origin moves
    // to the last position, the extent shrinks to one pixel.
    display.draw_solid_rect(15, 12, 5, 5, 0xFFFF);
    let ops = display.ops();
    assert_eq!(&ops[0..5], window_ops(9, 9, 9, 9).as_slice());
    assert_eq!(ops.len(), 5 + 1);
}

#[test]
fn rect_extent_is_clamped_to_fit() {
    let mut display = new_cleared(10, 10, DisplayColorModeBPP::BPP16);
    display.draw_solid_rect(8, 8, 100, 100, 0xFFFF);
    let ops = display.ops();
    assert_eq!(&ops[0..5], window_ops(8, 8, 9, 9).as_slice());
    assert_eq!(ops.len(), 5 + 4);
}

#[test]
fn rect_touching_the_edge_is_clamped() {
    // x + w == width counts as exceeding and shrinks the extent.
    let mut display = new_cleared(10, 10, DisplayColorModeBPP::BPP16);
    display.draw_solid_rect(2, 3, 8, 7, 0xFFFF);
    let ops = display.ops();
    assert_eq!(&ops[0..5], window_ops(2, 3, 9, 9).as_slice());
    assert_eq!(ops.len(), 5 + 8 * 7);
}

#[test]
fn set_bpp_stores_each_defined_mode() {
    let mut display = new_cleared(8, 8, DisplayColorModeBPP::BPP16);
    let modes = [
        DisplayColorModeBPP::BPP12,
        DisplayColorModeBPP::BPP16,
        DisplayColorModeBPP::BPP18,
        DisplayColorModeBPP::BPP16M,
    ];
    for mode in modes {
        display.set_bpp(mode);
        assert_eq!(display.color_mode(), mode);
    }
}

#[test]
fn set_bpp_emits_the_fixed_mode_table() {
    let mut display = new_cleared(8, 8, DisplayColorModeBPP::BPP16);
    display.clear_ops();

    display.set_bpp(DisplayColorModeBPP::BPP12);
    assert_eq!(
        display.ops().as_slice(),
        &[LinkOp::Command(0x3A), LinkOp::Data(vec![0x53])]
    );
    display.clear_ops();

    display.set_bpp(DisplayColorModeBPP::BPP16);
    assert_eq!(
        display.ops().as_slice(),
        &[LinkOp::Command(0x3A), LinkOp::Data(vec![0x55])]
    );
    display.clear_ops();

    display.set_bpp(DisplayColorModeBPP::BPP16M);
    assert_eq!(
        display.ops().as_slice(),
        &[LinkOp::Command(0x3A), LinkOp::Data(vec![0x57])]
    );
    display.clear_ops();

    // The 18-bit case keeps the 262K interface bits with the 12-bit depth
    // bits, exactly as the original table has it.
    display.set_bpp(DisplayColorModeBPP::BPP18);
    assert_eq!(
        display.ops().as_slice(),
        &[LinkOp::Command(0x3A), LinkOp::Data(vec![0x63])]
    );
    display.clear_ops();

    // The sentinel falls back to the 65K interface with 16-bit depth.
    display.set_bpp(DisplayColorModeBPP::UNKNOWN);
    assert_eq!(
        display.ops().as_slice(),
        &[LinkOp::Command(0x3A), LinkOp::Data(vec![0x55])]
    );
}

#[test]
fn bring_up_runs_the_fixed_sequence() {
    let display = Display::new(2, 2, DisplayColorModeBPP::BPP16, DisplayRotation::Landscape);
    let mut expected = vec![
        LinkOp::ChipSelect(false),
        LinkOp::ResetSignal(true),
        LinkOp::DelayMs(50),
        LinkOp::ResetSignal(false),
        LinkOp::DelayMs(50),
        LinkOp::ResetSignal(true),
        LinkOp::DelayMs(150),
        LinkOp::ChipSelect(true),
        LinkOp::Command(0x01),
        LinkOp::DelayMs(150),
        LinkOp::Command(0x11),
        LinkOp::Command(0x3A),
        LinkOp::Data(vec![0x55]),
        LinkOp::Command(0x36),
        LinkOp::Data(vec![0x60]),
        LinkOp::Command(0x21),
        LinkOp::Command(0x13),
    ];
    expected.extend(window_ops(0, 0, 1, 1));
    for _ in 0..4 {
        expected.push(LinkOp::Data(vec![0x00, 0x00]));
    }
    expected.push(LinkOp::Backlight(true));
    expected.push(LinkOp::Command(0x29));
    assert_eq!(display.ops().as_slice(), expected.as_slice());
}

#[test]
fn rotation_bytes_follow_the_madctl_table() {
    let cases = [
        (DisplayRotation::Portrait, 0x00u8),
        (DisplayRotation::Landscape, 0x60),
        (DisplayRotation::InvertedLandscape, 0xA0),
        (DisplayRotation::InvertedPortrait, 0xC0),
    ];
    for (rotation, byte) in cases {
        let mut display = new_cleared(4, 4, DisplayColorModeBPP::BPP16);
        display.set_rotation(rotation);
        assert_eq!(
            display.ops().as_slice(),
            &[LinkOp::Command(0x36), LinkOp::Data(vec![byte])]
        );
    }
}

#[test]
fn rotation_bytes_combine_madctl_flags() {
    assert_eq!(
        DisplayRotation::Landscape.byte(),
        DisplayMADCTL::MV.bits() | DisplayMADCTL::MX.bits()
    );
    assert_eq!(
        DisplayRotation::InvertedLandscape.byte(),
        DisplayMADCTL::MV.bits() | DisplayMADCTL::MY.bits()
    );
    assert_eq!(
        DisplayRotation::InvertedPortrait.byte(),
        DisplayMADCTL::MX.bits() | DisplayMADCTL::MY.bits()
    );
    assert_eq!(DisplayRotation::Portrait.byte(), 0x00);
}

#[test]
fn lifecycle_commands_use_the_documented_codes() {
    let mut display = new_cleared(4, 4, DisplayColorModeBPP::BPP16);
    display.set_sleep_mode(true);
    display.set_sleep_mode(false);
    display.set_inversion_mode(true);
    display.set_inversion_mode(false);
    display.set_display(true);
    display.set_display(false);
    display.set_normal_mode();
    display.set_backlight(false);
    assert_eq!(
        display.ops().as_slice(),
        &[
            LinkOp::Command(0x10),
            LinkOp::Command(0x11),
            LinkOp::Command(0x21),
            LinkOp::Command(0x20),
            LinkOp::Command(0x29),
            LinkOp::Command(0x28),
            LinkOp::Command(0x13),
            LinkOp::Backlight(false),
        ]
    );
}

#[test]
fn send_data_passes_payloads_through_verbatim() {
    let mut display = new_cleared(4, 4, DisplayColorModeBPP::BPP16);
    let photo = [1u8, 2, 3, 4, 5];
    display.send_data(&photo);
    assert_eq!(display.ops().as_slice(), &[LinkOp::Data(vec![1, 2, 3, 4, 5])]);
}
