use st7306::bus::BusOp;
use st7306::{Color565, FpsConfig, HpmFps, LpmFps, PixelDraw, PowerMode, ST7306};

fn fps() -> FpsConfig {
    FpsConfig { hpm: HpmFps::ThirtyTwo, lpm: LpmFps::One }
}

/// A tiny panel: 24x4 pixels in 2x2 framebuffer cells at base (0, 0).
fn small() -> ST7306 {
    ST7306::new(false, false, false, fps(), 24, 4, 0, 0, 2, 2)
}

/// A panel shaped like a real 300x400 module at base column 18.
fn panel() -> ST7306 {
    ST7306::new(false, false, false, fps(), 300, 400, 18, 0, 25, 200)
}

/// One framed command: select, opcode, optional data phase, deselect.
fn frame(op: u8, params: &[u8]) -> Vec<BusOp> {
    let mut v = vec![BusOp::CsLow, BusOp::DcLow, BusOp::Byte(op)];
    if !params.is_empty() {
        v.push(BusOp::CsLow);
        v.push(BusOp::DcHigh);
        for &b in params {
            v.push(BusOp::Byte(b));
        }
    }
    v.push(BusOp::CsHigh);
    v
}

#[test]
fn new_initial_state() {
    let d = panel();
    assert!(d.sleeping);
    assert_eq!(d.power_mode, PowerMode::Hpm);
    assert!(!d.display_on);
    assert_eq!(d.addr_window.col_start, 18);
    assert_eq!(d.addr_window.col_end, 42);
    assert_eq!(d.addr_window.row_start, 0);
    assert_eq!(d.addr_window.row_end, 199);
    assert_eq!(d.framebuffer.len(), 25 * 200 * 3);
    assert!(d.framebuffer.iter().all(|&b| b == 0));
}

#[test]
fn write_command_frames_params() {
    let mut d = small();
    let ops = d.write_command(st7306::Instruction::GCTRL, &vec![0x08, 0x02]);
    assert_eq!(ops, frame(0xC0, &[0x08, 0x02]));
}

#[test]
fn write_command_without_params_has_no_data_phase() {
    let mut d = small();
    let ops = d.write_command(st7306::Instruction::SWRESET, &vec![]);
    assert_eq!(
        ops,
        vec![BusOp::CsLow, BusOp::DcLow, BusOp::Byte(0x01), BusOp::CsHigh]
    );
}

#[test]
fn start_data_pin_discipline() {
    let mut d = small();
    assert_eq!(d.start_data(), vec![BusOp::CsLow, BusOp::DcHigh]);
}

#[test]
fn write_ram_streams_triples() {
    let mut d = small();
    let ops = d.write_ram(&vec![(1, 2, 3), (4, 5, 6)]);
    let expected: Vec<BusOp> = vec![1u8, 2, 3, 4, 5, 6].into_iter().map(BusOp::Byte).collect();
    assert_eq!(ops, expected);
}

#[test]
fn set_pixel_bit_position_table() {
    // The full (x % 12, y % 2) table: byte (x % 12) / 4, and inside it a
    // pair of bits per pixel column, upper row in the high bit.
    for xm in 0u16..12 {
        for ym in 0u16..2 {
            let mut d = small();
            d.set_pixel(xm, ym, 0);
            let byte = (xm / 4) as usize;
            let mask = 0x80u8 >> (2 * (xm % 4) + ym);
            for (i, &b) in d.framebuffer.iter().enumerate() {
                if i == byte {
                    assert_eq!(b, mask, "x={xm} y={ym}");
                } else {
                    assert_eq!(b, 0, "x={xm} y={ym} i={i}");
                }
            }
        }
    }
}

#[test]
fn set_pixel_addresses_the_right_cell() {
    let mut d = small();
    // Pixel (13, 3) lives in cell row 1, col 1; offsets (1, 1) give byte 0
    // of the cell, mask 0x80 >> 3.
    d.set_pixel(13, 3, 0);
    let idx = (1 * 2 + 1) * 3 + 0;
    assert_eq!(d.framebuffer[idx], 0x10);
}

#[test]
fn set_pixel_binarization_threshold() {
    let mut d = small();
    d.set_pixel(0, 0, 0); // below 1: black, bit set
    assert_eq!(d.framebuffer[0], 0x80);
    d.set_pixel(0, 0, 1); // 1 and above: white, bit cleared
    assert_eq!(d.framebuffer[0], 0x00);
    d.set_pixel(0, 0, 255);
    assert_eq!(d.framebuffer[0], 0x00);
}

#[test]
fn set_pixel_preserves_other_bits() {
    let mut d = small();
    d.set_pixel(0, 0, 0);
    d.set_pixel(1, 1, 0);
    d.set_pixel(3, 0, 0);
    assert_eq!(d.framebuffer[0], 0x80 | 0x10 | 0x02);
    d.set_pixel(1, 1, 1);
    assert_eq!(d.framebuffer[0], 0x80 | 0x02);
}

#[test]
fn flush_streams_whole_framebuffer() {
    let mut d = small();
    d.set_pixel(0, 0, 0);
    let ops = d.flush();
    let mut expected = frame(0x2C, &[]);
    expected.push(BusOp::CsLow);
    expected.push(BusOp::DcHigh);
    for (i, &b) in d.framebuffer.iter().enumerate() {
        assert_eq!(b, if i == 0 { 0x80 } else { 0 });
        expected.push(BusOp::Byte(b));
    }
    assert_eq!(ops.len(), 4 + 2 + 12);
    assert_eq!(ops, expected);
}

#[test]
fn address_window_single_cell() {
    // A 12x2 rectangle at the origin is exactly one cell: with base
    // offset (18, 0) the registers are CASET=[18,18], RASET=[0,0].
    let mut d = panel();
    let ops = d.set_address_window(0, 0, 11, 1);
    let mut expected = frame(0x2A, &[18, 18]);
    expected.extend(frame(0x2B, &[0, 0]));
    assert_eq!(ops, expected);
}

#[test]
fn address_window_snaps_to_containing_cells() {
    // An unaligned rectangle truncates to the cells that contain it.
    let mut d = panel();
    let ops = d.set_address_window(5, 1, 30, 7);
    let mut expected = frame(0x2A, &[18 + 0, 18 + 2]);
    expected.extend(frame(0x2B, &[0, 3]));
    assert_eq!(ops, expected);
}

#[test]
fn draw_pixels_fully_clipped_emits_nothing() {
    let mut d = small();
    let before = d.framebuffer.clone();
    let pixels = vec![
        PixelDraw { x: -1, y: 0, color: Color565::new(0) },
        PixelDraw { x: 0, y: -5, color: Color565::new(0) },
        PixelDraw { x: 24, y: 0, color: Color565::new(0) },
        PixelDraw { x: 3, y: 4, color: Color565::new(0) },
        PixelDraw { x: 1000, y: 1000, color: Color565::new(0) },
    ];
    let ops = d.draw_pixels(&pixels, false);
    assert!(ops.is_empty());
    assert_eq!(d.framebuffer, before);
}

#[test]
fn draw_pixels_clips_only_offscreen_pixels() {
    let mut d = small();
    let pixels = vec![
        PixelDraw { x: -1, y: 0, color: Color565::new(0) },
        PixelDraw { x: 0, y: 0, color: Color565::new(0) },
        PixelDraw { x: 24, y: 3, color: Color565::new(0) },
    ];
    let ops = d.draw_pixels(&pixels, false);
    assert!(ops.is_empty());
    assert_eq!(d.framebuffer[0], 0x80);
    assert_eq!(d.framebuffer.iter().filter(|&&b| b != 0).count(), 1);
}

#[test]
fn draw_pixels_color_uses_low_byte() {
    let mut d = small();
    // Raw 0x0100 truncates to byte 0: black. Raw 0x0101 truncates to 1:
    // white.
    let pixels = vec![PixelDraw { x: 0, y: 0, color: Color565::new(0x0100) }];
    d.draw_pixels(&pixels, false);
    assert_eq!(d.framebuffer[0], 0x80);
    let pixels = vec![PixelDraw { x: 0, y: 0, color: Color565::new(0x0101) }];
    d.draw_pixels(&pixels, false);
    assert_eq!(d.framebuffer[0], 0x00);
}

#[test]
fn draw_pixels_with_flush_streams_framebuffer() {
    let mut d = small();
    let pixels = vec![PixelDraw { x: 4, y: 0, color: Color565::new(0) }];
    let ops = d.draw_pixels(&pixels, true);
    let mut expected = frame(0x2C, &[]);
    expected.push(BusOp::CsLow);
    expected.push(BusOp::DcHigh);
    for &b in d.framebuffer.iter() {
        expected.push(BusOp::Byte(b));
    }
    assert_eq!(ops, expected);
    assert_eq!(d.framebuffer[1], 0x80);
}

#[test]
fn switch_mode_emits_once_then_nothing() {
    let mut d = small();
    d.power_mode = PowerMode::Lpm;
    let first = d.switch_mode(PowerMode::Hpm);
    let mut expected = frame(0x38, &[]);
    expected.push(BusOp::DelayMs(255));
    assert_eq!(first, expected);
    assert_eq!(d.power_mode, PowerMode::Hpm);
    // Issued twice in a row: the repeat is a no-op.
    let second = d.switch_mode(PowerMode::Hpm);
    assert!(second.is_empty());
    assert_eq!(d.power_mode, PowerMode::Hpm);
}

#[test]
fn switch_mode_to_lpm_uses_shorter_delay() {
    let mut d = small();
    let ops = d.switch_mode(PowerMode::Lpm);
    let mut expected = frame(0x39, &[]);
    expected.push(BusOp::DelayMs(100));
    assert_eq!(ops, expected);
}

#[test]
fn sleep_in_from_low_power_forces_high_power_first() {
    let mut d = small();
    d.sleeping = false;
    d.power_mode = PowerMode::Lpm;
    let ops = d.sleep_in();
    let mut expected = frame(0x38, &[]);
    expected.push(BusOp::DelayMs(255));
    expected.extend(frame(0x10, &[]));
    expected.push(BusOp::DelayMs(100));
    assert_eq!(ops, expected);
    assert!(d.sleeping);
    assert_eq!(d.power_mode, PowerMode::Hpm);
}

#[test]
fn sleep_in_from_high_power_skips_the_switch() {
    let mut d = small();
    d.sleeping = false;
    d.power_mode = PowerMode::Hpm;
    let ops = d.sleep_in();
    let mut expected = frame(0x10, &[]);
    expected.push(BusOp::DelayMs(100));
    assert_eq!(ops, expected);
    assert!(d.sleeping);
}

#[test]
fn sleep_out_does_not_restore_mode() {
    let mut d = small();
    d.power_mode = PowerMode::Lpm;
    let _ = d.sleep_in();
    let ops = d.sleep_out();
    let mut expected = frame(0x11, &[]);
    expected.push(BusOp::DelayMs(100));
    assert_eq!(ops, expected);
    assert!(!d.sleeping);
    // The forced high power mode stays; the caller must switch back.
    assert_eq!(d.power_mode, PowerMode::Hpm);
}

#[test]
fn on_off_commands_and_state() {
    let mut d = small();
    assert_eq!(d.on_off(true), frame(0x29, &[]));
    assert!(d.display_on);
    assert_eq!(d.on_off(false), frame(0x28, &[]));
    assert!(!d.display_on);
}

#[test]
fn invert_screen_commands_and_state() {
    let mut d = small();
    assert_eq!(d.invert_screen(true), frame(0x21, &[]));
    assert!(d.inverted);
    assert_eq!(d.invert_screen(false), frame(0x20, &[]));
    assert!(!d.inverted);
}

#[test]
fn set_fps_reencodes_config() {
    let mut d = small();
    let cfg = FpsConfig { hpm: HpmFps::ThirtyTwo, lpm: LpmFps::Eight };
    let ops = d.set_fps(cfg);
    assert_eq!(ops, frame(0xB2, &[0x15]));
    assert_eq!(d.fps, cfg);
}

#[test]
fn clear_ram_cmd_parameter_bytes() {
    let mut d = small();
    assert_eq!(d.clear_ram_cmd(true), frame(0xBB, &[0xCF]));
    assert_eq!(d.clear_ram_cmd(false), frame(0xBB, &[0x4F]));
}

#[test]
fn clear_ram_wraps_clear_in_display_off_on() {
    let mut d = small();
    let ops = d.clear_ram();
    let mut expected = frame(0x28, &[]);
    expected.extend(frame(0xBB, &[0xCF]));
    expected.extend(frame(0x29, &[]));
    assert_eq!(ops, expected);
    assert!(d.display_on);
}

#[test]
fn clear_uses_hardware_ram_clear_for_dark_colors() {
    let mut d = small();
    d.set_pixel(0, 0, 0);
    let before = d.framebuffer.clone();
    let ops = d.clear(Color565::new(0x0000));
    let mut expected = frame(0x28, &[]);
    expected.extend(frame(0xBB, &[0xCF]));
    expected.extend(frame(0x29, &[]));
    assert_eq!(ops, expected);
    // The hardware clear leaves the local framebuffer untouched.
    assert_eq!(d.framebuffer, before);
}

#[test]
fn size_is_a_pure_query() {
    let d = panel();
    assert_eq!(d.size(), (300, 400));
}

#[test]
fn init_sequence_shape_and_state() {
    let mut d = panel();
    let ops = d.init();

    // Hard reset comes first.
    assert_eq!(
        &ops[..5],
        &[
            BusOp::RstHigh,
            BusOp::DelayMs(10),
            BusOp::RstLow,
            BusOp::DelayMs(10),
            BusOp::RstHigh,
        ]
    );
    // Then software reset and its settling delay.
    assert_eq!(&ops[5..9], frame(0x01, &[]).as_slice());
    assert_eq!(ops[9], BusOp::DelayMs(200));

    // The frame rate register carries the configured byte.
    let frctrl = frame(0xB2, &[0x12]);
    assert!(ops.windows(frctrl.len()).any(|w| w == frctrl.as_slice()));

    // The address window matches the panel placement.
    let caset = frame(0x2A, &[18, 42]);
    assert!(ops.windows(caset.len()).any(|w| w == caset.as_slice()));
    let raset = frame(0x2B, &[0, 199]);
    assert!(ops.windows(raset.len()).any(|w| w == raset.as_slice()));

    // The tail: low power mode, inversion off, display on.
    let mut tail = frame(0x39, &[]);
    tail.extend(frame(0x20, &[]));
    tail.extend(frame(0x29, &[]));
    assert_eq!(&ops[ops.len() - tail.len()..], tail.as_slice());

    assert!(!d.sleeping);
    assert_eq!(d.power_mode, PowerMode::Lpm);
    assert!(d.display_on);
}

#[test]
fn hard_reset_sequence() {
    let mut d = small();
    assert_eq!(
        d.hard_reset(),
        vec![
            BusOp::RstHigh,
            BusOp::DelayMs(10),
            BusOp::RstLow,
            BusOp::DelayMs(10),
            BusOp::RstHigh,
        ]
    );
}
