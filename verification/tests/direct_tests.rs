use st7306::bus::BusOp;
use st7306::ST7735;

/// One framed command: select, opcode, optional data phase, deselect.
fn frame(op: u8, params: &[u8]) -> Vec<BusOp> {
    let mut v = vec![BusOp::CsLow, BusOp::DcLow, BusOp::Byte(op)];
    if !params.is_empty() {
        v.push(BusOp::CsLow);
        v.push(BusOp::DcHigh);
        for &b in params {
            v.push(BusOp::Byte(b));
        }
    }
    v.push(BusOp::CsHigh);
    v
}

#[test]
fn direct_new_initial_state() {
    let d = ST7735::new(160, 80, false, 0, 0);
    assert!(d.sleeping);
    assert!(!d.display_on);
    assert_eq!(d.size(), (160, 80));
}

#[test]
fn address_window_is_identity_plus_offset() {
    let mut d = ST7735::new(160, 80, false, 2, 3);
    let ops = d.set_address_window(1, 2, 4, 5);
    let mut expected = frame(0x2A, &[0, 3, 0, 6]);
    expected.extend(frame(0x2B, &[0, 5, 0, 8]));
    assert_eq!(ops, expected);
}

#[test]
fn set_offset_shifts_later_windows() {
    let mut d = ST7735::new(100, 100, false, 0, 0);
    d.set_offset(10, 20);
    let ops = d.set_address_window(0, 0, 0, 0);
    let mut expected = frame(0x2A, &[0, 10, 0, 10]);
    expected.extend(frame(0x2B, &[0, 20, 0, 20]));
    assert_eq!(ops, expected);
}

#[test]
fn write_pixels_streams_big_endian_words() {
    let mut d = ST7735::new(160, 80, false, 0, 0);
    let ops = d.write_pixels(&vec![0x1234, 0xABCD]);
    let mut expected = frame(0x2C, &[]);
    expected.push(BusOp::CsLow);
    expected.push(BusOp::DcHigh);
    for b in [0x12u8, 0x34, 0xAB, 0xCD] {
        expected.push(BusOp::Byte(b));
    }
    assert_eq!(ops, expected);
}

#[test]
fn set_pixel_is_one_pixel_window_then_word() {
    let mut d = ST7735::new(160, 80, false, 0, 0);
    let ops = d.set_pixel(5, 7, 0x00FF);
    let mut expected = frame(0x2A, &[0, 5, 0, 5]);
    expected.extend(frame(0x2B, &[0, 7, 0, 7]));
    expected.extend(frame(0x2C, &[]));
    expected.push(BusOp::CsLow);
    expected.push(BusOp::DcHigh);
    expected.push(BusOp::Byte(0x00));
    expected.push(BusOp::Byte(0xFF));
    assert_eq!(ops, expected);
}

#[test]
fn init_then_corner_pixel_ends_in_window_ramwr_word() {
    // End-to-end: a 160x80 direct-write panel, initialized, then the
    // far corner painted 0xFFFF.
    let mut d = ST7735::new(160, 80, false, 0, 0);
    let mut ops = d.init();
    assert!(!d.sleeping);
    assert!(d.display_on);
    ops.extend(d.set_pixel(159, 79, 0xFFFF));

    let mut tail = frame(0x2A, &[0, 159, 0, 159]);
    tail.extend(frame(0x2B, &[0, 79, 0, 79]));
    tail.extend(frame(0x2C, &[]));
    tail.push(BusOp::CsLow);
    tail.push(BusOp::DcHigh);
    tail.push(BusOp::Byte(0xFF));
    tail.push(BusOp::Byte(0xFF));
    assert_eq!(&ops[ops.len() - tail.len()..], tail.as_slice());

    // Read just the bus bytes: the stream must end with the window for
    // column/row 159/79, RAMWR, and the two big-endian color bytes.
    let bytes: Vec<u8> = ops
        .iter()
        .filter_map(|op| match op {
            BusOp::Byte(b) => Some(*b),
            _ => None,
        })
        .collect();
    let byte_tail = [
        0x2A, 0, 159, 0, 159, 0x2B, 0, 79, 0, 79, 0x2C, 0xFF, 0xFF,
    ];
    assert_eq!(&bytes[bytes.len() - byte_tail.len()..], &byte_tail);
}

#[test]
fn init_starts_with_hard_reset_and_resets_chip() {
    let mut d = ST7735::new(160, 80, true, 0, 0);
    let ops = d.init();
    assert_eq!(
        &ops[..5],
        &[
            BusOp::RstHigh,
            BusOp::DelayMs(10),
            BusOp::RstLow,
            BusOp::DelayMs(10),
            BusOp::RstHigh,
        ]
    );
    assert_eq!(&ops[5..9], frame(0x01, &[]).as_slice());
    // An inverted panel gets INVON before display-on.
    let mut tail = frame(0x21, &[]);
    tail.extend(frame(0x29, &[]));
    assert_eq!(&ops[ops.len() - tail.len()..], tail.as_slice());
}
