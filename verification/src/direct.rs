//! Driver for direct-write controllers of the ST7735 class.
//!
//! These controllers take one color word per pixel, so no local buffering
//! is needed: a single pixel write is an address window of one pixel
//! followed by one 16-bit color word, and bulk fills stream consecutive
//! words into a pre-established window without per-pixel command overhead.
//! As with the packed driver, every method returns the exact [`BusOp`]
//! sequence the hardware glue must perform.

use vstd::prelude::*;

use crate::bus::{
    command_frame, command_ops, data_start_ops, hard_reset_ops, push_command, push_delay,
    spec_hard_reset_ops, BusOp,
};
use crate::instruction::Instruction;

verus! {

/// The high byte of a 16-bit value, sent first on the bus.
pub open spec fn spec_hi_byte(v: u16) -> u8 {
    (v >> 8) as u8
}

/// The low byte of a 16-bit value, sent second on the bus.
pub open spec fn spec_lo_byte(v: u16) -> u8 {
    v as u8
}

/// Driver for a direct-write ST7735-class display controller.
///
/// The global offset (dx, dy) compensates for a panel mounted with a
/// pixel offset relative to the controller's addressable origin; it is
/// added to every coordinate sent to the chip.
#[derive(Debug, Clone, Copy, PartialEq, Eq, Structural)]
pub struct ST7735 {
    /// Display width in pixels
    pub width: u16,
    /// Display height in pixels
    pub height: u16,
    /// Horizontal offset of the panel within the addressable range
    pub dx: u16,
    /// Vertical offset of the panel within the addressable range
    pub dy: u16,
    /// Whether the colours are inverted (true) or not (false)
    pub inverted: bool,
    /// Whether currently sleeping
    pub sleeping: bool,
    /// Whether the display is currently on
    pub display_on: bool,
}

/// The CASET and RASET commands aiming RAM writes at a pixel rectangle:
/// the mapping is the identity plus the global offset, each register value
/// sent as two big-endian bytes.
pub open spec fn spec_direct_window_ops(
    dx: u16,
    dy: u16,
    start_x: u16,
    start_y: u16,
    end_x: u16,
    end_y: u16,
) -> Seq<BusOp> {
    command_frame(
        Instruction::CASET.spec_opcode(),
        seq![
            spec_hi_byte((start_x + dx) as u16),
            spec_lo_byte((start_x + dx) as u16),
            spec_hi_byte((end_x + dx) as u16),
            spec_lo_byte((end_x + dx) as u16),
        ],
    ) + command_frame(
        Instruction::RASET.spec_opcode(),
        seq![
            spec_hi_byte((start_y + dy) as u16),
            spec_lo_byte((start_y + dy) as u16),
            spec_hi_byte((end_y + dy) as u16),
            spec_lo_byte((end_y + dy) as u16),
        ],
    )
}

/// The big-endian byte stream of a sequence of 16-bit color words.
pub open spec fn spec_word_stream(colors: Seq<u16>) -> Seq<BusOp>
    decreases colors.len(),
{
    if colors.len() == 0 {
        Seq::empty()
    } else {
        spec_word_stream(colors.drop_last()) + seq![
            BusOp::Byte(spec_hi_byte(colors.last())),
            BusOp::Byte(spec_lo_byte(colors.last())),
        ]
    }
}

/// A RAM write into the established window: the RAMWR command, the
/// data-start pin discipline, then the color words.
pub open spec fn spec_write_pixels_ops(colors: Seq<u16>) -> Seq<BusOp> {
    command_frame(Instruction::RAMWR.spec_opcode(), Seq::<u8>::empty()) + data_start_ops()
        + spec_word_stream(colors)
}

/// One pixel write: an address window of one pixel, then its color word.
pub open spec fn spec_direct_set_pixel_ops(dx: u16, dy: u16, x: u16, y: u16, color: u16) -> Seq<
    BusOp,
> {
    spec_direct_window_ops(dx, dy, x, y, x, y) + spec_write_pixels_ops(seq![color])
}

/// The initialization stream of a direct-write controller: hard reset,
/// software reset, sleep-out, 16-bit pixel format, default memory access
/// order, the configured inversion, and display-on.
pub open spec fn spec_direct_init_ops(inverted: bool) -> Seq<BusOp> {
    spec_hard_reset_ops() + command_frame(Instruction::SWRESET.spec_opcode(), Seq::<u8>::empty())
        + seq![BusOp::DelayMs(200)] + command_frame(
        Instruction::SLPOUT.spec_opcode(),
        Seq::<u8>::empty(),
    ) + seq![BusOp::DelayMs(255)] + command_frame(Instruction::DTFORM.spec_opcode(), seq![0x05u8])
        + command_frame(Instruction::MADCTL.spec_opcode(), seq![0x00u8]) + (if inverted {
        command_frame(Instruction::INVON.spec_opcode(), Seq::<u8>::empty())
    } else {
        command_frame(Instruction::INVOFF.spec_opcode(), Seq::<u8>::empty())
    }) + command_frame(Instruction::DISPON.spec_opcode(), Seq::<u8>::empty())
}

impl ST7735 {
    /// Construction-time invariant: the panel is non-empty and every panel
    /// coordinate, shifted by the global offset, still fits the 16-bit
    /// address registers.
    pub open spec fn wf(self) -> bool {
        &&& 1 <= self.width
        &&& 1 <= self.height
        &&& self.dx + self.width - 1 <= u16::MAX
        &&& self.dy + self.height - 1 <= u16::MAX
    }

    /// Creates a new driver instance.
    pub fn new(width: u16, height: u16, inverted: bool, dx: u16, dy: u16) -> (r: Self)
        requires
            1 <= width,
            1 <= height,
            dx + width - 1 <= u16::MAX,
            dy + height - 1 <= u16::MAX,
        ensures
            r == (ST7735 {
                width,
                height,
                dx,
                dy,
                inverted,
                sleeping: true,
                display_on: false,
            }),
            r.wf(),
    {
        ST7735 { width, height, dx, dy, inverted, sleeping: true, display_on: false }
    }

    /// Change the global offset, for panels whose mounting shifts the
    /// addressable origin.
    pub fn set_offset(&mut self, dx: u16, dy: u16)
        requires
            old(self).wf(),
            dx + old(self).width - 1 <= u16::MAX,
            dy + old(self).height - 1 <= u16::MAX,
        ensures
            *final(self) == (ST7735 { dx, dy, ..*old(self) }),
            final(self).wf(),
    {
        self.dx = dx;
        self.dy = dy;
    }

    /// Runs the commands that initialize the display.
    pub fn init(&mut self) -> (ops: Vec<BusOp>)
        ensures
            *final(self) == (ST7735 { sleeping: false, display_on: true, ..*old(self) }),
            ops@ == spec_direct_init_ops(old(self).inverted),
    {
        let empty: Vec<u8> = Vec::new();
        let mut ops = hard_reset_ops();
        push_command(&mut ops, Instruction::SWRESET, &empty);
        push_delay(&mut ops, 200);
        push_command(&mut ops, Instruction::SLPOUT, &empty);
        self.sleeping = false;
        push_delay(&mut ops, 255);
        // Data format: 16 bits per pixel
        let p: Vec<u8> = vec![0x05u8];
        push_command(&mut ops, Instruction::DTFORM, &p);
        // Memory Data Access Control: default order, pixel (0, 0) top left
        let p: Vec<u8> = vec![0x00u8];
        push_command(&mut ops, Instruction::MADCTL, &p);
        if self.inverted {
            push_command(&mut ops, Instruction::INVON, &empty);
        } else {
            push_command(&mut ops, Instruction::INVOFF, &empty);
        }
        push_command(&mut ops, Instruction::DISPON, &empty);
        self.display_on = true;
        ops
    }

    /// Aim subsequent RAM writes at a pixel rectangle.
    ///
    /// The conversion is the identity plus the global offset; each
    /// register value goes out as two big-endian bytes.
    pub fn set_address_window(&mut self, start_x: u16, start_y: u16, end_x: u16, end_y: u16) -> (ops:
        Vec<BusOp>)
        requires
            old(self).wf(),
            start_x <= end_x < old(self).width,
            start_y <= end_y < old(self).height,
        ensures
            *final(self) == *old(self),
            ops@ == spec_direct_window_ops(
                old(self).dx,
                old(self).dy,
                start_x,
                start_y,
                end_x,
                end_y,
            ),
    {
        let cs: u16 = start_x + self.dx;
        let ce: u16 = end_x + self.dx;
        let rs: u16 = start_y + self.dy;
        let re: u16 = end_y + self.dy;
        let ca: Vec<u8> = vec![(cs >> 8) as u8, cs as u8, (ce >> 8) as u8, ce as u8];
        let mut ops = command_ops(Instruction::CASET, &ca);
        let ra: Vec<u8> = vec![(rs >> 8) as u8, rs as u8, (re >> 8) as u8, re as u8];
        push_command(&mut ops, Instruction::RASET, &ra);
        ops
    }

    /// Stream color words into the previously established address window.
    ///
    /// This is the bulk-fill path: one RAMWR command, then consecutive
    /// pixel words, with no per-pixel command overhead.
    pub fn write_pixels(&mut self, colors: &Vec<u16>) -> (ops: Vec<BusOp>)
        ensures
            *final(self) == *old(self),
            ops@ == spec_write_pixels_ops(colors@),
    {
        let empty: Vec<u8> = Vec::new();
        let mut ops = command_ops(Instruction::RAMWR, &empty);
        ops.push(BusOp::CsLow);
        ops.push(BusOp::DcHigh);
        proof {
            assert(ops@ =~= command_frame(Instruction::RAMWR.spec_opcode(), Seq::<u8>::empty())
                + data_start_ops() + spec_word_stream(colors@.take(0)));
        }
        for i in 0..colors.len()
            invariant
                ops@ == command_frame(Instruction::RAMWR.spec_opcode(), Seq::<u8>::empty())
                    + data_start_ops() + spec_word_stream(colors@.take(i as int)),
        {
            let c: u16 = colors[i];
            ops.push(BusOp::Byte((c >> 8) as u8));
            ops.push(BusOp::Byte(c as u8));
            proof {
                assert(colors@.take(i + 1).drop_last() =~= colors@.take(i as int));
                assert(ops@ =~= command_frame(Instruction::RAMWR.spec_opcode(), Seq::<u8>::empty())
                    + data_start_ops() + spec_word_stream(colors@.take(i + 1)));
            }
        }
        proof {
            assert(colors@.take(colors@.len() as int) =~= colors@);
        }
        ops
    }

    /// Sets a pixel color at the given coords, sent to the chip at once:
    /// an address window of exactly that pixel, then its color word.
    pub fn set_pixel(&mut self, x: u16, y: u16, color: u16) -> (ops: Vec<BusOp>)
        requires
            old(self).wf(),
            x < old(self).width,
            y < old(self).height,
        ensures
            *final(self) == *old(self),
            ops@ == spec_direct_set_pixel_ops(old(self).dx, old(self).dy, x, y, color),
    {
        let mut ops = self.set_address_window(x, y, x, y);
        let colors: Vec<u16> = vec![color];
        let mut tail = self.write_pixels(&colors);
        ops.append(&mut tail);
        proof {
            reveal_with_fuel(spec_word_stream, 3);
            assert(seq![color].drop_last() =~= Seq::<u16>::empty());
            assert(spec_word_stream(seq![color]) =~= seq![
                BusOp::Byte(spec_hi_byte(color)),
                BusOp::Byte(spec_lo_byte(color)),
            ]);
            assert(ops@ =~= spec_direct_set_pixel_ops(self.dx, self.dy, x, y, color));
        }
        ops
    }

    /// The panel size in pixels, (width, height). A pure query: nothing is
    /// sent to the chip.
    pub fn size(&self) -> (r: (u16, u16))
        ensures
            r.0 == self.width,
            r.1 == self.height,
    {
        (self.width, self.height)
    }
}

} // verus!
