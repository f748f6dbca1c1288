//! Driver for packed-monochrome controllers of the ST7306 class.
//!
//! The controller cannot accept single-pixel writes, so the driver owns a
//! local framebuffer of packed subpixel bytes: each addressable cell holds
//! 3 bytes that encode 12 columns by 2 rows of binary pixel state, and the
//! whole buffer is streamed to the chip on [`ST7306::flush`]. Every method
//! that talks to the chip returns the exact [`BusOp`] sequence to perform.

use vstd::prelude::*;

use crate::bus::{command_frame, command_ops, push_command, push_delay, spec_hard_reset_ops, BusOp};
use crate::color::{col_to_bright, spec_col_to_bright, Color565, PixelDraw};
use crate::fps::{spec_fps_as_u8, FpsConfig};
use crate::instruction::Instruction;
use crate::power::PowerMode;

verus! {

/// Highest column register value the controller can address.
pub const COL_MAX: u16 = 59;

/// Highest row register value the controller can address.
pub const ROW_MAX: u16 = 199;

/// Pixels per addressable column: one cell covers 12 pixel columns.
pub const PX_PER_COL: u16 = 12;

/// Pixels per addressable row: one cell covers 2 pixel rows.
pub const PX_PER_ROW: u16 = 2;

/// The rectangle of controller memory that RAM writes target, in
/// controller-native column/row units (not pixels).
///
/// Columns go from 0 to 59 (12px per col, so 720px); rows go from 0 to 199
/// (2px per row, so 400px). A panel smaller than that occupies the
/// sub-range fixed here at construction.
#[derive(Debug, Clone, Copy, PartialEq, Eq, Structural)]
pub struct AddrWindow {
    /// First occupied column register value.
    pub col_start: u16,
    /// Last occupied column register value.
    pub col_end: u16,
    /// First occupied row register value.
    pub row_start: u16,
    /// Last occupied row register value.
    pub row_end: u16,
}

/// Driver for a packed-monochrome ST7306-class display controller.
///
/// The driver tracks the controller's power and display state itself; the
/// protocol is write-only, so state is never read back from hardware.
#[derive(Debug)]
pub struct ST7306 {
    /// Whether the colours are inverted (true) or not (false)
    pub inverted: bool,
    /// Whether auto power down is enabled at initialization
    pub autopowerdown: bool,
    /// Whether the tearing pin is enabled at initialization
    pub te_enable: bool,
    /// Frame rate configuration
    pub fps: FpsConfig,
    /// Display width in pixels
    pub width: u16,
    /// Display height in pixels
    pub height: u16,
    /// Framebuffer cells per row (each cell spans 12 pixel columns)
    pub cols: usize,
    /// Framebuffer cell rows (each cell spans 2 pixel rows)
    pub rows: usize,
    /// Packed framebuffer, 3 bytes per cell, row-major: the cell at
    /// (row, col) occupies bytes `(row * cols + col) * 3 ..` plus 3.
    pub framebuffer: Vec<u8>,
    /// Where the active area sits in the controller's addressable range
    pub addr_window: AddrWindow,
    /// Whether currently sleeping
    pub sleeping: bool,
    /// Current power mode
    pub power_mode: PowerMode,
    /// Whether the display is currently on
    pub display_on: bool,
}

impl ST7306 {
    /// Construction-time invariant: the framebuffer covers the panel, and
    /// the address window stays within the controller's addressable range.
    pub open spec fn wf(self) -> bool {
        &&& self.framebuffer@.len() == self.rows * self.cols * 3
        &&& self.cols <= 60
        &&& self.rows <= 200
        &&& self.width <= self.cols * 12
        &&& self.height <= self.rows * 2
        &&& self.addr_window.col_end <= COL_MAX
        &&& self.addr_window.row_end <= ROW_MAX
    }

    /// Creates a new driver instance.
    ///
    /// The address window is derived once from the panel size and the
    /// packing density; a window that would exceed the controller's limits
    /// is a configuration error and is ruled out before any hardware I/O.
    pub fn new(
        inverted: bool,
        autopowerdown: bool,
        te_enable: bool,
        fps: FpsConfig,
        width: u16,
        height: u16,
        col_start: u16,
        row_start: u16,
        cols: usize,
        rows: usize,
    ) -> (r: Self)
        requires
            PX_PER_COL <= width,
            PX_PER_ROW <= height,
            col_start + width / PX_PER_COL - 1 <= COL_MAX,
            row_start + height / PX_PER_ROW - 1 <= ROW_MAX,
            width <= cols * 12,
            height <= rows * 2,
            cols <= 60,
            rows <= 200,
        ensures
            r.wf(),
            r.inverted == inverted,
            r.autopowerdown == autopowerdown,
            r.te_enable == te_enable,
            r.fps == fps,
            r.width == width,
            r.height == height,
            r.cols == cols,
            r.rows == rows,
            r.sleeping,
            r.power_mode == PowerMode::Hpm,
            !r.display_on,
            r.addr_window == (AddrWindow {
                col_start,
                col_end: (col_start + width / PX_PER_COL - 1) as u16,
                row_start,
                row_end: (row_start + height / PX_PER_ROW - 1) as u16,
            }),
            r.framebuffer@.len() == rows * cols * 3,
            forall|i: int| 0 <= i < r.framebuffer@.len() ==> r.framebuffer@[i] == 0u8,
    {
        let col_end = col_start + width / PX_PER_COL - 1;
        let row_end = row_start + height / PX_PER_ROW - 1;
        let addr_window = AddrWindow { col_start, col_end, row_start, row_end };

        proof {
            assert(rows * cols * 3 <= 36000) by (nonlinear_arith)
                requires
                    cols <= 60,
                    rows <= 200,
            ;
        }
        let n: usize = rows * cols * 3;
        let mut framebuffer: Vec<u8> = Vec::new();
        while framebuffer.len() < n
            invariant
                framebuffer@.len() <= n,
                forall|i: int| 0 <= i < framebuffer@.len() ==> framebuffer@[i] == 0u8,
            decreases n - framebuffer@.len(),
        {
            framebuffer.push(0u8);
        }

        ST7306 {
            inverted,
            autopowerdown,
            te_enable,
            fps,
            width,
            height,
            cols,
            rows,
            framebuffer,
            addr_window,
            sleeping: true,
            power_mode: PowerMode::Hpm,
            display_on: false,
        }
    }

    /// Write a command with optional parameters.
    ///
    /// The emitted sequence keeps the chip-select and data/command pins in
    /// the states the framing protocol demands around every byte.
    pub fn write_command(&mut self, command: Instruction, params: &Vec<u8>) -> (ops: Vec<BusOp>)
        ensures
            *final(self) == *old(self),
            ops@ == command_frame(command.spec_opcode(), params@),
    {
        command_ops(command, params)
    }

    /// Before writing raw data, the CS and DC pins must be set correctly.
    ///
    /// Used when extra data follows a command, in addition to the command's
    /// own parameters.
    pub fn start_data(&mut self) -> (ops: Vec<BusOp>)
        ensures
            *final(self) == *old(self),
            ops@ == crate::bus::data_start_ops(),
    {
        let mut ops: Vec<BusOp> = Vec::new();
        ops.push(BusOp::CsLow);
        ops.push(BusOp::DcHigh);
        proof {
            assert(ops@ =~= crate::bus::data_start_ops());
        }
        ops
    }
}

/// The byte stream of a sequence of RAM triples: controller RAM is always
/// written in 24-bit groups, three bytes per group, in order.
pub open spec fn spec_ram_ops(data: Seq<(u8, u8, u8)>) -> Seq<BusOp>
    decreases data.len(),
{
    if data.len() == 0 {
        Seq::empty()
    } else {
        spec_ram_ops(data.drop_last()) + seq![
            BusOp::Byte(data.last().0),
            BusOp::Byte(data.last().1),
            BusOp::Byte(data.last().2),
        ]
    }
}

impl ST7306 {
    /// Write to the display controller's RAM.
    ///
    /// The caller must first emit a RAMWR command and the data-start pin
    /// discipline, then may call this repeatedly to fill the memory window.
    pub fn write_ram(&mut self, data: &Vec<(u8, u8, u8)>) -> (ops: Vec<BusOp>)
        ensures
            *final(self) == *old(self),
            ops@ == spec_ram_ops(data@),
    {
        let mut ops: Vec<BusOp> = Vec::new();
        proof {
            assert(data@.take(0) =~= Seq::<(u8, u8, u8)>::empty());
        }
        for i in 0..data.len()
            invariant
                ops@ == spec_ram_ops(data@.take(i as int)),
        {
            let (first, second, third) = data[i];
            ops.push(BusOp::Byte(first));
            ops.push(BusOp::Byte(second));
            ops.push(BusOp::Byte(third));
            proof {
                assert(data@.take(i + 1).drop_last() =~= data@.take(i as int));
                assert(ops@ =~= spec_ram_ops(data@.take(i as int)) + seq![
                    BusOp::Byte(data@[i as int].0),
                    BusOp::Byte(data@[i as int].1),
                    BusOp::Byte(data@[i as int].2),
                ]);
            }
        }
        proof {
            assert(data@.take(data@.len() as int) =~= data@);
        }
        ops
    }
}

/// The command sequence that turns the display on or off.
pub open spec fn spec_on_off_ops(on: bool) -> Seq<BusOp> {
    if on {
        command_frame(Instruction::DISPON.spec_opcode(), Seq::<u8>::empty())
    } else {
        command_frame(Instruction::DISPOFF.spec_opcode(), Seq::<u8>::empty())
    }
}

/// The command sequence that inverts or un-inverts the screen colors.
pub open spec fn spec_invert_ops(inverted: bool) -> Seq<BusOp> {
    if inverted {
        command_frame(Instruction::INVON.spec_opcode(), Seq::<u8>::empty())
    } else {
        command_frame(Instruction::INVOFF.spec_opcode(), Seq::<u8>::empty())
    }
}

/// The command sequence of a power-mode switch: nothing at all when the
/// target mode is already active, else the mode command followed by its
/// datasheet settling delay.
pub open spec fn spec_switch_mode_ops(from: PowerMode, target: PowerMode) -> Seq<BusOp> {
    if from == target {
        Seq::<BusOp>::empty()
    } else if target == PowerMode::Hpm {
        command_frame(Instruction::HPM.spec_opcode(), Seq::<u8>::empty()) + seq![
            BusOp::DelayMs(255),
        ]
    } else {
        command_frame(Instruction::LPM.spec_opcode(), Seq::<u8>::empty()) + seq![
            BusOp::DelayMs(100),
        ]
    }
}

/// The command sequence of going to sleep: first force high power mode if
/// need be (with its settling delay), then sleep-in and its settling delay.
pub open spec fn spec_sleep_in_ops(from: PowerMode) -> Seq<BusOp> {
    spec_switch_mode_ops(from, PowerMode::Hpm) + command_frame(
        Instruction::SLPIN.spec_opcode(),
        Seq::<u8>::empty(),
    ) + seq![BusOp::DelayMs(100)]
}

/// The command sequence of waking up: sleep-out and its settling delay.
pub open spec fn spec_sleep_out_ops() -> Seq<BusOp> {
    command_frame(Instruction::SLPOUT.spec_opcode(), Seq::<u8>::empty()) + seq![
        BusOp::DelayMs(100),
    ]
}

/// The FRCTRL command carrying a configuration's control byte.
pub open spec fn spec_set_fps_ops(fps: FpsConfig) -> Seq<BusOp> {
    command_frame(Instruction::FRCTRL.spec_opcode(), seq![spec_fps_as_u8(fps)])
}

/// The CLRAM command: parameter bit 7 enables the hardware RAM clear.
pub open spec fn spec_clear_ram_cmd_ops(clear: bool) -> Seq<BusOp> {
    command_frame(
        Instruction::CLRAM.spec_opcode(),
        seq![if clear { 0xCFu8 } else { 0x4Fu8 }],
    )
}

/// The full hardware RAM clear: display off, clear command, display on.
pub open spec fn spec_clear_ram_ops() -> Seq<BusOp> {
    spec_on_off_ops(false) + spec_clear_ram_cmd_ops(true) + spec_on_off_ops(true)
}

/// Which of a cell's three bytes holds the pixel at column offset
/// `x % 12` within the cell: four pixel columns per byte.
pub open spec fn spec_mono_byte_index(x: u16) -> int {
    ((x % PX_PER_COL) / 4) as int
}

/// The bit that holds the pixel at offsets (`x % 12`, `y % 2`) within its
/// byte. The controller's RAM wiring interleaves the two rows of a cell:
/// each pair of bits covers one pixel column, upper row in the high bit.
pub open spec fn spec_mono_mask(x: u16, y: u16) -> u8 {
    0x80u8 >> ((2 * ((x % PX_PER_COL) % 4) + (y % PX_PER_ROW)) as u8)
}

/// The flat framebuffer position of the byte holding pixel (x, y), with
/// `cols` cells per framebuffer row.
pub open spec fn spec_pixel_index(cols: int, x: u16, y: u16) -> int {
    ((y / PX_PER_ROW) * cols + (x / PX_PER_COL)) * 3 + spec_mono_byte_index(x)
}

/// The new value of the byte holding pixel (x, y): the color is binarized
/// (anything below 1 is black) and the pixel's bit set for black or
/// cleared for white, leaving the other bits alone.
pub open spec fn spec_set_pixel_byte(old_byte: u8, x: u16, y: u16, color: u8) -> u8 {
    if color < 1 {
        old_byte | spec_mono_mask(x, y)
    } else {
        old_byte & !spec_mono_mask(x, y)
    }
}

/// The framebuffer after setting pixel (x, y): only the byte holding the
/// pixel changes.
pub open spec fn spec_set_pixel(fb: Seq<u8>, cols: int, x: u16, y: u16, color: u8) -> Seq<u8> {
    fb.update(
        spec_pixel_index(cols, x, y),
        spec_set_pixel_byte(fb[spec_pixel_index(cols, x, y)], x, y, color),
    )
}

/// How a byte reads after one bit is set or cleared through a mask: the
/// masked bit shows the new state, the remaining bits are unchanged.
proof fn lemma_mask_bits(o: u8, m: u8)
    by (bit_vector)
    ensures
        (o | m) & m == m,
        (o & !m) & m == 0,
        (o | m) & !m == o & !m,
        (o & !m) & !m == o & !m,
{
}

/// The bus stream of a full-frame flush: one RAMWR command, the data-start
/// pin discipline, then every framebuffer byte in storage order.
pub open spec fn spec_flush_ops(fb: Seq<u8>) -> Seq<BusOp> {
    command_frame(Instruction::RAMWR.spec_opcode(), Seq::<u8>::empty()) + crate::bus::data_start_ops()
        + crate::bus::writes_of(fb)
}

/// The CASET and RASET commands that aim RAM writes at the cell range
/// covering a pixel rectangle: pixel coordinates shrink by the packing
/// density (truncating, so an unaligned rectangle snaps to the containing
/// cells) and shift by the panel's base offset within the controller.
pub open spec fn spec_window_ops(
    col_base: u16,
    row_base: u16,
    start_x: u16,
    start_y: u16,
    end_x: u16,
    end_y: u16,
) -> Seq<BusOp> {
    command_frame(
        Instruction::CASET.spec_opcode(),
        seq![
            (col_base + start_x / PX_PER_COL) as u8,
            (col_base + end_x / PX_PER_COL) as u8,
        ],
    ) + command_frame(
        Instruction::RASET.spec_opcode(),
        seq![
            (row_base + start_y / PX_PER_ROW) as u8,
            (row_base + end_y / PX_PER_ROW) as u8,
        ],
    )
}

/// Whether a requested pixel lies on the panel; pixels outside are
/// silently dropped rather than erroring, matching the clipping contract
/// 2D drawing front ends expect.
pub open spec fn spec_in_bounds(p: PixelDraw, width: u16, height: u16) -> bool {
    0 <= p.x && 0 <= p.y && p.x < width && p.y < height
}

/// The framebuffer after one drawing request: an on-panel pixel is set
/// (with its color truncated to the binarization byte), an off-panel pixel
/// leaves the buffer untouched.
pub open spec fn spec_apply_pixel(
    fb: Seq<u8>,
    cols: int,
    width: u16,
    height: u16,
    p: PixelDraw,
) -> Seq<u8> {
    if spec_in_bounds(p, width, height) {
        spec_set_pixel(fb, cols, p.x as u16, p.y as u16, p.color.raw as u8)
    } else {
        fb
    }
}

/// The framebuffer after a whole sequence of drawing requests, applied in
/// order.
pub open spec fn spec_draw_pixels(
    fb: Seq<u8>,
    cols: int,
    width: u16,
    height: u16,
    pixels: Seq<PixelDraw>,
) -> Seq<u8>
    decreases pixels.len(),
{
    if pixels.len() == 0 {
        fb
    } else {
        spec_apply_pixel(
            spec_draw_pixels(fb, cols, width, height, pixels.drop_last()),
            cols,
            width,
            height,
            pixels.last(),
        )
    }
}

/// Full clip law: a batch of drawing requests that all lie outside the
/// panel leaves the framebuffer exactly as it was (and, without an
/// explicit flush, the draw call emits no bus operations at all).
pub proof fn lemma_draw_pixels_all_clipped(
    fb: Seq<u8>,
    cols: int,
    width: u16,
    height: u16,
    pixels: Seq<PixelDraw>,
)
    requires
        forall|i: int|
            0 <= i < pixels.len() ==> !spec_in_bounds(#[trigger] pixels[i], width, height),
    ensures
        spec_draw_pixels(fb, cols, width, height, pixels) == fb,
    decreases pixels.len(),
{
    if pixels.len() > 0 {
        lemma_draw_pixels_all_clipped(fb, cols, width, height, pixels.drop_last());
        assert(!spec_in_bounds(pixels[pixels.len() - 1], width, height));
    }
}

/// Repeating a mode switch emits nothing the second time: after the first
/// switch the driver is already in the target mode, so two switch calls in
/// a row produce exactly one bus command sequence.
pub proof fn lemma_switch_mode_repeat(from: PowerMode, target: PowerMode)
    ensures
        spec_switch_mode_ops(from, target) + spec_switch_mode_ops(target, target)
            == spec_switch_mode_ops(from, target),
{
    assert(spec_switch_mode_ops(from, target) + spec_switch_mode_ops(target, target)
        =~= spec_switch_mode_ops(from, target));
}

impl ST7306 {
    /// Turn the screen on or off.
    pub fn on_off(&mut self, on: bool) -> (ops: Vec<BusOp>)
        ensures
            *final(self) == (ST7306 { display_on: on, ..*old(self) }),
            ops@ == spec_on_off_ops(on),
    {
        let empty: Vec<u8> = Vec::new();
        let ops = if on {
            command_ops(Instruction::DISPON, &empty)
        } else {
            command_ops(Instruction::DISPOFF, &empty)
        };
        self.display_on = on;
        ops
    }

    /// Invert the colors on the screen.
    pub fn invert_screen(&mut self, inverted: bool) -> (ops: Vec<BusOp>)
        ensures
            *final(self) == (ST7306 { inverted, ..*old(self) }),
            ops@ == spec_invert_ops(inverted),
    {
        let empty: Vec<u8> = Vec::new();
        let ops = if inverted {
            command_ops(Instruction::INVON, &empty)
        } else {
            command_ops(Instruction::INVOFF, &empty)
        };
        self.inverted = inverted;
        ops
    }

    /// Switch between high and low power mode.
    ///
    /// A switch to the mode already active is a no-op: it emits no bus
    /// operations at all.
    pub fn switch_mode(&mut self, target_mode: PowerMode) -> (ops: Vec<BusOp>)
        ensures
            *final(self) == (ST7306 { power_mode: target_mode, ..*old(self) }),
            ops@ == spec_switch_mode_ops(old(self).power_mode, target_mode),
            old(self).power_mode == target_mode ==> ops@ == Seq::<BusOp>::empty(),
    {
        if target_mode == self.power_mode {
            let ops: Vec<BusOp> = Vec::new();
            return ops;
        }
        let empty: Vec<u8> = Vec::new();
        let mut ops: Vec<BusOp>;
        match target_mode {
            PowerMode::Hpm => {
                ops = command_ops(Instruction::HPM, &empty);
                push_delay(&mut ops, 255);
            },
            PowerMode::Lpm => {
                ops = command_ops(Instruction::LPM, &empty);
                push_delay(&mut ops, 100);
            },
        }
        self.power_mode = target_mode;
        ops
    }

    /// Have the display controller go into sleep mode.
    ///
    /// The controller only accepts sleep-in from high power mode, so from
    /// low power mode the driver first switches (with the switch's settling
    /// delay). After a later sleep-out the mode is *not* restored: a caller
    /// that wants low power mode must switch back explicitly.
    pub fn sleep_in(&mut self) -> (ops: Vec<BusOp>)
        ensures
            *final(self) == (ST7306 {
                sleeping: true,
                power_mode: PowerMode::Hpm,
                ..*old(self)
            }),
            ops@ == spec_sleep_in_ops(old(self).power_mode),
    {
        let mut ops = self.switch_mode(PowerMode::Hpm);
        let empty: Vec<u8> = Vec::new();
        push_command(&mut ops, Instruction::SLPIN, &empty);
        push_delay(&mut ops, 100);
        self.sleeping = true;
        ops
    }

    /// Wake the controller from sleep.
    ///
    /// The power mode is left as it was before sleeping (which sleep-in
    /// forced to high power mode).
    pub fn sleep_out(&mut self) -> (ops: Vec<BusOp>)
        ensures
            *final(self) == (ST7306 { sleeping: false, ..*old(self) }),
            ops@ == spec_sleep_out_ops(),
    {
        let empty: Vec<u8> = Vec::new();
        let mut ops = command_ops(Instruction::SLPOUT, &empty);
        push_delay(&mut ops, 100);
        self.sleeping = false;
        ops
    }

    /// Change the FPS config.
    ///
    /// Note that to reach the desired rate the controller may also have to
    /// be switched between low and high power mode.
    pub fn set_fps(&mut self, fps: FpsConfig) -> (ops: Vec<BusOp>)
        ensures
            *final(self) == (ST7306 { fps, ..*old(self) }),
            ops@ == spec_set_fps_ops(fps),
    {
        self.fps = fps;
        let params: Vec<u8> = vec![self.fps.as_u8()];
        command_ops(Instruction::FRCTRL, &params)
    }

    /// Low level command enabling or disabling the hardware RAM clear.
    ///
    /// The display should be turned off around it; see [`Self::clear_ram`].
    pub fn clear_ram_cmd(&mut self, clear: bool) -> (ops: Vec<BusOp>)
        ensures
            *final(self) == *old(self),
            ops@ == spec_clear_ram_cmd_ops(clear),
    {
        let byte: u8 = 0b01001111;
        let enable_clear_mask: u8 = 0b10000000;
        let params: Vec<u8> = if clear {
            vec![byte + enable_clear_mask]
        } else {
            vec![byte]
        };
        command_ops(Instruction::CLRAM, &params)
    }

    /// Sets a pixel color at the given coords.
    ///
    /// Changes the pixel value in the framebuffer at the bit where the
    /// display controller expects it; nothing is sent to the bus until
    /// [`Self::flush`]. The color is binarized: any value below 1 is black
    /// (bit set), everything else white (bit cleared).
    pub fn set_pixel(&mut self, x: u16, y: u16, color: u8)
        requires
            old(self).wf(),
            x < old(self).width,
            y < old(self).height,
        ensures
            *final(self) == (ST7306 { framebuffer: final(self).framebuffer, ..*old(self) }),
            final(self).wf(),
            final(self).framebuffer@ == spec_set_pixel(
                old(self).framebuffer@,
                old(self).cols as int,
                x,
                y,
                color,
            ),
            ({
                let i = spec_pixel_index(old(self).cols as int, x, y);
                let m = spec_mono_mask(x, y);
                &&& final(self).framebuffer@[i] & m == (if color < 1 {
                    m
                } else {
                    0u8
                })
                &&& final(self).framebuffer@[i] & !m == old(self).framebuffer@[i] & !m
            }),
    {
        let row: usize = (y / PX_PER_ROW) as usize;
        let col: usize = (x / PX_PER_COL) as usize;
        let black: bool = color < 1;

        let xm: u16 = x % PX_PER_COL;
        let ym: u16 = y % PX_PER_ROW;
        let byte: usize = (xm / 4) as usize;
        let shift: u16 = 2 * (xm % 4) + ym;
        let mask: u8 = 0x80u8 >> (shift as u8);

        proof {
            assert(row < self.rows && col < self.cols);
            assert(row * self.cols + col < self.rows * self.cols && (row * self.cols + col) * 3
                + byte < self.rows * self.cols * 3 && self.rows * self.cols * 3 <= 36000)
                by (nonlinear_arith)
                requires
                    row < self.rows,
                    col < self.cols,
                    byte < 3,
                    self.rows <= 200,
                    self.cols <= 60,
            ;
            assert((xm % 4) as int == (x % PX_PER_COL) % 4);
        }
        let idx: usize = (row * self.cols + col) * 3 + byte;

        let cur: u8 = self.framebuffer[idx];
        let updated: u8 = if black {
            cur | mask
        } else {
            cur & !mask
        };
        self.framebuffer.set(idx, updated);
        proof {
            lemma_mask_bits(cur, mask);
        }
    }

    /// Flush the entire framebuffer to the screen.
    ///
    /// Issues one RAMWR command and then streams the whole buffer, cell by
    /// cell in the controller's RAM write order; partial updates are not
    /// supported.
    pub fn flush(&mut self) -> (ops: Vec<BusOp>)
        ensures
            *final(self) == *old(self),
            ops@ == spec_flush_ops(old(self).framebuffer@),
    {
        let empty: Vec<u8> = Vec::new();
        let mut ops = command_ops(Instruction::RAMWR, &empty);
        ops.push(BusOp::CsLow);
        ops.push(BusOp::DcHigh);
        proof {
            assert(ops@ =~= command_frame(Instruction::RAMWR.spec_opcode(), Seq::<u8>::empty())
                + crate::bus::data_start_ops() + crate::bus::writes_of(
                self.framebuffer@.take(0),
            ));
        }
        for i in 0..self.framebuffer.len()
            invariant
                *self == *old(self),
                ops@ == command_frame(Instruction::RAMWR.spec_opcode(), Seq::<u8>::empty())
                    + crate::bus::data_start_ops() + crate::bus::writes_of(
                    self.framebuffer@.take(i as int),
                ),
        {
            ops.push(BusOp::Byte(self.framebuffer[i]));
            proof {
                assert(ops@ =~= command_frame(Instruction::RAMWR.spec_opcode(), Seq::<u8>::empty())
                    + crate::bus::data_start_ops() + crate::bus::writes_of(
                    self.framebuffer@.take(i + 1),
                ));
            }
        }
        proof {
            assert(self.framebuffer@.take(self.framebuffer@.len() as int) =~= self.framebuffer@);
        }
        ops
    }

    /// Aim subsequent RAM writes at the cell range covering a pixel
    /// rectangle.
    ///
    /// Pixel coordinates are divided by the packing density (truncating: a
    /// rectangle not aligned to the 12-by-2 packing granularity snaps to
    /// the containing cells) and offset by where the active area begins in
    /// the controller's addressable range.
    pub fn set_address_window(&mut self, start_x: u16, start_y: u16, end_x: u16, end_y: u16) -> (ops:
        Vec<BusOp>)
        requires
            start_x <= end_x,
            start_y <= end_y,
            old(self).addr_window.col_start + end_x / PX_PER_COL <= COL_MAX,
            old(self).addr_window.row_start + end_y / PX_PER_ROW <= ROW_MAX,
        ensures
            *final(self) == *old(self),
            ops@ == spec_window_ops(
                old(self).addr_window.col_start,
                old(self).addr_window.row_start,
                start_x,
                start_y,
                end_x,
                end_y,
            ),
    {
        let cs: u16 = self.addr_window.col_start + start_x / PX_PER_COL;
        let ce: u16 = self.addr_window.col_start + end_x / PX_PER_COL;
        let rs: u16 = self.addr_window.row_start + start_y / PX_PER_ROW;
        let re: u16 = self.addr_window.row_start + end_y / PX_PER_ROW;
        let ca: Vec<u8> = vec![cs as u8, ce as u8];
        let mut ops = command_ops(Instruction::CASET, &ca);
        let ra: Vec<u8> = vec![rs as u8, re as u8];
        push_command(&mut ops, Instruction::RASET, &ra);
        ops
    }

    /// Clear the controller's RAM, which turns the screen all white.
    ///
    /// The display is switched off for the clear and back on afterwards.
    /// The local framebuffer is not touched.
    pub fn clear_ram(&mut self) -> (ops: Vec<BusOp>)
        ensures
            *final(self) == (ST7306 { display_on: true, ..*old(self) }),
            ops@ == spec_clear_ram_ops(),
    {
        let mut ops = self.on_off(false);
        let mut mid = self.clear_ram_cmd(true);
        ops.append(&mut mid);
        let mut tail = self.on_off(true);
        ops.append(&mut tail);
        ops
    }

    /// The panel size in pixels, (width, height). A pure query: nothing
    /// is sent to the chip.
    pub fn size(&self) -> (r: (u16, u16))
        ensures
            r.0 == self.width,
            r.1 == self.height,
    {
        (self.width, self.height)
    }

    /// Draw individual pixels.
    ///
    /// The display controller has no command to send individual pixels, so
    /// they are drawn into the framebuffer; pixels outside the panel are
    /// silently clipped. With `flush` set, the whole framebuffer is then
    /// streamed to the controller; without it, no bus operation is emitted
    /// at all.
    pub fn draw_pixels(&mut self, pixels: &Vec<PixelDraw>, flush: bool) -> (ops: Vec<BusOp>)
        requires
            old(self).wf(),
        ensures
            final(self).wf(),
            *final(self) == (ST7306 { framebuffer: final(self).framebuffer, ..*old(self) }),
            final(self).framebuffer@ == spec_draw_pixels(
                old(self).framebuffer@,
                old(self).cols as int,
                old(self).width,
                old(self).height,
                pixels@,
            ),
            !flush ==> ops@ == Seq::<BusOp>::empty(),
            flush ==> ops@ == spec_flush_ops(final(self).framebuffer@),
    {
        for i in 0..pixels.len()
            invariant
                self.wf(),
                *self == (ST7306 { framebuffer: self.framebuffer, ..*old(self) }),
                self.framebuffer@ == spec_draw_pixels(
                    old(self).framebuffer@,
                    old(self).cols as int,
                    old(self).width,
                    old(self).height,
                    pixels@.take(i as int),
                ),
        {
            let p = pixels[i];
            if p.x >= 0 && p.y >= 0 && p.x < self.width as i32 && p.y < self.height as i32 {
                self.set_pixel(p.x as u16, p.y as u16, p.color.raw as u8);
            }
            proof {
                assert(pixels@.take(i + 1).drop_last() =~= pixels@.take(i as int));
            }
        }
        proof {
            assert(pixels@.take(pixels@.len() as int) =~= pixels@);
        }
        if flush {
            self.flush()
        } else {
            Vec::new()
        }
    }

    /// Clear the whole screen to one color.
    ///
    /// A dark color (brightness below 128) uses the controller's hardware
    /// RAM clear, which leaves the local framebuffer untouched; a light
    /// color blanks the framebuffer and streams it out.
    pub fn clear(&mut self, color: Color565) -> (ops: Vec<BusOp>)
        requires
            old(self).wf(),
        ensures
            final(self).wf(),
            spec_col_to_bright(color) < 128 ==> *final(self) == (ST7306 {
                display_on: true,
                ..*old(self)
            }) && ops@ == spec_clear_ram_ops(),
            spec_col_to_bright(color) >= 128 ==> *final(self) == (ST7306 {
                framebuffer: final(self).framebuffer,
                ..*old(self)
            }) && final(self).framebuffer@.len() == old(self).framebuffer@.len() && (forall|j: int|
                0 <= j < final(self).framebuffer@.len() ==> final(self).framebuffer@[j] == 0u8)
                && ops@ == spec_flush_ops(final(self).framebuffer@),
    {
        let brightness = col_to_bright(color);
        let black: u8 = if brightness < 128 {
            0xFF
        } else {
            0x00
        };

        if black == 0xFF {
            return self.clear_ram();
        }

        let mut i: usize = 0;
        while i < self.framebuffer.len()
            invariant
                *self == (ST7306 { framebuffer: self.framebuffer, ..*old(self) }),
                self.framebuffer@.len() == old(self).framebuffer@.len(),
                i <= self.framebuffer@.len(),
                forall|j: int| 0 <= j < i ==> self.framebuffer@[j] == 0u8,
                black == 0u8,
            decreases self.framebuffer@.len() - i,
        {
            self.framebuffer.set(i, black);
            i = i + 1;
        }
        self.flush()
    }
}

/// The opening of the initialization stream: hard reset, software reset,
/// and the datasheet's voltage, oscillator, frame-rate, equalization and
/// gate-line register table.
pub open spec fn spec_init_voltage_ops(fps: FpsConfig) -> Seq<BusOp> {
    spec_hard_reset_ops() + command_frame(Instruction::SWRESET.spec_opcode(), Seq::<u8>::empty())
        + seq![BusOp::DelayMs(200)] + command_frame(
        Instruction::NVMLOADCTRL.spec_opcode(),
        seq![0b10001u8, 0u8],
    ) + command_frame(Instruction::BSTEN.spec_opcode(), seq![0x01u8]) + command_frame(
        Instruction::GCTRL.spec_opcode(),
        seq![0x08u8, 0x02u8],
    ) + command_frame(Instruction::VSHPCTRL.spec_opcode(), seq![0x0Bu8, 0x0Bu8, 0x0Bu8, 0x0Bu8])
        + command_frame(Instruction::VSLPCTRL.spec_opcode(), seq![0x23u8, 0x23u8, 0x23u8, 0x23u8])
        + command_frame(Instruction::VSHNCTRL.spec_opcode(), seq![0x27u8, 0x27u8, 0x27u8, 0x27u8])
        + command_frame(Instruction::VSLNCTRL.spec_opcode(), seq![0x35u8, 0x35u8, 0x35u8, 0x35u8])
        + command_frame(Instruction::OSCSET.spec_opcode(), seq![0xA6u8, 0xE9u8]) + command_frame(
        Instruction::FRCTRL.spec_opcode(),
        seq![spec_fps_as_u8(fps)],
    ) + command_frame(
        Instruction::GTUPEQH.spec_opcode(),
        seq![0xE5u8, 0xF6u8, 0x05u8, 0x46u8, 0x77u8, 0x77u8, 0x77u8, 0x77u8, 0x76u8, 0x45u8],
    ) + command_frame(
        Instruction::GTUPEQL.spec_opcode(),
        seq![0x05u8, 0x46u8, 0x77u8, 0x77u8, 0x77u8, 0x77u8, 0x76u8, 0x45u8],
    ) + command_frame(Instruction::SOUEQ.spec_opcode(), seq![0x13u8]) + command_frame(
        Instruction::GATESET.spec_opcode(),
        seq![0x64u8],
    )
}

/// The middle of the initialization stream: sleep-out, the low-power and
/// source-voltage tweaks, data format and panel settings, the panel's
/// address window, auto-power-down and the tearing pin.
pub open spec fn spec_init_format_ops(autopowerdown: bool, te_enable: bool, aw: AddrWindow) -> Seq<
    BusOp,
> {
    command_frame(Instruction::SLPOUT.spec_opcode(), Seq::<u8>::empty()) + seq![
        BusOp::DelayMs(255),
    ] + command_frame(Instruction::LOWPOWER.spec_opcode(), seq![0xC1u8, 0x4Au8, 0x26u8])
        + command_frame(Instruction::VSHLSEL.spec_opcode(), seq![0x00u8]) + command_frame(
        Instruction::MADCTL.spec_opcode(),
        seq![0b01001000u8],
    ) + command_frame(Instruction::DTFORM.spec_opcode(), seq![0x11u8]) + command_frame(
        Instruction::GAMAMS.spec_opcode(),
        seq![0x20u8],
    ) + command_frame(Instruction::PNLSET.spec_opcode(), seq![0x29u8]) + command_frame(
        Instruction::CASET.spec_opcode(),
        seq![aw.col_start as u8, aw.col_end as u8],
    ) + command_frame(Instruction::RASET.spec_opcode(), seq![aw.row_start as u8, aw.row_end as u8])
        + command_frame(
        Instruction::AUTOPWRCTRL.spec_opcode(),
        seq![
            if autopowerdown {
                0xFFu8
            } else {
                0x7Fu8
            },
        ],
    ) + (if te_enable {
        command_frame(Instruction::TEON.spec_opcode(), seq![0x00u8])
    } else {
        command_frame(Instruction::TEOFF.spec_opcode(), Seq::<u8>::empty())
    })
}

/// The full initialization stream: hard reset, software reset, the
/// datasheet's voltage/timing register table, sleep-out, format and panel
/// settings, the address window, then low power mode, the configured
/// inversion, and display-on.
pub open spec fn spec_init_ops(
    inverted: bool,
    autopowerdown: bool,
    te_enable: bool,
    fps: FpsConfig,
    aw: AddrWindow,
) -> Seq<BusOp> {
    spec_init_voltage_ops(fps) + spec_init_format_ops(autopowerdown, te_enable, aw)
        + command_frame(Instruction::LPM.spec_opcode(), Seq::<u8>::empty()) + spec_invert_ops(
        inverted,
    ) + spec_on_off_ops(true)
}

/// Build the reset and register-table segment of initialization.
fn init_voltage_ops(fps: FpsConfig) -> (ops: Vec<BusOp>)
    ensures
        ops@ == spec_init_voltage_ops(fps),
{
    let empty: Vec<u8> = Vec::new();
    let mut ops: Vec<BusOp> = crate::bus::hard_reset_ops();
    push_command(&mut ops, Instruction::SWRESET, &empty);
    push_delay(&mut ops, 200);

    let p: Vec<u8> = vec![0b10001u8, 0u8];
    push_command(&mut ops, Instruction::NVMLOADCTRL, &p);
    let p: Vec<u8> = vec![0x01u8];
    push_command(&mut ops, Instruction::BSTEN, &p);

    // Gate Voltage Control. VGH: 12V, VGL: -6V
    let p: Vec<u8> = vec![0x08u8, 0x02u8];
    push_command(&mut ops, Instruction::GCTRL, &p);
    // VSHP Control: 4.02V
    let p: Vec<u8> = vec![0x0Bu8, 0x0Bu8, 0x0Bu8, 0x0Bu8];
    push_command(&mut ops, Instruction::VSHPCTRL, &p);
    // VSLP Control: 0.8V
    let p: Vec<u8> = vec![0x23u8, 0x23u8, 0x23u8, 0x23u8];
    push_command(&mut ops, Instruction::VSLPCTRL, &p);
    // VSHN Control: -3.28V
    let p: Vec<u8> = vec![0x27u8, 0x27u8, 0x27u8, 0x27u8];
    push_command(&mut ops, Instruction::VSHNCTRL, &p);
    // VSLN Control: -0.06V
    let p: Vec<u8> = vec![0x35u8, 0x35u8, 0x35u8, 0x35u8];
    push_command(&mut ops, Instruction::VSLNCTRL, &p);

    let p: Vec<u8> = vec![0xA6u8, 0xE9u8];
    push_command(&mut ops, Instruction::OSCSET, &p);

    // Frame rate in high and low power mode
    let p: Vec<u8> = vec![fps.as_u8()];
    push_command(&mut ops, Instruction::FRCTRL, &p);

    // HPM EQ Control
    let p: Vec<u8> = vec![
        0xE5u8,
        0xF6u8,
        0x05u8,
        0x46u8,
        0x77u8,
        0x77u8,
        0x77u8,
        0x77u8,
        0x76u8,
        0x45u8,
    ];
    push_command(&mut ops, Instruction::GTUPEQH, &p);
    // LPM EQ Control
    let p: Vec<u8> = vec![0x05u8, 0x46u8, 0x77u8, 0x77u8, 0x77u8, 0x77u8, 0x76u8, 0x45u8];
    push_command(&mut ops, Instruction::GTUPEQL, &p);
    // Source EQ Enable
    let p: Vec<u8> = vec![0x13u8];
    push_command(&mut ops, Instruction::SOUEQ, &p);

    // Gate Line Setting: 100 lines, each controlling 2 pixels
    let p: Vec<u8> = vec![0x64u8];
    push_command(&mut ops, Instruction::GATESET, &p);

    ops
}

/// Build the sleep-out, format and panel-settings segment of
/// initialization.
fn init_format_ops(autopowerdown: bool, te_enable: bool, aw: AddrWindow) -> (ops: Vec<BusOp>)
    ensures
        ops@ == spec_init_format_ops(autopowerdown, te_enable, aw),
{
    let empty: Vec<u8> = Vec::new();

    // Exit sleep mode
    let mut ops = command_ops(Instruction::SLPOUT, &empty);
    push_delay(&mut ops, 255);

    // Ultra low power code (undocumented command)
    let p: Vec<u8> = vec![0xC1u8, 0x4Au8, 0x26u8];
    push_command(&mut ops, Instruction::LOWPOWER, &p);

    // Source Voltage Select: VSHP1, VSLP1, VSHN1, VSLN1
    let p: Vec<u8> = vec![0x00u8];
    push_command(&mut ops, Instruction::VSHLSEL, &p);

    // Memory Data Access Control: pixel (0, 0) in the top left
    let p: Vec<u8> = vec![0b01001000u8];
    push_command(&mut ops, Instruction::MADCTL, &p);

    // Data Format: 3 bytes for 24 bits
    let p: Vec<u8> = vec![0x11u8];
    push_command(&mut ops, Instruction::DTFORM, &p);

    // Gamma Mode: Mono
    let p: Vec<u8> = vec![0x20u8];
    push_command(&mut ops, Instruction::GAMAMS, &p);

    // Panel Setting: 1-dot inversion, frame interval, one-line interface
    let p: Vec<u8> = vec![0x29u8];
    push_command(&mut ops, Instruction::PNLSET, &p);

    // Column and row settings; overridden by later window commands
    let p: Vec<u8> = vec![aw.col_start as u8, aw.col_end as u8];
    push_command(&mut ops, Instruction::CASET, &p);
    let p: Vec<u8> = vec![aw.row_start as u8, aw.row_end as u8];
    push_command(&mut ops, Instruction::RASET, &p);

    // Auto power down, enabled or not
    let p: Vec<u8> = if autopowerdown {
        vec![0xFFu8]
    } else {
        vec![0x7Fu8]
    };
    push_command(&mut ops, Instruction::AUTOPWRCTRL, &p);

    // Tearing pin on (V-blanking only) or off
    if te_enable {
        let p: Vec<u8> = vec![0x00u8];
        push_command(&mut ops, Instruction::TEON, &p);
    } else {
        push_command(&mut ops, Instruction::TEOFF, &empty);
    }

    ops
}

impl ST7306 {
    /// Hard reset the controller by toggling the reset pin.
    ///
    /// A write that fails partway leaves the device in a
    /// protocol-undefined state; recovering takes this reset followed by a
    /// full [`Self::init`], a decision left to the caller.
    pub fn hard_reset(&mut self) -> (ops: Vec<BusOp>)
        ensures
            *final(self) == *old(self),
            ops@ == crate::bus::spec_hard_reset_ops(),
    {
        crate::bus::hard_reset_ops()
    }

    /// Runs the commands that initialize the display.
    ///
    /// Starts with a hard reset, because the controller may be in a bad
    /// state if the supply voltage was unstable at power-up. Afterwards
    /// the controller is awake, in low power mode, with the display on.
    pub fn init(&mut self) -> (ops: Vec<BusOp>)
        requires
            old(self).wf(),
        ensures
            final(self).wf(),
            *final(self) == (ST7306 {
                sleeping: false,
                power_mode: PowerMode::Lpm,
                display_on: true,
                ..*old(self)
            }),
            ops@ == spec_init_ops(
                old(self).inverted,
                old(self).autopowerdown,
                old(self).te_enable,
                old(self).fps,
                old(self).addr_window,
            ),
    {
        let empty: Vec<u8> = Vec::new();

        let mut ops = init_voltage_ops(self.fps);

        // The sleep-out inside the format segment wakes the controller
        let mut tail = init_format_ops(self.autopowerdown, self.te_enable, self.addr_window);
        ops.append(&mut tail);
        self.sleeping = false;

        // Go into low power mode by default
        push_command(&mut ops, Instruction::LPM, &empty);
        self.power_mode = PowerMode::Lpm;

        // Invert screen colors as configured
        let inv = self.inverted;
        let mut tail = self.invert_screen(inv);
        ops.append(&mut tail);

        let mut tail = self.on_off(true);
        ops.append(&mut tail);

        ops
    }
}

} // verus!
