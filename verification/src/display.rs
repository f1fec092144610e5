//! The display driver: lifecycle, pixel-format selection, window addressing
//! and the solid-rectangle rasterizer.
//!
//! Every operation appends the link transactions it wants performed to the
//! driver's transcript; the contracts state the appended transactions
//! exactly, through the `*_ops` spec functions below.

use crate::color::{
    colmod_byte,
    packed_pixel,
    DisplayColorMode,
    DisplayColorModeBPP,
    DisplayRotation,
};
use crate::command::DisplayCommand;
use crate::link::{ops_view, LinkOp, LinkOpView};
use crate::text::{font_view, glyph_cell_ops, glyph_ops, glyph_row_ops, text_fits, text_ops};
use vstd::prelude::*;

verus! {

broadcast use crate::link::lemma_ops_view_push;

/// The command link operation carrying `command`'s wire code.
pub open spec fn cmd_op(command: DisplayCommand) -> LinkOpView {
    LinkOpView::Command(command.spec_code())
}

/// The four parameter bytes of a column- or row-address command:
/// big-endian 16-bit start, then big-endian 16-bit end.
pub open spec fn addr_bytes(start: u16, end: u16) -> Seq<u8> {
    seq![(start >> 8) as u8, (start & 0xFF) as u8, (end >> 8) as u8, (end & 0xFF) as u8]
}

/// What programming the column range `start..=end` emits on a surface
/// `width` columns wide: nothing when the range is rejected, else the
/// column-address command with its four parameter bytes.
pub open spec fn columns_ops(width: u16, start: u16, end: u16) -> Seq<LinkOpView> {
    if start > end || end >= width {
        seq![]
    } else {
        seq![cmd_op(DisplayCommand::CASET), LinkOpView::Data(addr_bytes(start, end))]
    }
}

/// What programming the row range `start..=end` emits on a surface
/// `height` rows tall; rejection as for `columns_ops`.
pub open spec fn rows_ops(height: u16, start: u16, end: u16) -> Seq<LinkOpView> {
    if start > end || end >= height {
        seq![]
    } else {
        seq![cmd_op(DisplayCommand::RASET), LinkOpView::Data(addr_bytes(start, end))]
    }
}

/// What arming the window `(x0,y0)..=(x1,y1)` emits: both address ranges
/// (each possibly rejected) followed unconditionally by the memory-write
/// command.
pub open spec fn window_ops(width: u16, height: u16, x0: u16, y0: u16, x1: u16, y1: u16) -> Seq<
    LinkOpView,
> {
    columns_ops(width, x0, x1) + rows_ops(height, y0, y1) + seq![cmd_op(DisplayCommand::RAMWR)]
}

/// `n` data transactions, each carrying exactly one packed pixel of
/// `color` under `bpp`.
pub open spec fn pixel_run(bpp: DisplayColorModeBPP, color: u32, n: nat) -> Seq<LinkOpView> {
    Seq::new(n, |i: int| LinkOpView::Data(packed_pixel(bpp, color)))
}

/// A coordinate clamped onto a surface `dim` wide: out-of-range positions
/// move to the last position.
pub open spec fn clamp_coord(v: u16, dim: u16) -> u16 {
    if v >= dim {
        (dim - 1) as u16
    } else {
        v
    }
}

/// An extent clamped so the rectangle starting at (already clamped) `v`
/// fits a surface `dim` wide.
pub open spec fn clamp_extent(v: u16, ext: u16, dim: u16) -> u16 {
    if v + ext >= dim {
        (dim - v) as u16
    } else {
        ext
    }
}

/// Everything a solid-rectangle fill emits: nothing under the unset
/// sentinel; otherwise the (clamped) window programming followed by one
/// data transaction per pixel, row-major.
pub open spec fn solid_rect_ops(
    bpp: DisplayColorModeBPP,
    width: u16,
    height: u16,
    x: u16,
    y: u16,
    w: u16,
    h: u16,
    color: u32,
) -> Seq<LinkOpView> {
    if bpp == DisplayColorModeBPP::UNKNOWN {
        seq![]
    } else {
        let cx = clamp_coord(x, width);
        let cy = clamp_coord(y, height);
        let cw = clamp_extent(cx, w, width);
        let ch = clamp_extent(cy, h, height);
        window_ops(width, height, cx, cy, (cx + cw - 1) as u16, (cy + ch - 1) as u16) + pixel_run(
            bpp,
            color,
            (cw * ch) as nat,
        )
    }
}

/// What the pixel-format command for `bpp` emits.
pub open spec fn colmod_ops(bpp: DisplayColorModeBPP) -> Seq<LinkOpView> {
    seq![cmd_op(DisplayCommand::COLMOD), LinkOpView::Data(seq![colmod_byte(bpp)])]
}

/// The state `set_bpp` leaves the driver in: the requested depth stored,
/// the pixel-format programming appended, everything else untouched.
pub open spec fn set_bpp_view(d: DisplayView, bpp: DisplayColorModeBPP) -> DisplayView {
    DisplayView { bpp: bpp, log: d.log + colmod_ops(bpp), ..d }
}

/// What programming `rotation` emits.
pub open spec fn rotation_ops(rotation: DisplayRotation) -> Seq<LinkOpView> {
    seq![cmd_op(DisplayCommand::MADCTL), LinkOpView::Data(seq![rotation.spec_byte()])]
}

/// What entering or leaving sleep emits.
pub open spec fn sleep_ops(on: bool) -> Seq<LinkOpView> {
    if on {
        seq![cmd_op(DisplayCommand::SLPIN)]
    } else {
        seq![cmd_op(DisplayCommand::SLPOUT)]
    }
}

/// What switching inversion on or off emits.
pub open spec fn inversion_ops(on: bool) -> Seq<LinkOpView> {
    if on {
        seq![cmd_op(DisplayCommand::INVON)]
    } else {
        seq![cmd_op(DisplayCommand::INVOFF)]
    }
}

/// What switching the panel on or off emits.
pub open spec fn display_power_ops(on: bool) -> Seq<LinkOpView> {
    if on {
        seq![cmd_op(DisplayCommand::DISPON)]
    } else {
        seq![cmd_op(DisplayCommand::DISPOFF)]
    }
}

/// The hardware-reset pulse: chip-select asserted for the whole pulse,
/// reset driven high 50 ms, low 50 ms, high again, 150 ms to latch.
pub open spec fn hard_reset_ops() -> Seq<LinkOpView> {
    seq![
        LinkOpView::ChipSelect(false),
        LinkOpView::ResetSignal(true),
        LinkOpView::DelayMs(50),
        LinkOpView::ResetSignal(false),
        LinkOpView::DelayMs(50),
        LinkOpView::ResetSignal(true),
        LinkOpView::DelayMs(150),
        LinkOpView::ChipSelect(true),
    ]
}

/// The software-reset command and the wait it needs.
pub open spec fn soft_reset_ops() -> Seq<LinkOpView> {
    seq![cmd_op(DisplayCommand::SWRESET), LinkOpView::DelayMs(150)]
}

/// The fixed bring-up transcript: hard reset, soft reset, wake, pixel
/// format, rotation, inversion on, normal mode, fill with black, backlight
/// on, display on — in exactly this order.
pub open spec fn bring_up_ops(
    width: u16,
    height: u16,
    bpp: DisplayColorModeBPP,
    rotation: DisplayRotation,
) -> Seq<LinkOpView> {
    hard_reset_ops() + soft_reset_ops() + sleep_ops(false) + colmod_ops(bpp) + rotation_ops(
        rotation,
    ) + inversion_ops(true) + seq![cmd_op(DisplayCommand::NORON)] + solid_rect_ops(
        bpp,
        width,
        height,
        0,
        0,
        width,
        height,
        0,
    ) + seq![LinkOpView::Backlight(true)] + display_power_ops(true)
}

/// The text style draw_text renders with.
pub(crate) struct DisplayTextData {
    pub(crate) background_color: Option<u32>,
    pub(crate) foreground_color: u32,
    pub(crate) pixel_height: u16,
    pub(crate) pixel_width: u16,
}

/// The mathematical image of a `Display`: its fixed geometry, mutable
/// drawing state, and the transcript of link operations emitted so far.
pub struct DisplayView {
    pub bpp: DisplayColorModeBPP,
    pub width: u16,
    pub height: u16,
    pub background_color: Option<u32>,
    pub foreground_color: u32,
    pub pixel_height: u16,
    pub pixel_width: u16,
    pub log: Seq<LinkOpView>,
}

impl DisplayView {
    /// Validity: a non-empty surface and pixel scales of at least one,
    /// fixed at construction and preserved by every operation.
    pub open spec fn wf(self) -> bool {
        &&& 1 <= self.width
        &&& 1 <= self.height
        &&& 1 <= self.pixel_width
        &&& 1 <= self.pixel_height
    }
}

/// The display driver. It owns the drawing state and the transcript;
/// the hardware shim replays the transcript (see `LinkOp`).
pub struct Display {
    pub(crate) bpp: DisplayColorModeBPP,
    pub(crate) height: u16,
    pub(crate) text: DisplayTextData,
    pub(crate) width: u16,
    pub(crate) log: Vec<LinkOp>,
}

impl View for Display {
    type V = DisplayView;

    closed spec fn view(&self) -> DisplayView {
        DisplayView {
            bpp: self.bpp,
            width: self.width,
            height: self.height,
            background_color: self.text.background_color,
            foreground_color: self.text.foreground_color,
            pixel_height: self.text.pixel_height,
            pixel_width: self.text.pixel_width,
            log: ops_view(self.log@),
        }
    }
}

impl Display {
    /// Construct the driver and run the fixed bring-up sequence.
    pub fn new(
        width: u16,
        height: u16,
        bpp: DisplayColorModeBPP,
        rotation: DisplayRotation,
    ) -> (display: Display)
        requires
            1 <= width,
            1 <= height,
        ensures
            display@.wf(),
            display@.bpp == bpp,
            display@.width == width,
            display@.height == height,
            display@.background_color is None,
            display@.foreground_color == 0xFFFFFFFFu32,
            display@.pixel_width == 1,
            display@.pixel_height == 1,
            display@.log == bring_up_ops(width, height, bpp, rotation),
    {
        let mut display = Display {
            bpp: DisplayColorModeBPP::UNKNOWN,
            height,
            text: DisplayTextData {
                background_color: None,
                foreground_color: 0xFFFFFFFF,
                pixel_height: 1,
                pixel_width: 1,
            },
            width,
            log: Vec::new(),
        };

        display.hard_reset();
        display.soft_reset();
        display.set_sleep_mode(false);
        display.set_bpp(bpp);
        display.set_rotation(rotation);
        display.set_inversion_mode(true);
        display.set_normal_mode();
        display.fill(0);
        display.set_backlight(true);
        display.set_display(true);

        proof {
            assert(display@.log =~= bring_up_ops(width, height, bpp, rotation));
        }

        display
    }

    /// Append one command transaction to the transcript.
    pub fn send_command(&mut self, command: DisplayCommand)
        ensures
            final (self)@ == (DisplayView {
                log: old(self)@.log.push(cmd_op(command)),
                ..old(self)@
            }),
    {
        self.log.push(LinkOp::Command(command.code()));
        proof {
            assert(self@.log =~= old(self)@.log.push(cmd_op(command)));
        }
    }

    /// Append one data transaction carrying `data` to the transcript.
    pub fn send_data(&mut self, data: &[u8])
        ensures
            final (self)@ == (DisplayView {
                log: old(self)@.log.push(LinkOpView::Data(data@)),
                ..old(self)@
            }),
    {
        let mut bytes: Vec<u8> = Vec::new();
        let mut i: usize = 0;
        while i < data.len()
            invariant
                i <= data@.len(),
                bytes@ == data@.take(i as int),
            decreases data@.len() - i,
        {
            bytes.push(data[i]);
            proof {
                assert(bytes@ =~= data@.take(i + 1));
            }
            i = i + 1;
        }
        proof {
            assert(bytes@ =~= data@);
        }
        self.log.push(LinkOp::Data(bytes));
        proof {
            assert(self@.log =~= old(self)@.log.push(LinkOpView::Data(data@)));
        }
    }

    /// Run the hardware-reset pulse.
    pub fn hard_reset(&mut self)
        ensures
            final (self)@ == (DisplayView { log: old(self)@.log + hard_reset_ops(), ..old(self)@ }),
    {
        self.log.push(LinkOp::ChipSelect(false));
        self.log.push(LinkOp::ResetSignal(true));
        self.log.push(LinkOp::DelayMs(50));
        self.log.push(LinkOp::ResetSignal(false));
        self.log.push(LinkOp::DelayMs(50));
        self.log.push(LinkOp::ResetSignal(true));
        self.log.push(LinkOp::DelayMs(150));
        self.log.push(LinkOp::ChipSelect(true));
        proof {
            assert(self@.log =~= old(self)@.log + hard_reset_ops());
        }
    }

    /// Issue the software-reset command and wait for it to take effect.
    pub fn soft_reset(&mut self)
        ensures
            final (self)@ == (DisplayView { log: old(self)@.log + soft_reset_ops(), ..old(self)@ }),
    {
        self.send_command(DisplayCommand::SWRESET);
        self.log.push(LinkOp::DelayMs(150));
        proof {
            assert(self@.log =~= old(self)@.log + soft_reset_ops());
        }
    }

    /// Drive the backlight line.
    pub fn set_backlight(&mut self, on: bool)
        ensures
            final (self)@ == (DisplayView {
                log: old(self)@.log.push(LinkOpView::Backlight(on)),
                ..old(self)@
            }),
    {
        if on {
            self.log.push(LinkOp::Backlight(true));
        } else {
            self.log.push(LinkOp::Backlight(false));
        }
        proof {
            assert(self@.log =~= old(self)@.log.push(LinkOpView::Backlight(on)));
        }
    }

    /// Store the bit depth and program the controller's pixel format with
    /// the byte of the fixed mode table.
    pub fn set_bpp(&mut self, bpp: DisplayColorModeBPP)
        ensures
            final (self)@ == set_bpp_view(old(self)@, bpp),
    {
        self.bpp = bpp;

        let color_mode: u8;

        match self.bpp {
            DisplayColorModeBPP::BPP12 => color_mode = DisplayColorMode::RGB65K.bits()
                | DisplayColorMode::BPP12.bits(),
            DisplayColorModeBPP::BPP16 => color_mode = DisplayColorMode::RGB65K.bits()
                | DisplayColorMode::BPP16.bits(),
            DisplayColorModeBPP::BPP16M => color_mode = DisplayColorMode::RGB65K.bits()
                | DisplayColorMode::BPP16M.bits(),
            DisplayColorModeBPP::BPP18 => color_mode = DisplayColorMode::RGB262K.bits()
                | DisplayColorMode::BPP12.bits(),
            _ => color_mode = DisplayColorMode::RGB65K.bits() | DisplayColorMode::BPP16.bits(),
        }

        self.set_color_mode(color_mode);
        proof {
            assert(self@.log =~= old(self)@.log + colmod_ops(bpp));
        }
    }

    /// Issue the pixel-format command with `mode` as its single parameter.
    fn set_color_mode(&mut self, mode: u8)
        ensures
            final (self)@ == (DisplayView {
                log: old(self)@.log + seq![
                    cmd_op(DisplayCommand::COLMOD),
                    LinkOpView::Data(seq![mode]),
                ],
                ..old(self)@
            }),
    {
        self.send_command(DisplayCommand::COLMOD);

        let mut data: Vec<u8> = Vec::new();
        data.push(mode);
        self.send_data(data.as_slice());
        proof {
            assert(data@ =~= seq![mode]);
            assert(self@.log =~= old(self)@.log + seq![
                cmd_op(DisplayCommand::COLMOD),
                LinkOpView::Data(seq![mode]),
            ]);
        }
    }

    /// Program the active column range, or do nothing at all when the
    /// range is out of order or off the surface.
    pub fn set_columns(&mut self, start: u16, end: u16)
        ensures
            final (self)@ == (DisplayView {
                log: old(self)@.log + columns_ops(old(self)@.width, start, end),
                ..old(self)@
            }),
            start > end || end >= old(self)@.width ==> *final (self) == *old(self),
    {
        if start > end || end >= self.width {
            proof {
                assert(self@.log =~= old(self)@.log + columns_ops(old(self)@.width, start, end));
            }
            return ;
        }
        let start_hi = (start >> 8) as u8;
        let start_lo = (start & 0xFF) as u8;

        let end_hi = (end >> 8) as u8;
        let end_lo = (end & 0xFF) as u8;

        self.send_command(DisplayCommand::CASET);

        let mut data: Vec<u8> = Vec::new();
        data.push(start_hi);
        data.push(start_lo);
        data.push(end_hi);
        data.push(end_lo);
        self.send_data(data.as_slice());
        proof {
            assert(data@ =~= addr_bytes(start, end));
            assert(self@.log =~= old(self)@.log + columns_ops(old(self)@.width, start, end));
        }
    }

    /// Program the active row range, or do nothing at all when the range
    /// is out of order or off the surface.
    pub fn set_rows(&mut self, start: u16, end: u16)
        ensures
            final (self)@ == (DisplayView {
                log: old(self)@.log + rows_ops(old(self)@.height, start, end),
                ..old(self)@
            }),
            start > end || end >= old(self)@.height ==> *final (self) == *old(self),
    {
        if start > end || end >= self.height {
            proof {
                assert(self@.log =~= old(self)@.log + rows_ops(old(self)@.height, start, end));
            }
            return ;
        }
        let start_hi = (start >> 8) as u8;
        let start_lo = (start & 0xFF) as u8;

        let end_hi = (end >> 8) as u8;
        let end_lo = (end & 0xFF) as u8;

        self.send_command(DisplayCommand::RASET);

        let mut data: Vec<u8> = Vec::new();
        data.push(start_hi);
        data.push(start_lo);
        data.push(end_hi);
        data.push(end_lo);
        self.send_data(data.as_slice());
        proof {
            assert(data@ =~= addr_bytes(start, end));
            assert(self@.log =~= old(self)@.log + rows_ops(old(self)@.height, start, end));
        }
    }

    /// Program both address ranges and arm the controller for a pixel
    /// stream. A rejected range leaves the previously programmed one in
    /// force; the memory-write command is issued regardless.
    pub fn set_window(&mut self, start_x: u16, start_y: u16, end_x: u16, end_y: u16)
        ensures
            final (self)@ == (DisplayView {
                log: old(self)@.log + window_ops(
                    old(self)@.width,
                    old(self)@.height,
                    start_x,
                    start_y,
                    end_x,
                    end_y,
                ),
                ..old(self)@
            }),
    {
        self.set_columns(start_x, end_x);

        self.set_rows(start_y, end_y);

        self.send_command(DisplayCommand::RAMWR);
        proof {
            assert(self@.log =~= old(self)@.log + window_ops(
                old(self)@.width,
                old(self)@.height,
                start_x,
                start_y,
                end_x,
                end_y,
            ));
        }
    }

    /// Switch the panel on or off.
    pub fn set_display(&mut self, on: bool)
        ensures
            final (self)@ == (DisplayView { log: old(self)@.log + display_power_ops(on), ..old(self)@ }),
    {
        if on {
            self.send_command(DisplayCommand::DISPON);
        } else {
            self.send_command(DisplayCommand::DISPOFF);
        }
        proof {
            assert(self@.log =~= old(self)@.log + display_power_ops(on));
        }
    }

    /// Switch color inversion on or off.
    pub fn set_inversion_mode(&mut self, on: bool)
        ensures
            final (self)@ == (DisplayView { log: old(self)@.log + inversion_ops(on), ..old(self)@ }),
    {
        if on {
            self.send_command(DisplayCommand::INVON);
        } else {
            self.send_command(DisplayCommand::INVOFF);
        }
        proof {
            assert(self@.log =~= old(self)@.log + inversion_ops(on));
        }
    }

    /// Leave partial mode: normal display mode on.
    pub fn set_normal_mode(&mut self)
        ensures
            final (self)@ == (DisplayView {
                log: old(self)@.log.push(cmd_op(DisplayCommand::NORON)),
                ..old(self)@
            }),
    {
        self.send_command(DisplayCommand::NORON);
    }

    /// Program the memory access order for `rotation`.
    pub fn set_rotation(&mut self, rotation: DisplayRotation)
        ensures
            final (self)@ == (DisplayView {
                log: old(self)@.log + rotation_ops(rotation),
                ..old(self)@
            }),
    {
        self.send_command(DisplayCommand::MADCTL);

        let mut data: Vec<u8> = Vec::new();
        data.push(rotation.byte());
        self.send_data(data.as_slice());
        proof {
            assert(data@ =~= seq![rotation.spec_byte()]);
            assert(self@.log =~= old(self)@.log + rotation_ops(rotation));
        }
    }

    /// Enter or leave sleep.
    pub fn set_sleep_mode(&mut self, on: bool)
        ensures
            final (self)@ == (DisplayView { log: old(self)@.log + sleep_ops(on), ..old(self)@ }),
    {
        if on {
            self.send_command(DisplayCommand::SLPIN);
        } else {
            self.send_command(DisplayCommand::SLPOUT);
        }
        proof {
            assert(self@.log =~= old(self)@.log + sleep_ops(on));
        }
    }

    /// Set the text background color; `None` renders transparently.
    pub fn set_text_background_color(&mut self, color: Option<u32>)
        ensures
            final (self)@ == (DisplayView { background_color: color, ..old(self)@ }),
    {
        self.text.background_color = color;
    }

    /// Set the text foreground color.
    pub fn set_text_foreground_color(&mut self, color: u32)
        ensures
            final (self)@ == (DisplayView { foreground_color: color, ..old(self)@ }),
    {
        self.text.foreground_color = color;
    }

    /// Set the vertical pixel scale of rendered text.
    pub fn set_text_pixel_height(&mut self, pixel_height: u16)
        requires
            1 <= pixel_height,
        ensures
            final (self)@ == (DisplayView { pixel_height: pixel_height, ..old(self)@ }),
    {
        self.text.pixel_height = pixel_height;
    }

    /// Set the horizontal pixel scale of rendered text.
    pub fn set_text_pixel_width(&mut self, pixel_width: u16)
        requires
            1 <= pixel_width,
        ensures
            final (self)@ == (DisplayView { pixel_width: pixel_width, ..old(self)@ }),
    {
        self.text.pixel_width = pixel_width;
    }

    /// The surface height fixed at construction.
    pub fn height(&self) -> (r: u16)
        ensures
            r == self@.height,
    {
        self.height
    }

    /// The surface width fixed at construction.
    pub fn width(&self) -> (r: u16)
        ensures
            r == self@.width,
    {
        self.width
    }

    /// The bit depth currently in force (the sentinel until `set_bpp`).
    pub fn color_mode(&self) -> (r: DisplayColorModeBPP)
        ensures
            r == self@.bpp,
    {
        self.bpp
    }

    /// The transcript of link operations emitted so far.
    pub fn ops(&self) -> (r: &Vec<LinkOp>)
        ensures
            ops_view(r@) == self@.log,
    {
        &self.log
    }

    /// Drop the transcript emitted so far (once the shim has replayed it).
    pub fn clear_ops(&mut self)
        ensures
            final (self)@ == (DisplayView { log: Seq::<LinkOpView>::empty(), ..old(self)@ }),
    {
        self.log = Vec::new();
        proof {
            assert(self@.log =~= Seq::<LinkOpView>::empty());
        }
    }

    /// Fill a solid rectangle: clamp it onto the surface, program the
    /// window, and stream one packed pixel per covered position. A driver
    /// still at the unset sentinel draws nothing.
    #[verifier::loop_isolation(false)]
    pub fn draw_solid_rect(&mut self, x: u16, y: u16, width: u16, height: u16, color: u32)
        requires
            old(self)@.wf(),
            1 <= width,
            1 <= height,
        ensures
            final (self)@ == (DisplayView {
                log: old(self)@.log + solid_rect_ops(
                    old(self)@.bpp,
                    old(self)@.width,
                    old(self)@.height,
                    x,
                    y,
                    width,
                    height,
                    color,
                ),
                ..old(self)@
            }),
    {
        if self.bpp == DisplayColorModeBPP::UNKNOWN {
            proof {
                assert(self@.log =~= old(self)@.log + solid_rect_ops(
                    old(self)@.bpp,
                    old(self)@.width,
                    old(self)@.height,
                    x,
                    y,
                    width,
                    height,
                    color,
                ));
            }
            return ;
        }
        let cx = if x >= self.width {
            self.width - 1
        } else {
            x
        };
        let cy = if y >= self.height {
            self.height - 1
        } else {
            y
        };
        let cw = if (cx as u32) + (width as u32) >= (self.width as u32) {
            self.width - cx
        } else {
            width
        };
        let ch = if (cy as u32) + (height as u32) >= (self.height as u32) {
            self.height - cy
        } else {
            height
        };

        self.set_window(cx, cy, cx + cw - 1, cy + ch - 1);

        let mut buf: Vec<u8> = Vec::new();

        if self.bpp == DisplayColorModeBPP::BPP12 {
            // Nothing is packed for the 12-bit variant; each pixel is an
            // empty data transaction, the gap the original leaves open.
        } else if self.bpp == DisplayColorModeBPP::BPP16 {
            let color_hi = ((color >> 8) & 0xFF) as u8;
            let color_lo = (color & 0xFF) as u8;

            buf.push(color_hi);
            buf.push(color_lo);
        } else {
            let color_r = ((color >> 16) & 0xFF) as u8;
            let color_g = ((color >> 8) & 0xFF) as u8;
            let color_b = (color & 0xFF) as u8;

            buf.push(color_r);
            buf.push(color_g);
            buf.push(color_b);
        }
        proof {
            assert(buf@ =~= packed_pixel(old(self)@.bpp, color));
        }

        proof {
            assert((cw as int) * (ch as int) <= 0xFFFF * 0xFFFF) by (nonlinear_arith)
                requires
                    cw <= 0xFFFF,
                    ch <= 0xFFFF,
            ;
        }
        let pixels_count: u32 = (cw as u32) * (ch as u32);
        let ghost base = self@.log;

        let mut i: u32 = 0;
        while i < pixels_count
            invariant
                i <= pixels_count,
                self@ == (DisplayView {
                    log: base + pixel_run(old(self)@.bpp, color, i as nat),
                    ..old(self)@
                }),
            decreases pixels_count - i,
        {
            self.send_data(buf.as_slice());
            proof {
                assert(base + pixel_run(old(self)@.bpp, color, (i + 1) as nat) =~= (base
                    + pixel_run(old(self)@.bpp, color, i as nat)).push(
                    LinkOpView::Data(packed_pixel(old(self)@.bpp, color)),
                ));
            }
            i = i + 1;
        }

        proof {
            assert(self@.log =~= old(self)@.log + solid_rect_ops(
                old(self)@.bpp,
                old(self)@.width,
                old(self)@.height,
                x,
                y,
                width,
                height,
                color,
            ));
        }
    }

    /// Render `text` (one character code per byte) at `(x, y)` with the
    /// current text style, looking glyphs up in `font`. A newline code
    /// draws nothing, returns the cursor to `x` and advances it one text
    /// row; every other code is drawn as an 8x8 glyph scaled by the pixel
    /// scales: set bits as foreground blocks, clear bits as background
    /// blocks, or nothing where the background is transparent.
    ///
    /// The font must cover every code rendered (and the cursor arithmetic
    /// must stay within `u16`): both are demands on the caller, not
    /// handled here.
    #[verifier::loop_isolation(false)]
    #[verifier::rlimit(60)]
    pub fn draw_text(&mut self, x: u16, y: u16, text: &[u8], font: &[[u8; 8]])
        requires
            old(self)@.wf(),
            8 * old(self)@.pixel_width <= u16::MAX,
            8 * old(self)@.pixel_height <= u16::MAX,
            text_fits(
                x as int,
                y as int,
                x,
                old(self)@.pixel_width,
                old(self)@.pixel_height,
                text@,
            ),
            forall|i: int|
                0 <= i < text@.len() && text@[i] != 0x0A ==> (text@[i] as int) < font@.len(),
        ensures
            final (self)@ == (DisplayView {
                log: old(self)@.log + text_ops(
                    old(self)@,
                    x,
                    x as int,
                    y as int,
                    text@,
                    font_view(font@),
                ),
                ..old(self)@
            }),
    {
        let char_width: u16 = 8 * self.text.pixel_width;
        let char_height: u16 = 8 * self.text.pixel_height;

        let mut render_x = x;
        let mut render_y = y;

        let ghost d0 = self@;
        let ghost fontv = font_view(font@);

        proof {
            assert(text@.skip(0) =~= text@);
        }

        let mut ci: usize = 0;
        while ci < text.len()
            invariant
                ci <= text@.len(),
                (DisplayView { log: d0.log, ..self@ }) == d0,
                text_fits(
                    render_x as int,
                    render_y as int,
                    x,
                    d0.pixel_width,
                    d0.pixel_height,
                    text@.skip(ci as int),
                ),
                d0.log + text_ops(d0, x, x as int, y as int, text@, fontv) == self@.log + text_ops(
                    d0,
                    x,
                    render_x as int,
                    render_y as int,
                    text@.skip(ci as int),
                    fontv,
                ),
            decreases text@.len() - ci,
        {
            let ghost trest = text@.skip(ci as int);
            proof {
                assert(trest[0] == text@[ci as int]);
                assert(trest.skip(1) =~= text@.skip(ci as int + 1));
            }
            let c = text[ci];

            if c == 0x0A {
                render_x = x;
                render_y = render_y + char_height;
                ci = ci + 1;
                continue ;
            }
            let glyph = font[c as usize];
            let ghost rx0 = render_x as int;
            let ghost ry0 = render_y as int;
            let ghost glyph_s = glyph@;
            let ghost log_char_start = self@.log;
            proof {
                assert(fontv[c as int] == glyph_s);
                assert(rx0 + 8 * d0.pixel_width <= u16::MAX);
                assert(ry0 + 8 * d0.pixel_height <= u16::MAX);
            }

            let mut ri: usize = 0;
            while ri < 8
                invariant
                    ri <= 8,
                    (DisplayView { log: d0.log, ..self@ }) == d0,
                    rx0 + 8 * d0.pixel_width <= u16::MAX,
                    ry0 + 8 * d0.pixel_height <= u16::MAX,
                    render_x as int == rx0,
                    render_y as int == ry0 + ri * d0.pixel_height,
                    log_char_start + glyph_ops(d0, rx0, ry0, glyph_s, 0) == self@.log + glyph_ops(
                        d0,
                        rx0,
                        ry0,
                        glyph_s,
                        ri as int,
                    ),
                decreases 8 - ri,
            {
                let char_row = glyph[ri];
                let ghost ry_row = render_y as int;
                let ghost log_row_start = self@.log;

                let mut cj: usize = 0;
                while cj < 8
                    invariant
                        cj <= 8,
                        (DisplayView { log: d0.log, ..self@ }) == d0,
                        rx0 + 8 * d0.pixel_width <= u16::MAX,
                        render_y as int == ry_row,
                        render_x as int == rx0 + cj * d0.pixel_width,
                        log_row_start + glyph_row_ops(d0, rx0, ry_row, char_row, 0) == self@.log
                            + glyph_row_ops(d0, rx0, ry_row, char_row, cj as int),
                    decreases 8 - cj,
                {
                    let ghost log_pre = self@.log;
                    let shift: u8 = (7 - cj) as u8;
                    let mask: u8 = 1u8 << shift;
                    let pw = self.text.pixel_width;
                    let ph = self.text.pixel_height;
                    if char_row & mask != 0 {
                        let fg = self.text.foreground_color;
                        self.draw_solid_rect(render_x, render_y, pw, ph, fg);
                    } else if self.text.background_color.is_some() {
                        let bg = self.text.background_color.unwrap();
                        self.draw_solid_rect(render_x, render_y, pw, ph, bg);
                    }
                    proof {
                        let cell = glyph_cell_ops(
                            d0,
                            rx0 + cj * d0.pixel_width,
                            ry_row,
                            char_row,
                            cj as int,
                        );
                        assert(self@.log =~= log_pre + cell);
                        assert((log_pre + cell) + glyph_row_ops(
                            d0,
                            rx0,
                            ry_row,
                            char_row,
                            cj + 1,
                        ) =~= log_pre + (cell + glyph_row_ops(d0, rx0, ry_row, char_row, cj + 1)));
                        assert((cj as int + 1) * d0.pixel_width <= 8 * d0.pixel_width)
                            by (nonlinear_arith)
                            requires
                                cj as int + 1 <= 8,
                                0 <= d0.pixel_width,
                        ;
                        assert((cj as int + 1) * d0.pixel_width == cj as int * d0.pixel_width
                            + d0.pixel_width) by (nonlinear_arith);
                    }
                    render_x = render_x + pw;
                    cj = cj + 1;
                }
                proof {
                    assert(self@.log + glyph_row_ops(d0, rx0, ry_row, char_row, 8) =~= self@.log);
                    assert(glyph_s[ri as int] == char_row);
                    assert((log_row_start + glyph_row_ops(d0, rx0, ry_row, char_row, 0))
                        + glyph_ops(d0, rx0, ry0, glyph_s, ri as int + 1) =~= log_row_start + (
                    glyph_row_ops(d0, rx0, ry_row, char_row, 0) + glyph_ops(
                        d0,
                        rx0,
                        ry0,
                        glyph_s,
                        ri as int + 1,
                    )));
                    assert((ri as int + 1) * d0.pixel_height <= 8 * d0.pixel_height)
                        by (nonlinear_arith)
                        requires
                            ri as int + 1 <= 8,
                            0 <= d0.pixel_height,
                    ;
                    assert((ri as int + 1) * d0.pixel_height == ri as int * d0.pixel_height
                        + d0.pixel_height) by (nonlinear_arith);
                }
                render_x = render_x - char_width;
                render_y = render_y + self.text.pixel_height;
                ri = ri + 1;
            }
            proof {
                assert(self@.log + glyph_ops(d0, rx0, ry0, glyph_s, 8) =~= self@.log);
                assert((log_char_start + glyph_ops(d0, rx0, ry0, glyph_s, 0)) + text_ops(
                    d0,
                    x,
                    rx0 + 8 * d0.pixel_width,
                    ry0,
                    trest.skip(1),
                    fontv,
                ) =~= log_char_start + (glyph_ops(d0, rx0, ry0, glyph_s, 0) + text_ops(
                    d0,
                    x,
                    rx0 + 8 * d0.pixel_width,
                    ry0,
                    trest.skip(1),
                    fontv,
                )));
            }
            render_x = render_x + char_width;
            render_y = render_y - char_height;
            ci = ci + 1;
        }
        proof {
            assert(text@.skip(text@.len() as int) =~= Seq::<u8>::empty());
            assert(self@.log + text_ops(
                d0,
                x,
                render_x as int,
                render_y as int,
                text@.skip(text@.len() as int),
                fontv,
            ) =~= self@.log);
            assert(self@.log =~= old(self)@.log + text_ops(
                old(self)@,
                x,
                x as int,
                y as int,
                text@,
                font_view(font@),
            ));
        }
    }

    /// Fill the whole surface with `color`.
    pub fn fill(&mut self, color: u32)
        requires
            old(self)@.wf(),
        ensures
            final (self)@ == (DisplayView {
                log: old(self)@.log + solid_rect_ops(
                    old(self)@.bpp,
                    old(self)@.width,
                    old(self)@.height,
                    0,
                    0,
                    old(self)@.width,
                    old(self)@.height,
                    color,
                ),
                ..old(self)@
            }),
    {
        let width = self.width;
        let height = self.height;
        self.draw_solid_rect(0, 0, width, height, color);
    }
}

/// For every rectangle request whose origin lies on the surface (and with
/// at least one pixel of extent), clamping keeps the programmed window in
/// bounds: the corners satisfy `x <= x1 < width` and `y <= y1 < height`,
/// and neither the column nor the row programming is rejected.
pub proof fn lemma_solid_rect_window_in_bounds(
    bpp: DisplayColorModeBPP,
    width: u16,
    height: u16,
    x: u16,
    y: u16,
    w: u16,
    h: u16,
    color: u32,
)
    requires
        bpp != DisplayColorModeBPP::UNKNOWN,
        1 <= width,
        1 <= height,
        x < width,
        y < height,
        1 <= w,
        1 <= h,
    ensures
        clamp_coord(x, width) == x,
        clamp_coord(y, height) == y,
        x <= x + clamp_extent(x, w, width) - 1 < width,
        y <= y + clamp_extent(y, h, height) - 1 < height,
        columns_ops(width, x, (x + clamp_extent(x, w, width) - 1) as u16).len() == 2,
        rows_ops(height, y, (y + clamp_extent(y, h, height) - 1) as u16).len() == 2,
        solid_rect_ops(bpp, width, height, x, y, w, h, color) == window_ops(
            width,
            height,
            x,
            y,
            (x + clamp_extent(x, w, width) - 1) as u16,
            (y + clamp_extent(y, h, height) - 1) as u16,
        ) + pixel_run(bpp, color, (clamp_extent(x, w, width) * clamp_extent(y, h, height)) as nat),
{
}

/// Setting any defined bit depth stores exactly that mode: a state query
/// after `set_bpp` reports the mode that was set, and no defined mode
/// leaves the driver at the unset sentinel.
pub proof fn lemma_set_bpp_round_trip(d: DisplayView, bpp: DisplayColorModeBPP)
    requires
        bpp != DisplayColorModeBPP::UNKNOWN,
    ensures
        set_bpp_view(d, bpp).bpp == bpp,
        set_bpp_view(d, bpp).bpp != DisplayColorModeBPP::UNKNOWN,
        set_bpp_view(d, bpp).width == d.width,
        set_bpp_view(d, bpp).height == d.height,
{
}

} // verus!
