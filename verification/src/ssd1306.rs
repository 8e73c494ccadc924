//! The SSD1306 driver: a 128 x 64 frame, the last transmitted frame, and a
//! transport to the controller.
//!
//! Pixels are drawn into the live frame. `display` transmits what differs
//! from the last transmitted frame and then starts a new, blank frame, so
//! every frame is drawn from scratch. A refused transfer aborts the
//! operation and leaves both frames as they were, so that the caller may
//! simply try again.

use vstd::prelude::*;
use crate::engine::{flush_plan, full_plan, lemma_plan_empty_iff_unchanged, plan_flush, plan_full};
use crate::framebuffer::{blank, plot, Framebuffer};
use crate::protocol::{
    Transfer,
    ACTIVATE_SCROLL,
    CHARGE_PUMP,
    COM_SCAN_DEC,
    DEACTIVATE_SCROLL,
    DISPLAY_OFF,
    DISPLAY_ON,
    INVERSE_DISPLAY,
    LEFT_HORIZONTAL_SCROLL,
    MEMORY_MODE_HORIZONTAL,
    NORMAL_DISPLAY,
    RESUME_TO_GDDRAM,
    RIGHT_HORIZONTAL_SCROLL,
    SEG_REMAP_REVERSED,
    SET_COLUMN_ADDRESS,
    SET_COM_PINS,
    SET_CONTRAST_LEVEL,
    SET_DISPLAY_CLOCK_DIV,
    SET_DISPLAY_OFFSET,
    SET_MEMORY_MODE,
    SET_MULTIPLEX,
    SET_PAGE_ADDRESS,
    SET_PRECHARGE,
    SET_START_LINE,
    SET_VCOM_DETECT,
    SET_VERTICAL_SCROLL_AREA,
    VERTICAL_AND_LEFT_HORIZONTAL_SCROLL,
    VERTICAL_AND_RIGHT_HORIZONTAL_SCROLL,
};
use crate::transport::{
    delivered,
    lemma_delivered_failed_early,
    lemma_delivered_then,
    lemma_owed_failed_early,
    lemma_owed_then,
    owed,
    send_all,
    BusError,
    Transport,
};

verus! {

/// Colour of a pixel that is off.
pub const BLACK: u16 = 0;

/// Colour of a pixel that is on.
pub const WHITE: u16 = 1;

/// Width of the panel in pixels.
pub const LCD_WIDTH: u16 = 128;

/// Height of the panel in pixels.
pub const LCD_HEIGHT: u16 = 64;

/// Bytes in one frame of the panel.
pub const FRAME_BYTES: usize = 1024;

/// Where the panel takes its drive voltage from.
#[derive(Clone, Copy, Debug, PartialEq, Eq, Structural)]
pub enum VccType {
    ExternalVcc,
    InternalVcc,
}

/// Contrast level that suits the voltage source.
pub open spec fn contrast_for(vcc: VccType) -> u8 {
    match vcc {
        VccType::ExternalVcc => 0x9F,
        VccType::InternalVcc => 0xCF,
    }
}

/// Charge pump setting that suits the voltage source.
pub open spec fn charge_pump_for(vcc: VccType) -> u8 {
    match vcc {
        VccType::ExternalVcc => 0x10,
        VccType::InternalVcc => 0x14,
    }
}

/// Pre-charge period that suits the voltage source.
pub open spec fn precharge_for(vcc: VccType) -> u8 {
    match vcc {
        VccType::ExternalVcc => 0x22,
        VccType::InternalVcc => 0xF1,
    }
}

/// Each byte as a transfer to the command register.
pub open spec fn commands(bytes: Seq<u8>) -> Seq<Transfer> {
    Seq::new(bytes.len(), |i: int| Transfer::Command(bytes[i]))
}

/// The command bytes that bring the controller up: display off, timing and
/// voltage set-up, horizontal addressing over the whole memory, scrolling
/// off, display on.
pub open spec fn init_bytes(vcc: VccType) -> Seq<u8> {
    seq![
        DISPLAY_OFF,
        SET_DISPLAY_CLOCK_DIV,
        0x80,
        SET_MULTIPLEX,
        0x3F,
        SET_DISPLAY_OFFSET,
        0x00,
        SET_START_LINE,
        CHARGE_PUMP,
        charge_pump_for(vcc),
        SET_MEMORY_MODE,
        MEMORY_MODE_HORIZONTAL,
        SEG_REMAP_REVERSED,
        COM_SCAN_DEC,
        SET_COM_PINS,
        0x12,
        SET_CONTRAST_LEVEL,
        contrast_for(vcc),
        SET_PRECHARGE,
        precharge_for(vcc),
        SET_VCOM_DETECT,
        0x40,
        RESUME_TO_GDDRAM,
        NORMAL_DISPLAY,
        SET_COLUMN_ADDRESS,
        0,
        127,
        SET_PAGE_ADDRESS,
        0,
        7,
        DEACTIVATE_SCROLL,
        DISPLAY_ON,
    ]
}

/// The command byte that selects inverse or normal video.
pub open spec fn invert_byte(state: bool) -> u8 {
    if state {
        INVERSE_DISPLAY
    } else {
        NORMAL_DISPLAY
    }
}

/// The command bytes that start a horizontal scroll of the pages `start`
/// to `stop` in the direction that `opcode` names.
pub open spec fn horizontal_scroll_bytes(opcode: u8, start: u8, stop: u8) -> Seq<u8> {
    seq![opcode, 0x00, start, 0x00, stop, 0x01, 0xFF, ACTIVATE_SCROLL]
}

/// The command bytes that start a diagonal scroll of the pages `start` to
/// `stop`: a vertical scroll area of `rows` rows, then the combined scroll
/// that `opcode` names.
pub open spec fn diagonal_scroll_bytes(opcode: u8, rows: u8, start: u8, stop: u8) -> Seq<u8> {
    seq![
        SET_VERTICAL_SCROLL_AREA,
        0x00,
        rows,
        opcode,
        0x00,
        start,
        0x00,
        stop,
        0x01,
        ACTIVATE_SCROLL,
    ]
}

/// Builds the start-up command bytes.
fn init_sequence(vcc: VccType) -> (bytes: Vec<u8>)
    ensures
        bytes@ == init_bytes(vcc),
{
    let contrast: u8 = match vcc {
        VccType::ExternalVcc => 0x9F,
        VccType::InternalVcc => 0xCF,
    };
    let charge_pump: u8 = match vcc {
        VccType::ExternalVcc => 0x10,
        VccType::InternalVcc => 0x14,
    };
    let precharge: u8 = match vcc {
        VccType::ExternalVcc => 0x22,
        VccType::InternalVcc => 0xF1,
    };
    let bytes: Vec<u8> = vec![
        DISPLAY_OFF,
        SET_DISPLAY_CLOCK_DIV,
        0x80,
        SET_MULTIPLEX,
        0x3F,
        SET_DISPLAY_OFFSET,
        0x00,
        SET_START_LINE,
        CHARGE_PUMP,
        charge_pump,
        SET_MEMORY_MODE,
        MEMORY_MODE_HORIZONTAL,
        SEG_REMAP_REVERSED,
        COM_SCAN_DEC,
        SET_COM_PINS,
        0x12,
        SET_CONTRAST_LEVEL,
        contrast,
        SET_PRECHARGE,
        precharge,
        SET_VCOM_DETECT,
        0x40,
        RESUME_TO_GDDRAM,
        NORMAL_DISPLAY,
        SET_COLUMN_ADDRESS,
        0,
        127,
        SET_PAGE_ADDRESS,
        0,
        7,
        DEACTIVATE_SCROLL,
        DISPLAY_ON,
    ];
    assert(bytes@ =~= init_bytes(vcc));
    bytes
}

/// Builds the command bytes of a horizontal scroll.
fn horizontal_scroll(opcode: u8, start: u8, stop: u8) -> (bytes: Vec<u8>)
    ensures
        bytes@ == horizontal_scroll_bytes(opcode, start, stop),
{
    let bytes: Vec<u8> = vec![opcode, 0x00, start, 0x00, stop, 0x01, 0xFF, ACTIVATE_SCROLL];
    assert(bytes@ =~= horizontal_scroll_bytes(opcode, start, stop));
    bytes
}

/// Builds the command bytes of a diagonal scroll.
fn diagonal_scroll(opcode: u8, rows: u8, start: u8, stop: u8) -> (bytes: Vec<u8>)
    ensures
        bytes@ == diagonal_scroll_bytes(opcode, rows, start, stop),
{
    let bytes: Vec<u8> = vec![
        SET_VERTICAL_SCROLL_AREA,
        0x00,
        rows,
        opcode,
        0x00,
        start,
        0x00,
        stop,
        0x01,
        ACTIVATE_SCROLL,
    ];
    assert(bytes@ =~= diagonal_scroll_bytes(opcode, rows, start, stop));
    bytes
}

/// Turns command bytes into transfers.
fn as_commands(bytes: &Vec<u8>) -> (plan: Vec<Transfer>)
    ensures
        plan@ == commands(bytes@),
{
    let mut plan: Vec<Transfer> = Vec::new();
    let mut i: usize = 0;
    while i < bytes.len()
        invariant
            i <= bytes.len(),
            plan@ == commands(bytes@.take(i as int)),
        decreases bytes.len() - i,
    {
        plan.push(Transfer::Command(bytes[i]));
        i = i + 1;
        assert(plan@ =~= commands(bytes@.take(i as int)));
    }
    assert(bytes@.take(i as int) =~= bytes@);
    plan
}

/// What drawing code needs from a display, whatever the panel.
pub trait Display {
    /// The display is in a state in which it can be used.
    spec fn valid(&self) -> bool;

    /// Prepares the panel for use.
    fn initialize(&mut self) -> (r: Result<(), BusError>)
        requires
            old(self).valid(),
        ensures
            final(self).valid(),
    ;

    /// Selects inverse or normal video.
    fn invert_display(&mut self, state: bool) -> (r: Result<(), BusError>)
        requires
            old(self).valid(),
        ensures
            final(self).valid(),
    ;

    /// Draws one pixel in the given colour. Drawing never fails: a pixel
    /// outside the panel is dropped.
    fn draw_pixel(&mut self, x: i16, y: i16, color: u16) -> (r: Result<(), BusError>)
        requires
            old(self).valid(),
        ensures
            final(self).valid(),
            r is Ok,
    ;

    /// What blanking the panel does to this kind of display: how the
    /// display after `clear` relates to the display before it, for each
    /// outcome.
    spec fn blanked(before: &Self, after: &Self, outcome: Result<(), BusError>) -> bool;

    /// Blanks the panel.
    fn clear(&mut self) -> (r: Result<(), BusError>)
        requires
            old(self).valid(),
        ensures
            final(self).valid(),
            Self::blanked(old(self), final(self), r),
    ;

    /// Switches the panel off.
    fn deinitialize(&mut self) -> (r: Result<(), BusError>)
        requires
            old(self).valid(),
        ensures
            final(self).valid(),
    ;

    /// Shows what was drawn since the last update.
    fn update(&mut self) -> (r: Result<(), BusError>)
        requires
            old(self).valid(),
        ensures
            final(self).valid(),
    ;

    /// Width in pixels.
    fn get_width(&self) -> u16;

    /// Height in pixels.
    fn get_height(&self) -> u16;

    /// The colour that text is drawn in by default.
    fn get_def_text_color(&self) -> u16;

    /// The colour of the background by default.
    fn get_def_bg_color(&self) -> u16;
}

/// An SSD1306 panel behind a transport.
pub struct SSD1306<B: Transport> {
    lcd_width: u16,
    lcd_height: u16,
    vcc_type: VccType,
    frame: Framebuffer,
    snapshot_frame: Framebuffer,
    bus: B,
}

impl<B: Transport> SSD1306<B> {
    /// The bytes of the live frame, the one that pixels are drawn into.
    pub closed spec fn frame_bytes(&self) -> Seq<u8> {
        self.frame@.bytes
    }

    /// The bytes of the last transmitted frame.
    pub closed spec fn snapshot_bytes(&self) -> Seq<u8> {
        self.snapshot_frame@.bytes
    }

    /// The transport that the driver owns.
    pub closed spec fn transport(&self) -> B {
        self.bus
    }

    /// The voltage source that the driver was set up for.
    pub closed spec fn vcc(&self) -> VccType {
        self.vcc_type
    }

    /// Everything that the transport has accepted so far.
    pub open spec fn sent(&self) -> Seq<Transfer> {
        self.transport().sent()
    }

    /// Both frames have the panel's geometry.
    pub closed spec fn geometry_ok(&self) -> bool {
        &&& self.lcd_width == LCD_WIDTH
        &&& self.lcd_height == LCD_HEIGHT
        &&& self.frame.wf()
        &&& self.frame@.width == LCD_WIDTH
        &&& self.frame@.height == LCD_HEIGHT
        &&& self.snapshot_frame.wf()
        &&& self.snapshot_frame@.width == LCD_WIDTH
        &&& self.snapshot_frame@.height == LCD_HEIGHT
    }

    /// Well-formedness: both frames have the panel's geometry, hence its
    /// number of bytes.
    pub open spec fn wf(&self) -> bool {
        &&& self.geometry_ok()
        &&& self.frame_bytes().len() == FRAME_BYTES
        &&& self.snapshot_bytes().len() == FRAME_BYTES
    }

    /// A driver for a panel behind `bus`, with internal drive voltage and
    /// both frames blank. Nothing is sent yet.
    pub fn new(bus: B) -> (driver: SSD1306<B>)
        ensures
            driver.wf(),
            driver.transport() == bus,
            driver.vcc() == VccType::InternalVcc,
            driver.frame_bytes() == blank(FRAME_BYTES as int),
            driver.snapshot_bytes() == blank(FRAME_BYTES as int),
    {
        SSD1306 {
            lcd_width: LCD_WIDTH,
            lcd_height: LCD_HEIGHT,
            vcc_type: VccType::InternalVcc,
            frame: Framebuffer::new(LCD_WIDTH, LCD_HEIGHT),
            snapshot_frame: Framebuffer::new(LCD_WIDTH, LCD_HEIGHT),
            bus,
        }
    }

    /// The transport, for inspection.
    pub fn bus(&self) -> (bus: &B)
        ensures
            *bus == self.transport(),
    {
        &self.bus
    }

    /// The transport, for use past the driver. Both frames stay as they
    /// are.
    pub fn bus_mut(&mut self) -> (bus: &mut B)
        requires
            old(self).wf(),
        ensures
            *bus == old(self).transport(),
            final(self).transport() == *final(bus),
            final(self).wf(),
            final(self).frame_bytes() == old(self).frame_bytes(),
            final(self).snapshot_bytes() == old(self).snapshot_bytes(),
            final(self).vcc() == old(self).vcc(),
    {
        &mut self.bus
    }

    /// Gives the transport back and ends the driver.
    pub fn release(self) -> (bus: B)
        ensures
            bus == self.transport(),
    {
        self.bus
    }

    /// The live frame's packed bytes.
    pub fn buffer(&self) -> (bytes: &Vec<u8>)
        ensures
            bytes@ == self.frame_bytes(),
    {
        self.frame.as_bytes()
    }

    /// The last transmitted frame's packed bytes.
    pub fn snapshot(&self) -> (bytes: &Vec<u8>)
        ensures
            bytes@ == self.snapshot_bytes(),
    {
        self.snapshot_frame.as_bytes()
    }

    /// Delivers `plan` to the transport and touches nothing else.
    fn emit(&mut self, plan: &Vec<Transfer>) -> (r: Result<(), BusError>)
        requires
            old(self).wf(),
        ensures
            final(self).wf(),
            delivered(old(self).sent(), final(self).sent(), plan@, r),
            owed(old(self).transport(), final(self).transport(), plan@, r),
            plan@.len() == 0 ==> r is Ok && final(self).transport() == old(self).transport(),
            final(self).frame_bytes() == old(self).frame_bytes(),
            final(self).snapshot_bytes() == old(self).snapshot_bytes(),
            final(self).vcc() == old(self).vcc(),
    {
        send_all(&mut self.bus, plan)
    }

    /// Brings the controller up and, once it has taken every command,
    /// blanks both frames. A refused command aborts the start-up and leaves
    /// the frames as they were.
    pub fn begin(&mut self) -> (r: Result<(), BusError>)
        requires
            old(self).wf(),
        ensures
            final(self).wf(),
            delivered(
                old(self).sent(),
                final(self).sent(),
                commands(init_bytes(old(self).vcc())),
                r,
            ),
            owed(
                old(self).transport(),
                final(self).transport(),
                commands(init_bytes(old(self).vcc())),
                r,
            ),
            r is Ok ==> final(self).frame_bytes() == blank(FRAME_BYTES as int)
                && final(self).snapshot_bytes() == blank(FRAME_BYTES as int),
            r is Err ==> final(self).frame_bytes() == old(self).frame_bytes()
                && final(self).snapshot_bytes() == old(self).snapshot_bytes(),
            final(self).vcc() == old(self).vcc(),
    {
        let plan = as_commands(&init_sequence(self.vcc_type));
        match self.emit(&plan) {
            Ok(_) => {
                self.blank_frames();
                Ok(())
            },
            Err(e) => Err(e),
        }
    }

    /// Selects inverse video (`true`) or normal video (`false`).
    pub fn invert(&mut self, state: bool) -> (r: Result<(), BusError>)
        requires
            old(self).wf(),
        ensures
            final(self).wf(),
            delivered(
                old(self).sent(),
                final(self).sent(),
                commands(seq![invert_byte(state)]),
                r,
            ),
            owed(
                old(self).transport(),
                final(self).transport(),
                commands(seq![invert_byte(state)]),
                r,
            ),
            final(self).frame_bytes() == old(self).frame_bytes(),
            final(self).snapshot_bytes() == old(self).snapshot_bytes(),
            final(self).vcc() == old(self).vcc(),
    {
        let opcode: u8 = if state {
            INVERSE_DISPLAY
        } else {
            NORMAL_DISPLAY
        };
        let bytes: Vec<u8> = vec![opcode];
        assert(bytes@ =~= seq![invert_byte(state)]);
        let plan = as_commands(&bytes);
        self.emit(&plan)
    }

    /// Transmits the whole live frame, changed or not: the full window is
    /// programmed, then every byte is streamed. Neither frame is touched.
    pub fn display_all(&mut self) -> (r: Result<(), BusError>)
        requires
            old(self).wf(),
        ensures
            final(self).wf(),
            delivered(
                old(self).sent(),
                final(self).sent(),
                full_plan(old(self).frame_bytes()),
                r,
            ),
            owed(
                old(self).transport(),
                final(self).transport(),
                full_plan(old(self).frame_bytes()),
                r,
            ),
            final(self).frame_bytes() == old(self).frame_bytes(),
            final(self).snapshot_bytes() == old(self).snapshot_bytes(),
            final(self).vcc() == old(self).vcc(),
    {
        let plan = plan_full(self.frame.as_bytes());
        self.emit(&plan)
    }

    /// Transmits what differs between the live frame and the last
    /// transmitted one, then makes the live frame the last transmitted one
    /// and starts a new, blank frame. Where nothing differs nothing is
    /// sent. A refused transfer aborts the flush and leaves both frames as
    /// they were.
    pub fn display(&mut self) -> (r: Result<(), BusError>)
        requires
            old(self).wf(),
        ensures
            final(self).wf(),
            delivered(
                old(self).sent(),
                final(self).sent(),
                flush_plan(old(self).frame_bytes(), old(self).snapshot_bytes()),
                r,
            ),
            owed(
                old(self).transport(),
                final(self).transport(),
                flush_plan(old(self).frame_bytes(), old(self).snapshot_bytes()),
                r,
            ),
            r is Ok ==> final(self).snapshot_bytes() == old(self).frame_bytes()
                && final(self).frame_bytes() == blank(FRAME_BYTES as int),
            r is Err ==> final(self).frame_bytes() == old(self).frame_bytes()
                && final(self).snapshot_bytes() == old(self).snapshot_bytes(),
            old(self).frame_bytes() == old(self).snapshot_bytes() ==> r is Ok
                && final(self).transport() == old(self).transport(),
            final(self).vcc() == old(self).vcc(),
    {
        proof {
            lemma_plan_empty_iff_unchanged(self.frame_bytes(), self.snapshot_bytes());
        }
        let plan = plan_flush(self.frame.as_bytes(), self.snapshot_frame.as_bytes());
        match self.emit(&plan) {
            Ok(_) => {
                core::mem::swap(&mut self.frame, &mut self.snapshot_frame);
                self.frame.clear();
                Ok(())
            },
            Err(e) => Err(e),
        }
    }

    /// Starts a continuous scroll to the right of the pages `start` to
    /// `stop`.
    pub fn start_scroll_right(&mut self, start: u8, stop: u8) -> (r: Result<(), BusError>)
        requires
            old(self).wf(),
        ensures
            final(self).wf(),
            delivered(
                old(self).sent(),
                final(self).sent(),
                commands(horizontal_scroll_bytes(RIGHT_HORIZONTAL_SCROLL, start, stop)),
                r,
            ),
            owed(
                old(self).transport(),
                final(self).transport(),
                commands(horizontal_scroll_bytes(RIGHT_HORIZONTAL_SCROLL, start, stop)),
                r,
            ),
            final(self).frame_bytes() == old(self).frame_bytes(),
            final(self).snapshot_bytes() == old(self).snapshot_bytes(),
            final(self).vcc() == old(self).vcc(),
    {
        let plan = as_commands(&horizontal_scroll(RIGHT_HORIZONTAL_SCROLL, start, stop));
        self.emit(&plan)
    }

    /// Starts a continuous scroll to the left of the pages `start` to
    /// `stop`.
    pub fn start_scroll_left(&mut self, start: u8, stop: u8) -> (r: Result<(), BusError>)
        requires
            old(self).wf(),
        ensures
            final(self).wf(),
            delivered(
                old(self).sent(),
                final(self).sent(),
                commands(horizontal_scroll_bytes(LEFT_HORIZONTAL_SCROLL, start, stop)),
                r,
            ),
            owed(
                old(self).transport(),
                final(self).transport(),
                commands(horizontal_scroll_bytes(LEFT_HORIZONTAL_SCROLL, start, stop)),
                r,
            ),
            final(self).frame_bytes() == old(self).frame_bytes(),
            final(self).snapshot_bytes() == old(self).snapshot_bytes(),
            final(self).vcc() == old(self).vcc(),
    {
        let plan = as_commands(&horizontal_scroll(LEFT_HORIZONTAL_SCROLL, start, stop));
        self.emit(&plan)
    }

    /// Starts a diagonal scroll to the right of the pages `start` to
    /// `stop`, over a vertical scroll area of all rows but one.
    pub fn start_scroll_diag_right(&mut self, start: u8, stop: u8) -> (r: Result<(), BusError>)
        requires
            old(self).wf(),
        ensures
            final(self).wf(),
            delivered(
                old(self).sent(),
                final(self).sent(),
                commands(
                    diagonal_scroll_bytes(VERTICAL_AND_RIGHT_HORIZONTAL_SCROLL, 63, start, stop),
                ),
                r,
            ),
            owed(
                old(self).transport(),
                final(self).transport(),
                commands(
                    diagonal_scroll_bytes(VERTICAL_AND_RIGHT_HORIZONTAL_SCROLL, 63, start, stop),
                ),
                r,
            ),
            final(self).frame_bytes() == old(self).frame_bytes(),
            final(self).snapshot_bytes() == old(self).snapshot_bytes(),
            final(self).vcc() == old(self).vcc(),
    {
        let rows: u8 = (self.lcd_height - 1) as u8;
        let plan = as_commands(
            &diagonal_scroll(VERTICAL_AND_RIGHT_HORIZONTAL_SCROLL, rows, start, stop),
        );
        self.emit(&plan)
    }

    /// Starts a diagonal scroll to the left of the pages `start` to `stop`,
    /// over a vertical scroll area as tall as the panel is wide, less one.
    pub fn start_scroll_diag_left(&mut self, start: u8, stop: u8) -> (r: Result<(), BusError>)
        requires
            old(self).wf(),
        ensures
            final(self).wf(),
            delivered(
                old(self).sent(),
                final(self).sent(),
                commands(
                    diagonal_scroll_bytes(VERTICAL_AND_LEFT_HORIZONTAL_SCROLL, 127, start, stop),
                ),
                r,
            ),
            owed(
                old(self).transport(),
                final(self).transport(),
                commands(
                    diagonal_scroll_bytes(VERTICAL_AND_LEFT_HORIZONTAL_SCROLL, 127, start, stop),
                ),
                r,
            ),
            final(self).frame_bytes() == old(self).frame_bytes(),
            final(self).snapshot_bytes() == old(self).snapshot_bytes(),
            final(self).vcc() == old(self).vcc(),
    {
        let rows: u8 = (self.lcd_width - 1) as u8;
        let plan = as_commands(
            &diagonal_scroll(VERTICAL_AND_LEFT_HORIZONTAL_SCROLL, rows, start, stop),
        );
        self.emit(&plan)
    }

    /// Stops any scroll.
    pub fn stop_scroll(&mut self) -> (r: Result<(), BusError>)
        requires
            old(self).wf(),
        ensures
            final(self).wf(),
            delivered(
                old(self).sent(),
                final(self).sent(),
                commands(seq![DEACTIVATE_SCROLL]),
                r,
            ),
            owed(
                old(self).transport(),
                final(self).transport(),
                commands(seq![DEACTIVATE_SCROLL]),
                r,
            ),
            final(self).frame_bytes() == old(self).frame_bytes(),
            final(self).snapshot_bytes() == old(self).snapshot_bytes(),
            final(self).vcc() == old(self).vcc(),
    {
        let bytes: Vec<u8> = vec![DEACTIVATE_SCROLL];
        assert(bytes@ =~= seq![DEACTIVATE_SCROLL]);
        let plan = as_commands(&bytes);
        self.emit(&plan)
    }

    /// Blanks the live frame. Nothing is sent, and the last transmitted
    /// frame stays as it is: it changes with what the panel was sent, not
    /// with what is drawn.
    pub fn clear(&mut self)
        requires
            old(self).wf(),
        ensures
            final(self).wf(),
            final(self).frame_bytes() == blank(FRAME_BYTES as int),
            final(self).snapshot_bytes() == old(self).snapshot_bytes(),
            final(self).transport() == old(self).transport(),
            final(self).vcc() == old(self).vcc(),
    {
        self.frame.clear();
    }

    /// Blanks both frames, for a panel that was just sent a blank frame or
    /// was just brought up.
    fn blank_frames(&mut self)
        requires
            old(self).wf(),
        ensures
            final(self).wf(),
            final(self).frame_bytes() == blank(FRAME_BYTES as int),
            final(self).snapshot_bytes() == blank(FRAME_BYTES as int),
            final(self).transport() == old(self).transport(),
            final(self).vcc() == old(self).vcc(),
    {
        self.frame.clear();
        self.snapshot_frame.clear();
    }
}

impl<B: Transport> Display for SSD1306<B> {
    open spec fn valid(&self) -> bool {
        self.wf()
    }

    /// A blank frame was handed to the transport in full; where the panel
    /// took all of it both frames are blank, where it refused a transfer
    /// they are as they were.
    open spec fn blanked(before: &Self, after: &Self, outcome: Result<(), BusError>) -> bool {
        &&& delivered(before.sent(), after.sent(), full_plan(blank(FRAME_BYTES as int)), outcome)
        &&& owed(
            before.transport(),
            after.transport(),
            full_plan(blank(FRAME_BYTES as int)),
            outcome,
        )
        &&& outcome is Ok ==> after.frame_bytes() == blank(FRAME_BYTES as int)
            && after.snapshot_bytes() == blank(FRAME_BYTES as int)
        &&& outcome is Err ==> after.frame_bytes() == before.frame_bytes()
            && after.snapshot_bytes() == before.snapshot_bytes()
        &&& after.vcc() == before.vcc()
    }

    /// Selects normal video, then brings the controller up as `begin`
    /// does.
    fn initialize(&mut self) -> (r: Result<(), BusError>)
        ensures
            delivered(
                old(self).sent(),
                final(self).sent(),
                commands(seq![NORMAL_DISPLAY]) + commands(init_bytes(old(self).vcc())),
                r,
            ),
            owed(
                old(self).transport(),
                final(self).transport(),
                commands(seq![NORMAL_DISPLAY]) + commands(init_bytes(old(self).vcc())),
                r,
            ),
            r is Ok ==> final(self).frame_bytes() == blank(FRAME_BYTES as int)
                && final(self).snapshot_bytes() == blank(FRAME_BYTES as int),
            r is Err ==> final(self).frame_bytes() == old(self).frame_bytes()
                && final(self).snapshot_bytes() == old(self).snapshot_bytes(),
            final(self).vcc() == old(self).vcc(),
    {
        let ghost before = self.transport();
        let ghost head = commands(seq![NORMAL_DISPLAY]);
        let ghost tail = commands(init_bytes(self.vcc()));
        match self.invert(false) {
            Ok(_) => {},
            Err(e) => {
                proof {
                    lemma_delivered_failed_early(before.sent(), self.sent(), head, tail, e);
                    lemma_owed_failed_early(before, self.transport(), head, tail, e);
                }
                return Err(e);
            },
        }
        let ghost middle = self.transport();
        let r = self.begin();
        proof {
            lemma_delivered_then(before.sent(), middle.sent(), self.sent(), head, tail, r);
            lemma_owed_then(before, middle, self.transport(), head, tail, r);
        }
        r
    }

    fn invert_display(&mut self, state: bool) -> (r: Result<(), BusError>)
        ensures
            delivered(
                old(self).sent(),
                final(self).sent(),
                commands(seq![invert_byte(state)]),
                r,
            ),
            owed(
                old(self).transport(),
                final(self).transport(),
                commands(seq![invert_byte(state)]),
                r,
            ),
            final(self).frame_bytes() == old(self).frame_bytes(),
            final(self).snapshot_bytes() == old(self).snapshot_bytes(),
            final(self).vcc() == old(self).vcc(),
    {
        self.invert(state)
    }

    /// Turns the pixel on for any colour but `BLACK`, off for `BLACK`.
    /// Nothing is sent.
    fn draw_pixel(&mut self, x: i16, y: i16, color: u16) -> (r: Result<(), BusError>)
        ensures
            final(self).frame_bytes() == plot(
                old(self).frame_bytes(),
                LCD_WIDTH as int,
                LCD_HEIGHT as int,
                x as int,
                y as int,
                color != BLACK,
            ),
            final(self).snapshot_bytes() == old(self).snapshot_bytes(),
            final(self).transport() == old(self).transport(),
            final(self).vcc() == old(self).vcc(),
    {
        self.frame.set_pixel(x, y, color != BLACK);
        Ok(())
    }

    /// Transmits a blank frame in full and, once the panel has taken it,
    /// blanks both frames. A refused transfer leaves the frames as they
    /// were.
    fn clear(&mut self) -> (r: Result<(), BusError>)
    {
        let zeros: Vec<u8> = vec![0u8; FRAME_BYTES];
        assert(zeros@ =~= blank(FRAME_BYTES as int));
        let plan = plan_full(&zeros);
        match self.emit(&plan) {
            Ok(_) => {
                self.blank_frames();
                Ok(())
            },
            Err(e) => Err(e),
        }
    }

    fn deinitialize(&mut self) -> (r: Result<(), BusError>)
        ensures
            delivered(old(self).sent(), final(self).sent(), commands(seq![DISPLAY_OFF]), r),
            owed(old(self).transport(), final(self).transport(), commands(seq![DISPLAY_OFF]), r),
            final(self).frame_bytes() == old(self).frame_bytes(),
            final(self).snapshot_bytes() == old(self).snapshot_bytes(),
            final(self).vcc() == old(self).vcc(),
    {
        let bytes: Vec<u8> = vec![DISPLAY_OFF];
        assert(bytes@ =~= seq![DISPLAY_OFF]);
        let plan = as_commands(&bytes);
        self.emit(&plan)
    }

    /// The same as `display`.
    fn update(&mut self) -> (r: Result<(), BusError>)
        ensures
            delivered(
                old(self).sent(),
                final(self).sent(),
                flush_plan(old(self).frame_bytes(), old(self).snapshot_bytes()),
                r,
            ),
            owed(
                old(self).transport(),
                final(self).transport(),
                flush_plan(old(self).frame_bytes(), old(self).snapshot_bytes()),
                r,
            ),
            r is Ok ==> final(self).snapshot_bytes() == old(self).frame_bytes()
                && final(self).frame_bytes() == blank(FRAME_BYTES as int),
            r is Err ==> final(self).frame_bytes() == old(self).frame_bytes()
                && final(self).snapshot_bytes() == old(self).snapshot_bytes(),
            old(self).frame_bytes() == old(self).snapshot_bytes() ==> r is Ok
                && final(self).transport() == old(self).transport(),
            final(self).vcc() == old(self).vcc(),
    {
        self.display()
    }

    fn get_width(&self) -> (w: u16)
        ensures
            self.wf() ==> w == LCD_WIDTH,
    {
        self.lcd_width
    }

    fn get_height(&self) -> (h: u16)
        ensures
            self.wf() ==> h == LCD_HEIGHT,
    {
        self.lcd_height
    }

    fn get_def_text_color(&self) -> (color: u16)
        ensures
            color == WHITE,
    {
        WHITE
    }

    fn get_def_bg_color(&self) -> (color: u16)
        ensures
            color == BLACK,
    {
        BLACK
    }
}

} // verus!
