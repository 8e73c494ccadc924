//! The controller's command vocabulary and the addressing-window adapter.
//!
//! Everything that reaches the controller is either a command byte or a
//! data byte. Before data can be streamed the controller must be told which
//! rectangle of its memory the bytes go to: a column range and a page range,
//! each announced by an opcode followed by the first and the last value.

use vstd::prelude::*;

verus! {

/// Columns in one addressing row of the controller.
pub const PAGE_WIDTH: usize = 128;

/// Pages (bands of eight pixel rows) that the controller addresses.
pub const PAGE_COUNT: usize = 8;

/// Bytes of display memory that the controller addresses.
pub const CONTROLLER_RAM: usize = 1024;

/// Address of the controller on an I2C bus.
pub const I2C_ADDRESS: u16 = 0x3C;

/// Control byte that announces a command byte on an I2C bus.
pub const COMMAND_MODE: u8 = 0x00;

/// Control byte that announces a data byte on an I2C bus.
pub const DATA_MODE: u8 = 0x40;

pub const DISPLAY_OFF: u8 = 0xAE;

pub const DISPLAY_ON: u8 = 0xAF;

pub const NORMAL_DISPLAY: u8 = 0xA6;

pub const INVERSE_DISPLAY: u8 = 0xA7;

pub const SET_CONTRAST_LEVEL: u8 = 0x81;

pub const RESUME_TO_GDDRAM: u8 = 0xA4;

pub const SET_DISPLAY_OFFSET: u8 = 0xD3;

pub const SET_COM_PINS: u8 = 0xDA;

pub const SET_VCOM_DETECT: u8 = 0xDB;

pub const SET_DISPLAY_CLOCK_DIV: u8 = 0xD5;

pub const SET_PRECHARGE: u8 = 0xD9;

pub const SET_MULTIPLEX: u8 = 0xA8;

pub const SET_START_LINE: u8 = 0x40;

pub const SET_MEMORY_MODE: u8 = 0x20;

pub const MEMORY_MODE_HORIZONTAL: u8 = 0x00;

pub const COM_SCAN_DEC: u8 = 0xC8;

pub const SEG_REMAP_REVERSED: u8 = 0xA1;

pub const CHARGE_PUMP: u8 = 0x8D;

pub const SET_COLUMN_ADDRESS: u8 = 0x21;

pub const SET_PAGE_ADDRESS: u8 = 0x22;

pub const ACTIVATE_SCROLL: u8 = 0x2F;

pub const DEACTIVATE_SCROLL: u8 = 0x2E;

pub const SET_VERTICAL_SCROLL_AREA: u8 = 0xA3;

pub const RIGHT_HORIZONTAL_SCROLL: u8 = 0x26;

pub const LEFT_HORIZONTAL_SCROLL: u8 = 0x27;

pub const VERTICAL_AND_RIGHT_HORIZONTAL_SCROLL: u8 = 0x29;

pub const VERTICAL_AND_LEFT_HORIZONTAL_SCROLL: u8 = 0x2A;

/// One byte on its way to the controller, with the register it goes to.
#[derive(Clone, Copy, Debug, PartialEq, Eq, Structural)]
pub enum Transfer {
    /// A byte for the command register.
    Command(u8),
    /// A byte for the display memory.
    Data(u8),
}

impl Transfer {
    /// The control byte that goes before this transfer on an I2C bus.
    pub open spec fn spec_control_byte(self) -> u8 {
        match self {
            Transfer::Command(_) => COMMAND_MODE,
            Transfer::Data(_) => DATA_MODE,
        }
    }

    /// The byte that this transfer carries.
    pub open spec fn spec_payload(self) -> u8 {
        match self {
            Transfer::Command(byte) => byte,
            Transfer::Data(byte) => byte,
        }
    }

    /// The control byte that goes before this transfer on an I2C bus.
    #[verifier::when_used_as_spec(spec_control_byte)]
    pub fn control_byte(self) -> (control: u8)
        ensures
            control == self.spec_control_byte(),
    {
        match self {
            Transfer::Command(_) => COMMAND_MODE,
            Transfer::Data(_) => DATA_MODE,
        }
    }

    /// The byte that this transfer carries.
    #[verifier::when_used_as_spec(spec_payload)]
    pub fn payload(self) -> (byte: u8)
        ensures
            byte == self.spec_payload(),
    {
        match self {
            Transfer::Command(byte) => byte,
            Transfer::Data(byte) => byte,
        }
    }
}

/// A rectangle of display memory: first and last column, first and last
/// page, all inclusive.
#[derive(Clone, Copy, Debug, PartialEq, Eq, Structural)]
pub struct Window {
    pub start_column: u8,
    pub end_column: u8,
    pub start_page: u8,
    pub end_page: u8,
}

impl Window {
    /// Both ranges run forwards and stay inside the controller's memory.
    pub open spec fn well_formed(self) -> bool {
        &&& self.start_column <= self.end_column < PAGE_WIDTH
        &&& self.start_page <= self.end_page < PAGE_COUNT
    }

    /// Whether the byte at buffer index `index` lies in the window.
    pub open spec fn contains(self, index: int) -> bool {
        &&& self.start_column <= index % (PAGE_WIDTH as int) <= self.end_column
        &&& self.start_page <= index / (PAGE_WIDTH as int) <= self.end_page
    }

    /// The window that covers the whole of the controller's memory.
    pub open spec fn full() -> Window {
        Window { start_column: 0, end_column: 127, start_page: 0, end_page: 7 }
    }

    /// Executable form of `contains`.
    pub fn holds(&self, index: usize) -> (inside: bool)
        ensures
            inside == self.contains(index as int),
    {
        let column: usize = index % PAGE_WIDTH;
        let page: usize = index / PAGE_WIDTH;
        column >= self.start_column as usize && column <= self.end_column as usize && page
            >= self.start_page as usize && page <= self.end_page as usize
    }
}

/// The six command bytes that program `window`: the column opcode with the
/// first and last column, then the page opcode with the first and last page.
pub open spec fn window_commands(window: Window) -> Seq<Transfer> {
    seq![
        Transfer::Command(SET_COLUMN_ADDRESS),
        Transfer::Command(window.start_column),
        Transfer::Command(window.end_column),
        Transfer::Command(SET_PAGE_ADDRESS),
        Transfer::Command(window.start_page),
        Transfer::Command(window.end_page),
    ]
}

/// Appends the bytes that program `window` to `out`. The values are passed
/// on as given: a caller that wants the controller to accept them hands in
/// a well-formed window.
pub fn push_window_commands(out: &mut Vec<Transfer>, window: Window)
    ensures
        final(out)@ == old(out)@ + window_commands(window),
{
    out.push(Transfer::Command(SET_COLUMN_ADDRESS));
    out.push(Transfer::Command(window.start_column));
    out.push(Transfer::Command(window.end_column));
    out.push(Transfer::Command(SET_PAGE_ADDRESS));
    out.push(Transfer::Command(window.start_page));
    out.push(Transfer::Command(window.end_page));
    assert(out@ =~= old(out)@ + window_commands(window));
}

} // verus!
