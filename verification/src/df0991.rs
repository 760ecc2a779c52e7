//! Driver for the RGB-indicator/button peripheral on the two-wire bus.
//!
//! The device exposes a handful of byte registers: its own bus address, the
//! three color channels, the button signal, and a 16-bit part id. The state
//! machine that consumes the button samples lives in [`crate::debounce`];
//! this driver only performs the two operations it needs — reading the raw
//! button level and setting the indicator color — plus identification.

use vstd::prelude::*;

use crate::bus::BusError;
use crate::bus::I2cBus;

verus! {

/// Default bus address of the button (unless changed by its switch).
pub const RGBBUTTON_DEFAULT_I2C_ADDR: u8 = 0x2A;

/// Part id the device reports in its id registers.
pub const RGBBUTTON_PART_ID: u16 = 0x43DF;

/// Register holding the device's own bus address.
pub const RGBBUTTON_I2C_ADDR_REG: u8 = 0x00;

/// First of the three consecutive color registers (red, green, blue).
pub const RGBBUTTON_RED_REG: u8 = 0x01;

/// Register holding the raw button signal (non-zero when pressed).
pub const RGBBUTTON_BUTTON_SIGNAL_REG: u8 = 0x04;

/// High byte of the 16-bit part id (the low byte follows it).
pub const RGBBUTTON_PID_MSB_REG: u8 = 0x09;

/// Predefined indicator colors.
#[derive(Copy, Clone, PartialEq, Eq, Structural, Debug)]
pub enum GeneralRGBColor {
    Red,
    Orange,
    Yellow,
    Green,
    Cyan,
    Blue,
    Purple,
    White,
    Black,
}

/// The (red, green, blue) channel bytes of each predefined color.
pub open spec fn spec_color_rgb(color: GeneralRGBColor) -> (u8, u8, u8) {
    match color {
        GeneralRGBColor::Red => (0xFF, 0x00, 0x00),
        GeneralRGBColor::Orange => (0xFF, 0x7F, 0x00),
        GeneralRGBColor::Yellow => (0xFF, 0xFF, 0x00),
        GeneralRGBColor::Green => (0x00, 0xFF, 0x00),
        GeneralRGBColor::Cyan => (0x00, 0xFF, 0xFF),
        GeneralRGBColor::Blue => (0x00, 0x00, 0xFF),
        GeneralRGBColor::Purple => (0x8B, 0x00, 0xFF),
        GeneralRGBColor::White => (0xFF, 0xFF, 0xFF),
        GeneralRGBColor::Black => (0x00, 0x00, 0x00),
    }
}

/// Exec mirror of [`spec_color_rgb`].
pub fn color_rgb(color: GeneralRGBColor) -> (rgb: (u8, u8, u8))
    ensures
        rgb == spec_color_rgb(color),
{
    match color {
        GeneralRGBColor::Red => (0xFF, 0x00, 0x00),
        GeneralRGBColor::Orange => (0xFF, 0x7F, 0x00),
        GeneralRGBColor::Yellow => (0xFF, 0xFF, 0x00),
        GeneralRGBColor::Green => (0x00, 0xFF, 0x00),
        GeneralRGBColor::Cyan => (0x00, 0xFF, 0xFF),
        GeneralRGBColor::Blue => (0x00, 0x00, 0xFF),
        GeneralRGBColor::Purple => (0x8B, 0x00, 0xFF),
        GeneralRGBColor::White => (0xFF, 0xFF, 0xFF),
        GeneralRGBColor::Black => (0x00, 0x00, 0x00),
    }
}

/// The 16-bit word carried big-endian in two register bytes.
pub open spec fn spec_u16_from_be_bytes(hi: u8, lo: u8) -> u16 {
    (hi * 0x100 + lo) as u16
}

/// Exec mirror of [`spec_u16_from_be_bytes`].
pub fn u16_from_be_bytes(hi: u8, lo: u8) -> (word: u16)
    ensures
        word == spec_u16_from_be_bytes(hi, lo),
{
    (hi as u16) * 0x100 + (lo as u16)
}

/// Whether a part id read back from the device is the documented one.
pub fn is_expected_part_id(pid: u16) -> (matches_id: bool)
    ensures
        matches_id == (pid == RGBBUTTON_PART_ID),
{
    pid == RGBBUTTON_PART_ID
}

/// How a raw button-signal byte is read: any non-zero level counts as
/// pressed.
pub fn button_pressed_from_raw(raw: u8) -> (pressed: bool)
    ensures
        pressed == (raw != 0),
{
    raw != 0
}

/// The bytes of a register-select-plus-payload write transaction: exactly
/// the register offset followed by the payload bytes, in order. Every buffer
/// the driver hands to the transport's write operation is built here, so the
/// contract fixes the traffic bit-for-bit.
pub fn build_register_payload(reg: u8, data: &Vec<u8>) -> (payload: Vec<u8>)
    ensures
        payload@ == seq![reg] + data@,
{
    let mut payload: Vec<u8> = Vec::new();
    payload.push(reg);
    let mut i: usize = 0;
    while i < data.len()
        invariant
            i <= data@.len(),
            payload@ == seq![reg] + data@.subrange(0, i as int),
        decreases data@.len() - i,
    {
        payload.push(data[i]);
        i = i + 1;
        proof {
            assert(payload@ =~= seq![reg] + data@.subrange(0, i as int));
        }
    }
    proof {
        assert(data@.subrange(0, data@.len() as int) =~= data@);
    }
    payload
}

/// The payload of a color write: exactly the three channel bytes in the
/// hardware's register order (red, green, blue).
pub fn color_channel_bytes(r: u8, g: u8, b: u8) -> (data: Vec<u8>)
    ensures
        data@ == seq![r, g, b],
{
    let mut data: Vec<u8> = Vec::new();
    data.push(r);
    data.push(g);
    data.push(b);
    proof {
        assert(data@ =~= seq![r, g, b]);
    }
    data
}

/// Driver for one RGB button on a bus transport.
pub struct DFRobotRGBButton<T> {
    /// The owned bus transport.
    pub i2c: T,
    /// Bus address of the device.
    pub addr: u8,
}

impl<T: I2cBus> DFRobotRGBButton<T> {
    /// Build a driver over `i2c` for the device at `addr`. Never fails.
    pub fn new(i2c: T, addr: u8) -> (button: Result<DFRobotRGBButton<T>, BusError>)
        ensures
            button is Ok,
            button matches Ok(b) ==> b.i2c == i2c && b.addr == addr,
    {
        Ok(DFRobotRGBButton { i2c, addr })
    }

    /// Release the underlying bus transport back to the caller.
    pub fn into_inner(self) -> (i2c: T)
        ensures
            i2c == self.i2c,
    {
        self.i2c
    }

    /// Probe for the device: read the part id and compare it against the
    /// documented one ([`is_expected_part_id`] is the comparison applied to
    /// whatever the transport returned).
    pub fn begin(&mut self) -> (detected: Result<bool, BusError>)
        ensures
            final(self).addr == old(self).addr,
    {
        match self.read_u16(RGBBUTTON_PID_MSB_REG) {
            Ok(pid) => Ok(is_expected_part_id(pid)),
            Err(e) => Err(e),
        }
    }

    /// Set the indicator to a predefined color: the channel triple is fixed
    /// exactly by [`color_rgb`]'s contract and forwarded unchanged to
    /// [`Self::set_rgb_color`].
    pub fn set_rgb_color_enum(&mut self, color: GeneralRGBColor) -> (done: Result<(), BusError>)
        ensures
            final(self).addr == old(self).addr,
    {
        let (r, g, b) = color_rgb(color);
        self.set_rgb_color(r, g, b)
    }

    /// Write the three color channels in one transaction starting at the red
    /// register. The bytes handed to the transport are exactly
    /// `[RGBBUTTON_RED_REG, r, g, b]`: the payload is fixed by
    /// [`color_channel_bytes`]'s contract and the transaction buffer by
    /// [`build_register_payload`]'s, with nothing between them and the
    /// transport's write.
    pub fn set_rgb_color(&mut self, r: u8, g: u8, b: u8) -> (done: Result<(), BusError>)
        ensures
            final(self).addr == old(self).addr,
    {
        let data = color_channel_bytes(r, g, b);
        assert(seq![RGBBUTTON_RED_REG] + data@ =~= seq![RGBBUTTON_RED_REG, r, g, b]);
        self.write_bytes(RGBBUTTON_RED_REG, &data)
    }

    /// Read the raw button signal; pressed exactly when the level read back
    /// is non-zero ([`button_pressed_from_raw`] applied to whatever the
    /// transport returned).
    pub fn get_button_status(&mut self) -> (pressed: Result<bool, BusError>)
        ensures
            final(self).addr == old(self).addr,
    {
        match self.read_u8(RGBBUTTON_BUTTON_SIGNAL_REG) {
            Ok(raw) => Ok(button_pressed_from_raw(raw)),
            Err(e) => Err(e),
        }
    }

    /// Read the bus address the device itself reports.
    pub fn get_i2c_addr(&mut self) -> (addr: Result<u8, BusError>)
        ensures
            final(self).addr == old(self).addr,
    {
        self.read_u8(RGBBUTTON_I2C_ADDR_REG)
    }

    /// Read the 16-bit part id.
    pub fn get_pid(&mut self) -> (pid: Result<u16, BusError>)
        ensures
            final(self).addr == old(self).addr,
    {
        self.read_u16(RGBBUTTON_PID_MSB_REG)
    }

    /// Register-select-plus-payload write, in one transaction. The buffer
    /// handed to the transport is exactly `[reg]` followed by `data`, as
    /// [`build_register_payload`]'s contract states.
    fn write_bytes(&mut self, reg: u8, data: &Vec<u8>) -> (done: Result<(), BusError>)
        ensures
            final(self).addr == old(self).addr,
    {
        let payload = build_register_payload(reg, data);
        self.i2c.bus_write(self.addr, &payload)
    }

    /// Combined write-then-read of one byte register.
    fn read_u8(&mut self, reg: u8) -> (value: Result<u8, BusError>)
        ensures
            final(self).addr == old(self).addr,
    {
        self.i2c.bus_write_read1(self.addr, reg)
    }

    /// Combined write-then-read of a big-endian 16-bit register pair.
    fn read_u16(&mut self, reg: u8) -> (value: Result<u16, BusError>)
        ensures
            final(self).addr == old(self).addr,
    {
        match self.i2c.bus_write_read2(self.addr, reg) {
            Ok((hi, lo)) => Ok(u16_from_be_bytes(hi, lo)),
            Err(e) => Err(e),
        }
    }
}

} // verus!
