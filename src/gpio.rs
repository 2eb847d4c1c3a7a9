//! General-purpose mode: the four serial lines used as a parallel port, each
//! line an input or an output. These types decode and encode the fields of
//! RCNT that this mode uses.

use vstd::prelude::*;

use crate::utils::{bit_of_u8, read_bit_u8, with_bit_u8, write_bit_u8};

verus! {

/// Whether a line is an input or an output.
#[derive(Clone, Copy, PartialEq, Eq, Structural, Hash, Debug)]
pub enum GpioDirection {
    Input,
    Output,
}

impl Default for GpioDirection {
    /// A line is an input by default.
    fn default() -> (r: GpioDirection)
        ensures
            r == GpioDirection::Input,
    {
        GpioDirection::Input
    }
}

/// The direction that a set "is output" bit stands for.
pub open spec fn direction_of(is_output: bool) -> GpioDirection {
    if is_output {
        GpioDirection::Output
    } else {
        GpioDirection::Input
    }
}

impl GpioDirection {
    /// `Output` when `is_output`, else `Input`.
    pub fn from_is_output(is_output: bool) -> (r: Self)
        ensures
            r == direction_of(is_output),
    {
        if is_output {
            GpioDirection::Output
        } else {
            GpioDirection::Input
        }
    }

    /// Whether this is `Output`.
    pub fn is_output(&self) -> (r: bool)
        ensures
            r == (*self is Output),
    {
        matches!(self, GpioDirection::Output)
    }

    /// Whether this is `Input`.
    pub fn is_input(&self) -> (r: bool)
        ensures
            r == (*self is Input),
    {
        !self.is_output()
    }
}

/// The directions of the four lines: bits 4 (SC), 5 (SD), 6 (SI) and 7 (SO)
/// of RCNT, each set for an output.
#[derive(Clone, Copy, PartialEq, Eq, Structural, Hash, Debug)]
pub struct GpioConfig {
    value: u8,
}

impl View for GpioConfig {
    type V = u8;

    closed spec fn view(&self) -> u8 {
        self.value
    }
}

impl Default for GpioConfig {
    /// Every line an input.
    fn default() -> (r: GpioConfig)
        ensures
            r@ == 0,
    {
        GpioConfig { value: 0 }
    }
}

impl GpioConfig {
    /// The RCNT bits that hold the directions.
    pub const MASK: u16 = 0xF0;

    /// Direction of the SC line.
    pub fn sc(&self) -> (r: GpioDirection)
        ensures
            r == direction_of(bit_of_u8(self@, 4)),
    {
        GpioDirection::from_is_output(read_bit_u8(self.value, 4))
    }

    /// This configuration with the SC line set to `dir`.
    pub fn with_sc(self, dir: GpioDirection) -> (r: Self)
        ensures
            r@ == with_bit_u8(self@, 4, dir is Output),
    {
        let value = write_bit_u8(self.value, 4, dir.is_output());
        Self { value }
    }

    /// Direction of the SD line.
    pub fn sd(&self) -> (r: GpioDirection)
        ensures
            r == direction_of(bit_of_u8(self@, 5)),
    {
        GpioDirection::from_is_output(read_bit_u8(self.value, 5))
    }

    /// This configuration with the SD line set to `dir`.
    pub fn with_sd(self, dir: GpioDirection) -> (r: Self)
        ensures
            r@ == with_bit_u8(self@, 5, dir is Output),
    {
        let value = write_bit_u8(self.value, 5, dir.is_output());
        Self { value }
    }

    /// Direction of the SI line.
    pub fn si(&self) -> (r: GpioDirection)
        ensures
            r == direction_of(bit_of_u8(self@, 6)),
    {
        GpioDirection::from_is_output(read_bit_u8(self.value, 6))
    }

    /// This configuration with the SI line set to `dir`.
    pub fn with_si(self, dir: GpioDirection) -> (r: Self)
        ensures
            r@ == with_bit_u8(self@, 6, dir is Output),
    {
        let value = write_bit_u8(self.value, 6, dir.is_output());
        Self { value }
    }

    /// Direction of the SO line.
    pub fn so(&self) -> (r: GpioDirection)
        ensures
            r == direction_of(bit_of_u8(self@, 7)),
    {
        GpioDirection::from_is_output(read_bit_u8(self.value, 7))
    }

    /// This configuration with the SO line set to `dir`.
    pub fn with_so(self, dir: GpioDirection) -> (r: Self)
        ensures
            r@ == with_bit_u8(self@, 7, dir is Output),
    {
        let value = write_bit_u8(self.value, 7, dir.is_output());
        Self { value }
    }

    /// The directions held in an RCNT word.
    pub fn from_rcnt(value: u16) -> (r: Self)
        ensures
            r@ == (value & 0xF0u16) as u8,
    {
        let masked = value & Self::MASK;
        assert(masked < 256) by (bit_vector)
            requires
                masked == value & 0xF0u16,
        ;
        Self { value: masked as u8 }
    }

    /// The directions as RCNT bits.
    pub fn into_rcnt(self) -> (r: u16)
        ensures
            r == self@ as u16,
    {
        self.value as u16
    }
}

/// The levels of the four lines: bits 0 (SC), 1 (SD), 2 (SI) and 3 (SO) of
/// RCNT, each set for high.
#[derive(Clone, Copy, PartialEq, Eq, Structural, Hash, Debug)]
pub struct PinState {
    state: u8,
}

impl View for PinState {
    type V = u8;

    closed spec fn view(&self) -> u8 {
        self.state
    }
}

impl Default for PinState {
    /// Every line low.
    fn default() -> (r: PinState)
        ensures
            r@ == 0,
    {
        PinState { state: 0 }
    }
}

impl PinState {
    /// The RCNT bits that hold the levels.
    pub const MASK: u16 = 0xF;

    /// The levels held in an RCNT word.
    pub fn from_rcnt(rcnt: u16) -> (r: Self)
        ensures
            r@ == (rcnt & 0xFu16) as u8,
    {
        let masked = rcnt & Self::MASK;
        assert(masked < 256) by (bit_vector)
            requires
                masked == rcnt & 0xFu16,
        ;
        Self { state: masked as u8 }
    }

    /// The levels as RCNT bits.
    pub fn into_rcnt(self) -> (r: u16)
        ensures
            r == self@ as u16,
    {
        self.state as u16
    }

    /// Level of the SC line.
    pub fn sc(&self) -> (r: bool)
        ensures
            r == bit_of_u8(self@, 0),
    {
        read_bit_u8(self.state, 0)
    }

    /// Sets the level of the SC line.
    pub fn set_sc(&mut self, value: bool)
        ensures
            final(self)@ == with_bit_u8(old(self)@, 0, value),
    {
        self.state = write_bit_u8(self.state, 0, value);
    }

    /// These levels with the SC line set to `value`.
    pub fn with_sc(self, value: bool) -> (r: Self)
        ensures
            r@ == with_bit_u8(self@, 0, value),
    {
        let mut r = self;
        r.set_sc(value);
        r
    }

    /// Level of the SD line.
    pub fn sd(&self) -> (r: bool)
        ensures
            r == bit_of_u8(self@, 1),
    {
        read_bit_u8(self.state, 1)
    }

    /// Sets the level of the SD line.
    pub fn set_sd(&mut self, value: bool)
        ensures
            final(self)@ == with_bit_u8(old(self)@, 1, value),
    {
        self.state = write_bit_u8(self.state, 1, value);
    }

    /// These levels with the SD line set to `value`.
    pub fn with_sd(self, value: bool) -> (r: Self)
        ensures
            r@ == with_bit_u8(self@, 1, value),
    {
        let mut r = self;
        r.set_sd(value);
        r
    }

    /// Level of the SI line.
    pub fn si(&self) -> (r: bool)
        ensures
            r == bit_of_u8(self@, 2),
    {
        read_bit_u8(self.state, 2)
    }

    /// Sets the level of the SI line.
    pub fn set_si(&mut self, value: bool)
        ensures
            final(self)@ == with_bit_u8(old(self)@, 2, value),
    {
        self.state = write_bit_u8(self.state, 2, value);
    }

    /// These levels with the SI line set to `value`.
    pub fn with_si(self, value: bool) -> (r: Self)
        ensures
            r@ == with_bit_u8(self@, 2, value),
    {
        let mut r = self;
        r.set_si(value);
        r
    }

    /// Level of the SO line.
    pub fn so(&self) -> (r: bool)
        ensures
            r == bit_of_u8(self@, 3),
    {
        read_bit_u8(self.state, 3)
    }

    /// Sets the level of the SO line.
    pub fn set_so(&mut self, value: bool)
        ensures
            final(self)@ == with_bit_u8(old(self)@, 3, value),
    {
        self.state = write_bit_u8(self.state, 3, value);
    }

    /// These levels with the SO line set to `value`.
    pub fn with_so(self, value: bool) -> (r: Self)
        ensures
            r@ == with_bit_u8(self@, 3, value),
    {
        let mut r = self;
        r.set_so(value);
        r
    }
}

/// The low byte of RCNT in general-purpose mode: levels and directions.
pub struct GpioState {
    value: u8,
}

impl View for GpioState {
    type V = u8;

    closed spec fn view(&self) -> u8 {
        self.value
    }
}

impl GpioState {
    /// The levels of the four lines.
    pub fn pins(&self) -> (r: PinState)
        ensures
            r@ == (self@ as u16 & 0xFu16) as u8,
    {
        PinState::from_rcnt(self.value as u16)
    }

    /// The directions of the four lines.
    pub fn config(&self) -> (r: GpioConfig)
        ensures
            r@ == (self@ as u16 & 0xF0u16) as u8,
    {
        GpioConfig::from_rcnt(self.value as u16)
    }

    /// The state held in an RCNT word.
    pub fn from_rcnt(rcnt: u16) -> (r: Self)
        ensures
            r@ == (rcnt & 0xFFu16) as u8,
    {
        let masked = rcnt & 0xFFu16;
        assert(masked < 256) by (bit_vector)
            requires
                masked == rcnt & 0xFFu16,
        ;
        Self { value: masked as u8 }
    }

    /// The state as RCNT bits.
    pub fn into_rcnt(self) -> (r: u16)
        ensures
            r == self@ as u16,
    {
        self.value as u16
    }
}

} // verus!
