//! The serial port's control registers, held as values: reading a field
//! decodes bits of the word, changing a field computes the new word. The word
//! itself is read from and written to the hardware by the caller.

use vstd::prelude::*;

use crate::utils::{bit_of_u16, read_bit, with_bit_u16, write_bit};

verus! {

/// Exclusive handle to the serial port; the modes borrow it for as long as
/// they are active.
pub struct Serial {
    _private: (),
}

impl Serial {
    /// The handle to the serial port.
    pub fn new() -> (r: Self) {
        Serial { _private: () }
    }
}

/// The four lines of the serial port.
#[derive(PartialEq, Eq, Structural, Hash, Debug, PartialOrd, Ord, Clone, Copy)]
pub enum Pin {
    SC,
    SD,
    SI,
    SO,
}

impl Pin {
    /// The bit of this line in the general-purpose data field of RCNT.
    pub fn bit(&self) -> (r: u8)
        ensures
            r == pin_bit(*self),
    {
        match self {
            Pin::SC => 0,
            Pin::SD => 1,
            Pin::SI => 2,
            Pin::SO => 3,
        }
    }
}

/// The bit of a line in the general-purpose data field of RCNT.
pub open spec fn pin_bit(p: Pin) -> u8 {
    match p {
        Pin::SC => 0,
        Pin::SD => 1,
        Pin::SI => 2,
        Pin::SO => 3,
    }
}

/// How fast data is transferred in multiplayer mode, in bits per second.
#[derive(PartialEq, Eq, Structural, PartialOrd, Ord, Hash, Clone, Copy, Debug)]
pub enum BaudRate {
    B9600,
    B38400,
    B57600,
    B115200,
}

/// The bits per second of a rate.
pub open spec fn baud_of(rate: BaudRate) -> u32 {
    match rate {
        BaudRate::B9600 => 9600,
        BaudRate::B38400 => 38400,
        BaudRate::B57600 => 57600,
        BaudRate::B115200 => 115200,
    }
}

/// The two-bit code of a rate in the serial-control register.
pub open spec fn rate_bits(rate: BaudRate) -> u16 {
    match rate {
        BaudRate::B9600 => 0,
        BaudRate::B38400 => 1,
        BaudRate::B57600 => 2,
        BaudRate::B115200 => 3,
    }
}

/// The rate whose two-bit code is `bits`, if there is one.
pub open spec fn rate_of_bits(bits: u16) -> Option<BaudRate> {
    if bits == 0 {
        Some(BaudRate::B9600)
    } else if bits == 1 {
        Some(BaudRate::B38400)
    } else if bits == 2 {
        Some(BaudRate::B57600)
    } else if bits == 3 {
        Some(BaudRate::B115200)
    } else {
        None
    }
}

impl BaudRate {
    /// How many bits can be transferred in a second.
    pub fn baud(self) -> (r: u32)
        ensures
            r == baud_of(self),
    {
        match self {
            BaudRate::B9600 => 9600,
            BaudRate::B38400 => 38400,
            BaudRate::B57600 => 57600,
            BaudRate::B115200 => 115200,
        }
    }

    /// How many 16-bit words can be transferred in a second.
    pub fn words_per_second(self) -> (r: u16)
        ensures
            r == baud_of(self) / 16,
    {
        (self.baud() / 16) as u16
    }

    /// How many 16-bit words can be transferred in a frame (a sixtieth of a
    /// second).
    pub fn words_per_frame(self) -> (r: u16)
        ensures
            r == baud_of(self) / 16 / 60,
    {
        self.words_per_second() / 60
    }

    /// The two-bit code of this rate.
    pub fn bits(self) -> (r: u16)
        ensures
            r == rate_bits(self),
            r < 4,
    {
        match self {
            BaudRate::B9600 => 0,
            BaudRate::B38400 => 1,
            BaudRate::B57600 => 2,
            BaudRate::B115200 => 3,
        }
    }

    /// The rate whose two-bit code is `bits`; `None` for any other pattern.
    pub fn from_bits(bits: u16) -> (r: Option<BaudRate>)
        ensures
            r == rate_of_bits(bits),
    {
        if bits == 0 {
            Some(BaudRate::B9600)
        } else if bits == 1 {
            Some(BaudRate::B38400)
        } else if bits == 2 {
            Some(BaudRate::B57600)
        } else if bits == 3 {
            Some(BaudRate::B115200)
        } else {
            None
        }
    }
}

impl Default for BaudRate {
    /// The slowest rate.
    fn default() -> (r: BaudRate)
        ensures
            r == BaudRate::B9600,
    {
        BaudRate::B9600
    }
}

/// The modes of the serial port.
#[derive(Clone, Copy, Eq, PartialEq, Structural, Hash, Debug)]
pub enum SerialMode {
    Normal,
    Multiplayer,
    Uart,
    Joybus,
    Gpio,
}

/// A 16-bit register's contents.
pub struct RegisterWrapper {
    value: u16,
}

impl View for RegisterWrapper {
    type V = u16;

    closed spec fn view(&self) -> u16 {
        self.value
    }
}

impl RegisterWrapper {
    /// A register holding `value`.
    pub fn new(value: u16) -> (r: Self)
        ensures
            r@ == value,
    {
        RegisterWrapper { value }
    }

    /// The whole word.
    pub fn read(&self) -> (r: u16)
        ensures
            r == self@,
    {
        self.value
    }

    /// Replaces the whole word.
    pub fn write(&mut self, n: u16)
        ensures
            final(self)@ == n,
    {
        self.value = n;
    }

    /// Bit `n` of the word.
    pub fn read_bit(&self, n: u8) -> (r: bool)
        requires
            n < 16,
        ensures
            r == bit_of_u16(self@, n),
    {
        read_bit(self.value, n)
    }

    /// Sets bit `n` of the word to `value`, keeping the others.
    pub fn write_bit(&mut self, n: u8, value: bool)
        requires
            n < 16,
        ensures
            final(self)@ == with_bit_u16(old(self)@, n, value),
    {
        self.value = write_bit(self.value, n, value);
    }
}

/// The RCNT bit pair (14, 15) that `set_mode` writes for a mode.
pub open spec fn rcnt_mode_bits(mode: SerialMode) -> (bool, bool) {
    match mode {
        SerialMode::Joybus => (true, true),
        SerialMode::Gpio => (false, true),
        _ => (false, false),
    }
}

/// The mode that RCNT's bits 14 and 15 select, if it is one RCNT decides
/// alone (otherwise SIOCNT decides).
pub open spec fn rcnt_mode_of(v: u16) -> Option<SerialMode> {
    if !bit_of_u16(v, 15) {
        None
    } else if bit_of_u16(v, 14) {
        Some(SerialMode::Joybus)
    } else {
        Some(SerialMode::Gpio)
    }
}

/// The contents of RCNT, the register that selects the port's mode family
/// and holds the general-purpose lines.
pub struct RcntWrapper {
    reg: RegisterWrapper,
}

impl View for RcntWrapper {
    type V = u16;

    closed spec fn view(&self) -> u16 {
        self.reg@
    }
}

impl RcntWrapper {
    /// RCNT holding `value`.
    pub fn new(value: u16) -> (r: Self)
        ensures
            r@ == value,
    {
        RcntWrapper { reg: RegisterWrapper::new(value) }
    }

    /// The whole word.
    pub fn get(&self) -> (r: u16)
        ensures
            r == self@,
    {
        self.reg.read()
    }

    /// Data bit of the SC line.
    pub fn sc_data(&self) -> (r: bool)
        ensures
            r == bit_of_u16(self@, 0),
    {
        self.reg.read_bit(0)
    }

    /// Sets the data bit of the SC line.
    pub fn write_sc_data(&mut self, value: bool)
        ensures
            final(self)@ == with_bit_u16(old(self)@, 0, value),
    {
        self.reg.write_bit(0, value)
    }

    /// Data bit of the SD line.
    pub fn sd_data(&self) -> (r: bool)
        ensures
            r == bit_of_u16(self@, 1),
    {
        self.reg.read_bit(1)
    }

    /// Sets the data bit of the SD line.
    pub fn write_sd_data(&mut self, value: bool)
        ensures
            final(self)@ == with_bit_u16(old(self)@, 1, value),
    {
        self.reg.write_bit(1, value)
    }

    /// Data bit of the SI line.
    pub fn si_data(&self) -> (r: bool)
        ensures
            r == bit_of_u16(self@, 2),
    {
        self.reg.read_bit(2)
    }

    /// Sets the data bit of the SI line.
    pub fn write_si_data(&mut self, value: bool)
        ensures
            final(self)@ == with_bit_u16(old(self)@, 2, value),
    {
        self.reg.write_bit(2, value)
    }

    /// Data bit of the SO line.
    pub fn so_data(&self) -> (r: bool)
        ensures
            r == bit_of_u16(self@, 3),
    {
        self.reg.read_bit(3)
    }

    /// Sets the data bit of the SO line.
    pub fn write_so_data(&mut self, value: bool)
        ensures
            final(self)@ == with_bit_u16(old(self)@, 3, value),
    {
        self.reg.write_bit(3, value)
    }

    /// Whether the SC line is an output.
    pub fn sc_is_output(&self) -> (r: bool)
        ensures
            r == bit_of_u16(self@, 4),
    {
        self.reg.read_bit(4)
    }

    /// Sets whether the SC line is an output.
    pub fn set_sc_direction(&mut self, is_output: bool)
        ensures
            final(self)@ == with_bit_u16(old(self)@, 4, is_output),
    {
        self.reg.write_bit(4, is_output)
    }

    /// Whether the SD line is an output.
    pub fn sd_is_output(&self) -> (r: bool)
        ensures
            r == bit_of_u16(self@, 5),
    {
        self.reg.read_bit(5)
    }

    /// Sets whether the SD line is an output.
    pub fn set_sd_direction(&mut self, is_output: bool)
        ensures
            final(self)@ == with_bit_u16(old(self)@, 5, is_output),
    {
        self.reg.write_bit(5, is_output)
    }

    /// Whether the SI line is an output.
    pub fn si_is_output(&self) -> (r: bool)
        ensures
            r == bit_of_u16(self@, 6),
    {
        self.reg.read_bit(6)
    }

    /// Sets whether the SI line is an output.
    pub fn set_si_direction(&mut self, is_output: bool)
        ensures
            final(self)@ == with_bit_u16(old(self)@, 6, is_output),
    {
        self.reg.write_bit(6, is_output)
    }

    /// Whether the SO line is an output.
    pub fn so_is_output(&self) -> (r: bool)
        ensures
            r == bit_of_u16(self@, 7),
    {
        self.reg.read_bit(7)
    }

    /// Sets whether the SO line is an output.
    pub fn set_so_direction(&mut self, is_output: bool)
        ensures
            final(self)@ == with_bit_u16(old(self)@, 7, is_output),
    {
        self.reg.write_bit(7, is_output)
    }

    /// Whether each of SC, SD, SI and SO is an output.
    pub fn serial_line_directions(&self) -> (r: (bool, bool, bool, bool))
        ensures
            r == (bit_of_u16(self@, 4), bit_of_u16(self@, 5), bit_of_u16(self@, 6), bit_of_u16(
                self@,
                7,
            )),
    {
        let value = self.reg.read();
        let masked = value & (0xFu16 << 4u16);
        let sc = masked & (1u16 << 4u16) != 0;
        let sd = masked & (1u16 << 5u16) != 0;
        let si = masked & (1u16 << 6u16) != 0;
        let so = masked & (1u16 << 7u16) != 0;
        assert(sc == bit_of_u16(value, 4) && sd == bit_of_u16(value, 5) && si == bit_of_u16(
            value,
            6,
        ) && so == bit_of_u16(value, 7)) by (bit_vector)
            requires
                masked == value & (0xFu16 << 4u16),
                sc == (masked & (1u16 << 4u16) != 0),
                sd == (masked & (1u16 << 5u16) != 0),
                si == (masked & (1u16 << 6u16) != 0),
                so == (masked & (1u16 << 7u16) != 0),
        ;
        (sc, sd, si, so)
    }

    /// Sets the directions of SC, SD, SI and SO at once, keeping the other
    /// bits.
    pub fn write_directions(
        &mut self,
        sc_output: bool,
        sd_output: bool,
        si_output: bool,
        so_output: bool,
    )
        ensures
            final(self)@ == with_bit_u16(
                with_bit_u16(
                    with_bit_u16(with_bit_u16(old(self)@, 4, sc_output), 5, sd_output),
                    6,
                    si_output,
                ),
                7,
                so_output,
            ),
    {
        let old_value = self.reg.read();
        let masked = old_value & !(0xFu16 << 4u16);
        let sc: u16 = if sc_output {
            1
        } else {
            0
        };
        let sd: u16 = if sd_output {
            1
        } else {
            0
        };
        let si: u16 = if si_output {
            1
        } else {
            0
        };
        let so: u16 = if so_output {
            1
        } else {
            0
        };
        let dirmask = (sc << 4u16) | (sd << 5u16) | (si << 6u16) | (so << 7u16);
        let new_value = masked | dirmask;
        assert(new_value == with_bit_u16(
            with_bit_u16(
                with_bit_u16(with_bit_u16(old_value, 4, sc_output), 5, sd_output),
                6,
                si_output,
            ),
            7,
            so_output,
        )) by (bit_vector)
            requires
                masked == old_value & !(0xFu16 << 4u16),
                sc == (if sc_output { 1u16 } else { 0u16 }),
                sd == (if sd_output { 1u16 } else { 0u16 }),
                si == (if si_output { 1u16 } else { 0u16 }),
                so == (if so_output { 1u16 } else { 0u16 }),
                dirmask == (sc << 4u16) | (sd << 5u16) | (si << 6u16) | (so << 7u16),
                new_value == masked | dirmask,
        ;
        self.reg.write(new_value);
    }

    /// Whether the SI interrupt is enabled.
    pub fn si_interrupt_enabled(&self) -> (r: bool)
        ensures
            r == bit_of_u16(self@, 8),
    {
        self.reg.read_bit(8)
    }

    /// Enables or disables the SI interrupt.
    pub fn enable_si_interrupt(&mut self, enable: bool)
        ensures
            final(self)@ == with_bit_u16(old(self)@, 8, enable),
    {
        self.reg.write_bit(8, enable)
    }

    /// Selects the mode family: Joybus and general-purpose are selected here
    /// alone; any other mode clears both bits and leaves the choice to
    /// SIOCNT.
    pub fn set_mode(&mut self, mode: SerialMode)
        ensures
            final(self)@ == with_bit_u16(
                with_bit_u16(old(self)@, 14, rcnt_mode_bits(mode).0),
                15,
                rcnt_mode_bits(mode).1,
            ),
            rcnt_mode_of(final(self)@) == (match mode {
                SerialMode::Joybus => Some(SerialMode::Joybus),
                SerialMode::Gpio => Some(SerialMode::Gpio),
                _ => None,
            }),
    {
        let (fourteen, fifteen) = match mode {
            SerialMode::Joybus => (true, true),
            SerialMode::Gpio => (false, true),
            _ => (false, false),
        };
        let before = self.reg.read();
        self.reg.write_bit(14, fourteen);
        let mid = self.reg.read();
        self.reg.write_bit(15, fifteen);
        let after = self.reg.read();
        assert(bit_of_u16(after, 15) == fifteen && bit_of_u16(after, 14) == fourteen) by (bit_vector)
            requires
                mid == with_bit_u16(before, 14, fourteen),
                after == with_bit_u16(mid, 15, fifteen),
        ;
    }

    /// The mode that RCNT selects alone, if any.
    pub fn mode(&self) -> (r: Option<SerialMode>)
        ensures
            r == rcnt_mode_of(self@),
    {
        let final_bit = self.reg.read_bit(15);
        let second_last = self.reg.read_bit(14);
        match (second_last, final_bit) {
            (_, false) => None,
            (true, true) => Some(SerialMode::Joybus),
            (false, true) => Some(SerialMode::Gpio),
        }
    }
}

/// The mode that SIOCNT's bits 12 and 13 select.
pub open spec fn siocnt_mode_of(v: u16) -> SerialMode {
    if !bit_of_u16(v, 13) {
        SerialMode::Normal
    } else if bit_of_u16(v, 12) {
        SerialMode::Uart
    } else {
        SerialMode::Multiplayer
    }
}

/// The contents of SIOCNT, the serial-control register.
pub struct SiocntWrapper {
    reg: RegisterWrapper,
}

impl View for SiocntWrapper {
    type V = u16;

    closed spec fn view(&self) -> u16 {
        self.reg@
    }
}

impl SiocntWrapper {
    /// SIOCNT holding `value`.
    pub fn new(value: u16) -> (r: Self)
        ensures
            r@ == value,
    {
        SiocntWrapper { reg: RegisterWrapper::new(value) }
    }

    /// The whole word.
    pub fn get(&self) -> (r: u16)
        ensures
            r == self@,
    {
        self.reg.read()
    }

    /// Bit `n` of the word.
    pub fn read_bit(&self, n: u8) -> (r: bool)
        requires
            n < 16,
        ensures
            r == bit_of_u16(self@, n),
    {
        self.reg.read_bit(n)
    }

    /// Sets bit `n` of the word to `value`, keeping the others.
    pub fn write_bit(&mut self, n: u8, value: bool)
        requires
            n < 16,
        ensures
            final(self)@ == with_bit_u16(old(self)@, n, value),
    {
        self.reg.write_bit(n, value)
    }

    /// Replaces the whole word.
    pub fn write(&mut self, n: u16)
        ensures
            final(self)@ == n,
    {
        self.reg.write(n)
    }

    /// The mode that bits 12 and 13 select.
    pub fn mode(&self) -> (r: SerialMode)
        ensures
            r == siocnt_mode_of(self@),
    {
        let value = self.reg.read();
        if !read_bit(value, 13) {
            SerialMode::Normal
        } else if read_bit(value, 12) {
            SerialMode::Uart
        } else {
            SerialMode::Multiplayer
        }
    }

    /// Selects normal, multiplayer or UART mode; other modes are selected in
    /// RCNT and leave the word unchanged.
    pub fn set_mode(&mut self, mode: SerialMode)
        ensures
            final(self)@ == match mode {
                SerialMode::Normal => with_bit_u16(old(self)@, 13, false),
                SerialMode::Multiplayer => with_bit_u16(
                    with_bit_u16(old(self)@, 12, false),
                    13,
                    true,
                ),
                SerialMode::Uart => with_bit_u16(with_bit_u16(old(self)@, 12, true), 13, true),
                _ => old(self)@,
            },
            mode is Normal || mode is Multiplayer || mode is Uart ==> siocnt_mode_of(final(self)@)
                == mode,
    {
        let prev = self.reg.read();
        let next = match mode {
            SerialMode::Normal => write_bit(prev, 13, false),
            SerialMode::Multiplayer => write_bit(write_bit(prev, 12, false), 13, true),
            SerialMode::Uart => write_bit(write_bit(prev, 12, true), 13, true),
            _ => prev,
        };
        self.reg.write(next);
    }

    /// Whether the completion interrupt is enabled.
    pub fn irq_enabled(&self) -> (r: bool)
        ensures
            r == bit_of_u16(self@, 14),
    {
        self.reg.read_bit(14)
    }

    /// Enables or disables the completion interrupt.
    pub fn enable_irq(&mut self, v: bool)
        ensures
            final(self)@ == with_bit_u16(old(self)@, 14, v),
    {
        self.reg.write_bit(14, v)
    }
}

} // verus!
