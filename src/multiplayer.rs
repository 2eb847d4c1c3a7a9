//! Multiplayer mode: up to four units linked by cable exchange one 16-bit word
//! each per transfer. This module holds the player IDs, the error kinds, the
//! layout of the serial-control register in multiplayer mode, and the
//! decisions that start a transfer.

use vstd::prelude::*;

use crate::serial::{
    rate_bits, rcnt_mode_of, siocnt_mode_of, BaudRate, RcntWrapper, SerialMode, SiocntWrapper,
};
use crate::utils::{bit_of_u16, with_bit_u16};

verus! {

/// The value used by the hardware to indicate either an in-progress transfer
/// or that a slot out of the four available ports is not used by a unit.
pub const NO_DATA: u16 = 0xFFFF;

/// The word a unit sends when it has nothing queued.
pub const SENTINEL: u16 = NO_DATA;

/// The ID of a unit in the session, assigned by the hardware; it does not
/// change while the session lasts. The ordinal also indexes the peer slots.
#[derive(PartialEq, Eq, Structural, PartialOrd, Ord, Hash, Clone, Copy, Debug)]
pub enum PlayerId {
    /// Player 0, the "parent" unit: the only one allowed to start a transfer.
    P0,
    /// Player 1.
    P1,
    /// Player 2.
    P2,
    /// Player 3.
    P3,
}

/// The slot index of a player ID.
pub open spec fn player_index(p: PlayerId) -> int {
    match p {
        PlayerId::P0 => 0,
        PlayerId::P1 => 1,
        PlayerId::P2 => 2,
        PlayerId::P3 => 3,
    }
}

/// The player ID of slot index `i`, for `0 <= i < 4`.
pub open spec fn player_of_index(i: int) -> PlayerId {
    if i == 0 {
        PlayerId::P0
    } else if i == 1 {
        PlayerId::P1
    } else if i == 2 {
        PlayerId::P2
    } else {
        PlayerId::P3
    }
}

impl PlayerId {
    /// All player IDs, in slot order.
    pub const ALL: [PlayerId; 4] = [PlayerId::P0, PlayerId::P1, PlayerId::P2, PlayerId::P3];

    /// The slot index of this player.
    pub fn index(&self) -> (r: usize)
        ensures
            r == player_index(*self),
            r < 4,
    {
        match self {
            PlayerId::P0 => 0,
            PlayerId::P1 => 1,
            PlayerId::P2 => 2,
            PlayerId::P3 => 3,
        }
    }

    /// The player of slot index `i`.
    pub fn from_index(i: usize) -> (r: PlayerId)
        requires
            i < 4,
        ensures
            r == player_of_index(i as int),
            player_index(r) == i,
    {
        if i == 0 {
            PlayerId::P0
        } else if i == 1 {
            PlayerId::P1
        } else if i == 2 {
            PlayerId::P2
        } else {
            PlayerId::P3
        }
    }
}

impl Default for PlayerId {
    /// The parent unit.
    fn default() -> (r: PlayerId)
        ensures
            r == PlayerId::P0,
    {
        PlayerId::P0
    }
}

/// Why entering multiplayer mode failed.
#[derive(Clone, Copy, PartialEq, Eq, Structural, Debug)]
pub enum InitializationError {
    /// The error flag was set in the serial-control register.
    FailedOkayCheck,
}

/// Why a transfer could not be started.
#[derive(Clone, Copy, PartialEq, Eq, Structural, Debug)]
pub enum TransferError {
    /// Not all units were ready for the transfer (though the parent still
    /// started it).
    FailedReadyCheck,
    /// A transfer was already in progress when the new one was requested.
    AlreadyInProgress,
    /// The error flag was set in the serial-control register.
    FailedOkayCheck,
}

/// Errors of a running multiplayer session.
#[derive(Clone, Copy, PartialEq, Eq, Structural, Debug)]
pub enum MultiplayerError {
    /// The error flag was set in the serial-control register.
    FailedOkayCheck,
    /// Not all units were ready for the transfer (though the parent still
    /// started it).
    FailedReadyCheck,
    /// Output buffers that must have one length had several.
    BufferLengthMismatch,
}

/// The rate selected by the two low bits of a serial-control word.
pub open spec fn siocnt_rate(v: u16) -> BaudRate {
    let bits = v & 3u16;
    if bits == 0 {
        BaudRate::B9600
    } else if bits == 1 {
        BaudRate::B38400
    } else if bits == 2 {
        BaudRate::B57600
    } else {
        BaudRate::B115200
    }
}

/// The player ID in bits 4 and 5 of a serial-control word.
pub open spec fn siocnt_id(v: u16) -> PlayerId {
    player_of_index(((v >> 4u16) & 3u16) as int)
}

/// The contents of the serial-control register in multiplayer mode.
///
/// | Bit | Meaning |
/// | :-- | :-- |
/// | 0-1 | baud rate (9600, 38400, 57600, 115200 bps) |
/// | 2   | SI terminal: 0 parent, 1 child (read only) |
/// | 3   | SD terminal: 1 when all units are ready (read only) |
/// | 4-5 | player ID, valid after the first transfer (read only) |
/// | 6   | error flag (read only) |
/// | 7   | start / busy |
/// | 12  | 0 in multiplayer mode |
/// | 13  | 1 in multiplayer mode |
/// | 14  | interrupt on completion |
pub struct MultiplayerSiocnt {
    inner: SiocntWrapper,
}

impl View for MultiplayerSiocnt {
    type V = u16;

    closed spec fn view(&self) -> u16 {
        self.inner@
    }
}

impl MultiplayerSiocnt {
    /// The serial-control register holding `value`.
    pub fn new(value: u16) -> (r: Self)
        ensures
            r@ == value,
    {
        MultiplayerSiocnt { inner: SiocntWrapper::new(value) }
    }

    /// The whole word.
    pub fn get(&self) -> (r: u16)
        ensures
            r == self@,
    {
        self.inner.get()
    }

    /// The selected transfer rate.
    pub fn baud_rate(&self) -> (r: BaudRate)
        ensures
            r == siocnt_rate(self@),
    {
        let v = self.inner.get();
        let bits = v & 3u16;
        assert(bits < 4) by (bit_vector)
            requires
                bits == v & 3u16,
        ;
        match BaudRate::from_bits(bits) {
            Some(rate) => rate,
            None => BaudRate::B9600,
        }
    }

    /// Selects the transfer rate, keeping every other bit.
    pub fn set_baud_rate(&mut self, rate: BaudRate)
        ensures
            final(self)@ == (old(self)@ & !3u16) | rate_bits(rate),
            siocnt_rate(final(self)@) == rate,
    {
        let old_value = self.inner.get();
        let bits = rate.bits();
        let new_value = (old_value & !3u16) | bits;
        assert(new_value & 3u16 == bits) by (bit_vector)
            requires
                bits < 4,
                new_value == (old_value & !3u16) | bits,
        ;
        self.inner.write(new_value)
    }

    /// Whether this unit is not the parent. Known before any transfer.
    pub fn is_child(&self) -> (r: bool)
        ensures
            r == bit_of_u16(self@, 2),
    {
        self.inner.read_bit(2)
    }

    /// Whether this unit is the parent, the one that starts transfers. Known
    /// before any transfer.
    pub fn is_parent(&self) -> (r: bool)
        ensures
            r == !bit_of_u16(self@, 2),
    {
        !self.is_child()
    }

    /// Whether all units in the session are in multiplayer mode and ready.
    pub fn gbas_ready(&self) -> (r: bool)
        ensures
            r == bit_of_u16(self@, 3),
    {
        self.inner.read_bit(3)
    }

    /// The player ID bits; only meaningful after the first transfer.
    pub fn id(&self) -> (r: PlayerId)
        ensures
            r == siocnt_id(self@),
    {
        let regval = self.inner.get();
        let raw = (regval >> 4u16) & 3u16;
        assert(raw < 4) by (bit_vector)
            requires
                raw == (regval >> 4u16) & 3u16,
        ;
        PlayerId::from_index(raw as usize)
    }

    /// Whether the error flag is set.
    pub fn error_flag(&self) -> (r: bool)
        ensures
            r == bit_of_u16(self@, 6),
    {
        self.inner.read_bit(6)
    }

    /// Sets the start bit, which (on the parent) begins a transfer without
    /// checking that the other units are ready.
    pub fn start_transfer(&mut self)
        ensures
            final(self)@ == with_bit_u16(old(self)@, 7, true),
    {
        self.inner.write_bit(7, true)
    }

    /// Whether a transfer is in progress.
    pub fn busy(&self) -> (r: bool)
        ensures
            r == bit_of_u16(self@, 7),
    {
        self.inner.read_bit(7)
    }

    /// The mode that bits 12 and 13 select.
    pub fn mode(&self) -> (r: SerialMode)
        ensures
            r == siocnt_mode_of(self@),
    {
        self.inner.mode()
    }

    /// Selects normal, multiplayer or UART mode in bits 12 and 13.
    pub fn set_mode(&mut self, mode: SerialMode)
        ensures
            mode is Normal || mode is Multiplayer || mode is Uart ==> siocnt_mode_of(final(self)@)
                == mode,
            forall|k: u8|
                k < 16 && k != 12 && k != 13 ==> bit_of_u16(final(self)@, k) == bit_of_u16(
                    old(self)@,
                    k,
                ),
    {
        let ghost before = self@;
        self.inner.set_mode(mode);
        let ghost after = self@;
        assert forall|k: u8| k < 16 && k != 12 && k != 13 implies bit_of_u16(after, k) == bit_of_u16(
            before,
            k,
        ) by {
            lemma_with_bit_keeps_others(before, 12, false, k);
            lemma_with_bit_keeps_others(before, 12, true, k);
            lemma_with_bit_keeps_others(before, 13, false, k);
            lemma_with_bit_keeps_others(with_bit_u16(before, 12, false), 13, true, k);
            lemma_with_bit_keeps_others(with_bit_u16(before, 12, true), 13, true, k);
        }
    }

    /// Whether the completion interrupt is enabled.
    pub fn irq_enabled(&self) -> (r: bool)
        ensures
            r == bit_of_u16(self@, 14),
    {
        self.inner.irq_enabled()
    }

    /// Enables or disables the completion interrupt.
    pub fn enable_irq(&mut self, v: bool)
        ensures
            final(self)@ == with_bit_u16(old(self)@, 14, v),
    {
        self.inner.enable_irq(v)
    }
}

/// Changing bit `n` keeps every other bit.
proof fn lemma_with_bit_keeps_others(v: u16, n: u8, b: bool, k: u8)
    requires
        n < 16,
        k < 16,
        k != n,
    ensures
        bit_of_u16(with_bit_u16(v, n, b), k) == bit_of_u16(v, k),
{
    assert(bit_of_u16(with_bit_u16(v, n, b), k) == bit_of_u16(v, k)) by (bit_vector)
        requires
            n < 16,
            k < 16,
            k != n,
    ;
}

/// Puts the port (back) into multiplayer mode at `rate`: RCNT leaves the
/// choice to SIOCNT, and SIOCNT selects multiplayer mode and the rate. Doing so
/// also marks this unit ready. The caller writes both words back and then
/// checks the error flag.
pub fn enter_multiplayer(rate: BaudRate, rcnt: &mut RcntWrapper, siocnt: &mut MultiplayerSiocnt)
    ensures
        rcnt_mode_of(final(rcnt)@) is None,
        siocnt_mode_of(final(siocnt)@) == SerialMode::Multiplayer,
        siocnt_rate(final(siocnt)@) == rate,
        forall|k: u8|
            2 <= k < 16 && k != 12 && k != 13 ==> bit_of_u16(final(siocnt)@, k) == bit_of_u16(
                old(siocnt)@,
                k,
            ),
{
    rcnt.set_mode(SerialMode::Multiplayer);
    siocnt.set_mode(SerialMode::Multiplayer);
    let ghost mid = siocnt@;
    siocnt.set_baud_rate(rate);
    let ghost after = siocnt@;
    let bits = rate.bits();
    assert forall|k: u8| 2 <= k < 16 implies bit_of_u16(after, k) == bit_of_u16(mid, k) by {
        assert(bit_of_u16((mid & !3u16) | bits, k) == bit_of_u16(mid, k)) by (bit_vector)
            requires
                2 <= k < 16,
                bits < 4,
        ;
    }
    assert(siocnt_mode_of(after) == siocnt_mode_of(mid)) by {
        assert(bit_of_u16(after, 12) == bit_of_u16(mid, 12));
        assert(bit_of_u16(after, 13) == bit_of_u16(mid, 13));
    }
}

/// Tells the other units that this one is not ready for the next transfer, by
/// switching RCNT to Joybus mode, which holds the SD line low.
pub fn mark_unready(rcnt: &mut RcntWrapper)
    ensures
        rcnt_mode_of(final(rcnt)@) == Some(SerialMode::Joybus),
{
    rcnt.set_mode(SerialMode::Joybus);
}

/// Whether the error flag of a serial-control word is clear.
pub fn check_okay(siocnt: &MultiplayerSiocnt) -> (r: Result<(), MultiplayerError>)
    ensures
        r == (if bit_of_u16(siocnt@, 6) {
            Err(MultiplayerError::FailedOkayCheck)
        } else {
            Ok(())
        }),
{
    if siocnt.error_flag() {
        Err(MultiplayerError::FailedOkayCheck)
    } else {
        Ok(())
    }
}

/// A received word, or `None` for the "no data" value.
pub fn decode_comm_word(raw: u16) -> (r: Option<u16>)
    ensures
        raw == NO_DATA ==> r is None,
        raw != NO_DATA ==> r == Some(raw),
{
    if raw == NO_DATA {
        None
    } else {
        Some(raw)
    }
}

/// The state of a unit in a low-level multiplayer session: its role, its
/// player ID once known, and the session's rate.
pub struct MultiplayerSerial {
    is_parent: bool,
    playerid: Option<PlayerId>,
    rate: BaudRate,
}

impl MultiplayerSerial {
    /// Whether this unit is the parent.
    pub closed spec fn spec_is_parent(&self) -> bool {
        self.is_parent
    }

    /// The player ID, once known.
    pub closed spec fn spec_player_id(&self) -> Option<PlayerId> {
        self.playerid
    }

    /// The session's transfer rate.
    pub closed spec fn spec_rate(&self) -> BaudRate {
        self.rate
    }

    /// Opens a session at `rate`, given the serial-control word read right
    /// after entering multiplayer mode: fails when its error flag is set,
    /// otherwise records whether this unit is the parent.
    pub fn new(rate: BaudRate, siocnt: &MultiplayerSiocnt) -> (r: Result<Self, InitializationError>)
        ensures
            bit_of_u16(siocnt@, 6) ==> r == Err::<Self, _>(InitializationError::FailedOkayCheck),
            !bit_of_u16(siocnt@, 6) ==> (r matches Ok(s) && s.spec_is_parent() == !bit_of_u16(
                siocnt@,
                2,
            ) && s.spec_player_id() is None && s.spec_rate() == rate),
    {
        let mut retvl = MultiplayerSerial { is_parent: false, playerid: None, rate };
        match retvl.initialize(siocnt) {
            Ok(()) => Ok(retvl),
            Err(e) => Err(e),
        }
    }

    /// Checks the serial-control word read after (re-)entering multiplayer
    /// mode and records the role it reports.
    pub fn initialize(&mut self, siocnt: &MultiplayerSiocnt) -> (r: Result<(), InitializationError>)
        ensures
            final(self).spec_rate() == old(self).spec_rate(),
            final(self).spec_player_id() == old(self).spec_player_id(),
            bit_of_u16(siocnt@, 6) ==> r == Err::<(), _>(InitializationError::FailedOkayCheck)
                && final(self).spec_is_parent() == old(self).spec_is_parent(),
            !bit_of_u16(siocnt@, 6) ==> r is Ok && final(self).spec_is_parent() == !bit_of_u16(
                siocnt@,
                2,
            ),
    {
        if siocnt.error_flag() {
            return Err(InitializationError::FailedOkayCheck);
        }
        self.is_parent = siocnt.is_parent();
        Ok(())
    }

    /// Whether this unit is the parent.
    pub fn is_parent(&self) -> (r: bool)
        ensures
            r == self.spec_is_parent(),
    {
        self.is_parent
    }

    /// The session's transfer rate.
    pub fn rate(&self) -> (r: BaudRate)
        ensures
            r == self.spec_rate(),
    {
        self.rate
    }

    /// Begins a transfer if this is the parent unit, and reports whether a
    /// transfer can go ahead now, given the serial-control word `siocnt` just
    /// read. When the parent starts a transfer the start bit is set in
    /// `siocnt`, which the caller writes back; otherwise `siocnt` is left as
    /// it was. Does not block.
    pub fn start_transfer(&self, siocnt: &mut MultiplayerSiocnt) -> (r: Result<(), TransferError>)
        ensures
            ({
                let s = old(siocnt)@;
                let busy = bit_of_u16(s, 7);
                &&& final(siocnt)@ == (if !busy && self.spec_is_parent() {
                    with_bit_u16(s, 7, true)
                } else {
                    s
                })
                &&& r == (if busy {
                    Err(TransferError::AlreadyInProgress)
                } else if !bit_of_u16(s, 3) {
                    Err(TransferError::FailedReadyCheck)
                } else if bit_of_u16(s, 6) {
                    Err(TransferError::FailedOkayCheck)
                } else {
                    Ok(())
                })
            }),
    {
        if siocnt.busy() {
            return Err(TransferError::AlreadyInProgress);
        }
        let all_ready = siocnt.gbas_ready();
        let error = siocnt.error_flag();
        if self.is_parent {
            siocnt.start_transfer();
        }
        if !all_ready {
            return Err(TransferError::FailedReadyCheck);
        }
        if error {
            return Err(TransferError::FailedOkayCheck);
        }
        Ok(())
    }

    /// This unit's player ID: the one learned by ID discovery if any, else
    /// `P0` for the parent, else the ID bits of `siocnt`, which are only
    /// meaningful once a transfer has completed.
    pub fn id(&self, siocnt: &MultiplayerSiocnt) -> (r: PlayerId)
        ensures
            r == (match self.spec_player_id() {
                Some(p) => p,
                None => if self.spec_is_parent() {
                    PlayerId::P0
                } else {
                    siocnt_id(siocnt@)
                },
            }),
    {
        if let Some(retvl) = self.playerid {
            retvl
        } else if self.is_parent {
            PlayerId::P0
        } else {
            siocnt.id()
        }
    }

    /// The player ID learned by ID discovery, if any.
    pub fn player_id(&self) -> (r: Option<PlayerId>)
        ensures
            r == self.spec_player_id(),
    {
        self.playerid
    }

    /// One round of ID discovery. Before its first transfer a unit only knows
    /// whether it is the parent: the ID bits hold garbage until a transfer
    /// completes. Discovery repeatedly tries to start a transfer (`attempt` is
    /// the outcome of this round's try) and watches the count of completed
    /// transfers. Being busy or not all ready is expected and retried; any
    /// other failure aborts. Once the count moves, the ID bits of `siocnt` are
    /// latched and become this unit's ID. Returns whether the ID is now known.
    pub fn discover_id_step(
        &mut self,
        attempt: Result<(), TransferError>,
        old_count: u32,
        new_count: u32,
        siocnt: &MultiplayerSiocnt,
    ) -> (r: Result<bool, TransferError>)
        ensures
            final(self).spec_is_parent() == old(self).spec_is_parent(),
            final(self).spec_rate() == old(self).spec_rate(),
            attempt == Err::<(), _>(TransferError::FailedOkayCheck) ==> r == Err::<bool, _>(
                TransferError::FailedOkayCheck,
            ) && final(self).spec_player_id() == old(self).spec_player_id(),
            attempt != Err::<(), _>(TransferError::FailedOkayCheck) ==> {
                &&& r == Ok::<bool, TransferError>(old_count != new_count)
                &&& final(self).spec_player_id() == (if old_count != new_count {
                    Some(siocnt_id(siocnt@))
                } else {
                    old(self).spec_player_id()
                })
            },
    {
        match attempt {
            Ok(()) => {},
            Err(TransferError::AlreadyInProgress) => {},
            Err(TransferError::FailedReadyCheck) => {},
            Err(other) => {
                return Err(other);
            },
        }
        if old_count != new_count {
            self.playerid = Some(siocnt.id());
            return Ok(true);
        }
        Ok(false)
    }
}

} // verus!
