use serial_experiments_gba::bulk::{
    common_len, transfer_is_empty, BulkInitError, BulkMultiplayer, BulkTickError, InterruptAction,
    QueueError,
};
use serial_experiments_gba::multiplayer::{
    MultiplayerError, MultiplayerSerial, MultiplayerSiocnt, PlayerId, TransferError, SENTINEL,
};
use serial_experiments_gba::serial::BaudRate;

const READY: u16 = 1 << 3;
const CHILD: u16 = 1 << 2;
const ERROR: u16 = 1 << 6;
const BUSY: u16 = 1 << 7;

fn session(id_bits: u16, cap: usize) -> BulkMultiplayer {
    let siocnt = MultiplayerSiocnt::new(CHILD | (id_bits << 4));
    let mut inner = MultiplayerSerial::new(BaudRate::B115200, &siocnt).unwrap();
    assert_eq!(inner.discover_id_step(Ok(()), 0, 1, &siocnt), Ok(true));
    BulkMultiplayer::new(inner, cap)
}

#[test]
fn skip_empty_transfers_stops_at_first_real_data() {
    let mut s = session(1, 8);
    assert_eq!(s.id(), PlayerId::P1);
    let x = SENTINEL;
    s.on_transfer_complete([x, 5, x, x], 0);
    s.on_transfer_complete([x, x, x, x], 0);
    s.on_transfer_complete([x, 6, x, x], 0);
    s.on_transfer_complete([1, 7, x, x], 0);
    s.on_transfer_complete([x, 8, x, x], 0);
    assert_eq!(s.skip_empty_transfers(), 2);
    assert_eq!(s.skip_empty_transfers(), 0);
    let mut b0 = [0u16; 4];
    let mut b1 = [0u16; 4];
    let mut b2 = [0u16; 4];
    let mut b3 = [0u16; 4];
    {
        let mut bufs: [&mut [u16]; 4] = [&mut b0, &mut b1, &mut b2, &mut b3];
        assert_eq!(s.read_bulk(&mut bufs), Ok([2; 4]));
    }
    assert_eq!(&b0[..2], &[1, x]);
    assert_eq!(&b1[..2], &[7, 8]);
    assert_eq!(s.skip_empty_transfers(), 0);
}

#[test]
fn skip_empty_transfers_drains_all_empty() {
    let mut s = session(2, 4);
    let x = SENTINEL;
    s.on_transfer_complete([x, x, 3, x], 0);
    s.on_transfer_complete([x, x, 4, x], 0);
    assert_eq!(s.skip_empty_transfers(), 2);
    assert_eq!(s.skip_empty_transfers(), 0);
}

#[test]
fn empty_transfer_check() {
    let x = SENTINEL;
    assert!(transfer_is_empty(&[x, 5, x, x], PlayerId::P1));
    assert!(!transfer_is_empty(&[x, 5, x, x], PlayerId::P0));
    assert!(transfer_is_empty(&[x, x, x, x], PlayerId::P3));
    assert!(!transfer_is_empty(&[x, x, x, 0], PlayerId::P2));
}

#[test]
fn interrupt_sends_queued_words_then_sentinel() {
    let mut s = session(0, 3);
    assert_eq!(s.queue_send(&[11, 12, 13, 14]), 3);
    assert_eq!(
        s.on_transfer_complete([SENTINEL; 4], 0),
        InterruptAction { send: 11, mark_unready: false }
    );
    assert_eq!(s.on_transfer_complete([1, 2, 3, 4], 0).send, 12);
    assert_eq!(s.on_transfer_complete([5, 6, 7, 8], 0).send, 13);
    assert!(s.will_block_transfers());
    assert_eq!(
        s.on_transfer_complete([SENTINEL; 4], 0),
        InterruptAction { send: SENTINEL, mark_unready: true }
    );
    s.block_transfers_until_have_data(false);
    assert!(!s.will_block_transfers());
    assert_eq!(
        s.on_transfer_complete([SENTINEL; 4], 0),
        InterruptAction { send: SENTINEL, mark_unready: false }
    );
    let mut b0 = [0u16; 3];
    let mut b1 = [0u16; 3];
    let mut b2 = [0u16; 3];
    let mut b3 = [0u16; 3];
    {
        let mut bufs: [&mut [u16]; 4] = [&mut b0, &mut b1, &mut b2, &mut b3];
        assert_eq!(s.read_bulk(&mut bufs), Ok([2; 4]));
    }
    assert_eq!(&b0[..2], &[1, 5]);
    assert_eq!(&b3[..2], &[4, 8]);
}

#[test]
fn interrupt_drops_transfers_when_inbox_full() {
    let mut s = session(0, 1);
    s.on_transfer_complete([1, 2, 3, 4], 0);
    s.on_transfer_complete([5, 6, 7, 8], 0);
    let mut b0 = [0u16; 2];
    let mut b1 = [0u16; 2];
    let mut b2 = [0u16; 2];
    let mut b3 = [0u16; 2];
    {
        let mut bufs: [&mut [u16]; 4] = [&mut b0, &mut b1, &mut b2, &mut b3];
        assert_eq!(s.read_bulk(&mut bufs), Ok([1; 4]));
    }
    assert_eq!([b0[0], b1[0], b2[0], b3[0]], [1, 2, 3, 4]);
}

#[test]
fn read_all_rounds_fill_every_buffer() {
    let mut s = session(0, 4);
    let mut b0 = [0u16; 3];
    let mut b1 = [0u16; 3];
    let mut b2 = [0u16; 3];
    let mut b3 = [0u16; 3];
    let mut bufs: [&mut [u16]; 4] = [&mut b0, &mut b1, &mut b2, &mut b3];
    assert_eq!(common_len(&bufs), Ok(3));
    s.on_transfer_complete([1, 2, 3, 4], 0);
    s.on_transfer_complete([5, 6, 7, 8], 0);
    let read = s.read_all_step(&mut bufs, 0);
    assert_eq!(read, 2);
    assert_eq!(s.read_all_step(&mut bufs, read), 2);
    s.on_transfer_complete([9, 10, 11, 12], 0);
    s.on_transfer_complete([13, 14, 15, 16], 0);
    assert_eq!(s.read_all_step(&mut bufs, read), 3);
    assert_eq!(b0, [1, 5, 9]);
    assert_eq!(b3, [4, 8, 12]);
}

#[test]
fn read_all_rejects_mismatched_lengths() {
    let mut b0 = [0u16; 3];
    let mut b1 = [0u16; 3];
    let mut b2 = [0u16; 2];
    let mut b3 = [0u16; 3];
    let bufs: [&mut [u16]; 4] = [&mut b0, &mut b1, &mut b2, &mut b3];
    assert_eq!(common_len(&bufs), Err(MultiplayerError::BufferLengthMismatch));
}

#[test]
fn tick_maps_transfer_outcomes() {
    let s = session(0, 2);
    let mut busy = MultiplayerSiocnt::new(CHILD | BUSY | ERROR);
    assert_eq!(s.tick(&mut busy), Ok(()));
    let mut unready = MultiplayerSiocnt::new(CHILD | ERROR);
    assert_eq!(s.tick(&mut unready), Ok(()));
    let mut fault = MultiplayerSiocnt::new(CHILD | READY | ERROR);
    assert_eq!(s.tick(&mut fault), Err(BulkTickError::FailedOkayCheck));
    let mut fine = MultiplayerSiocnt::new(CHILD | READY);
    assert_eq!(s.tick(&mut fine), Ok(()));
    assert_eq!(fine.get(), CHILD | READY);
}

#[test]
fn only_one_session_at_a_time() {
    let mut slot: Option<BulkMultiplayer> = None;
    assert_eq!(session(0, 2).install(&mut slot), Ok(()));
    assert!(slot.is_some());
    assert_eq!(session(1, 2).install(&mut slot), Err(BulkInitError::AlreadyInitialized));
    assert_eq!(slot.as_ref().map(|s| s.id()), Some(PlayerId::P0));
}

#[test]
fn leave_returns_the_low_level_session() {
    let s = session(3, 2);
    let inner = s.leave();
    assert_eq!(inner.player_id(), Some(PlayerId::P3));
    assert!(!inner.is_parent());
    assert_eq!(inner.rate(), BaudRate::B115200);
}

#[test]
fn error_conversions() {
    assert_eq!(
        BulkInitError::from(TransferError::FailedOkayCheck),
        BulkInitError::TransferError(TransferError::FailedOkayCheck)
    );
    assert_eq!(
        MultiplayerError::from(BulkTickError::FailedOkayCheck),
        MultiplayerError::FailedOkayCheck
    );
    assert_eq!(
        QueueError::from(MultiplayerError::FailedReadyCheck),
        QueueError::MultiplayerError(MultiplayerError::FailedReadyCheck)
    );
    assert_ne!(QueueError::QueueNotEmpty, QueueError::MultiplayerError(MultiplayerError::FailedOkayCheck));
}
