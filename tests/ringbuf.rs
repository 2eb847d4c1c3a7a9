use serial_experiments_gba::ringbuf::{is_empty, is_full, len, Ringbuffer};

#[test]
fn test_buffer() {
    let buffer_size: usize = 0x8F;
    let mut buffer = Ringbuffer::new(buffer_size);
    for n in 0..(buffer_size * 2) {
        let p0 = (n as u16) + 0x3000;
        let res = buffer.push(p0);
        assert_eq!(res.is_err(), n >= buffer_size, "N = {n}");
    }
    for n in 0..buffer_size {
        assert_eq!(buffer.pop(), Some((n as u16) + 0x3000));
    }
    assert_eq!(buffer.pop(), None);
}

#[test]
fn test_buffer_bulk() {
    let buffer_size: usize = 10;
    let mut buffer = Ringbuffer::new(buffer_size);
    assert_eq!(
        buffer.write_bulk(&[30, 31, 32, 33, 34, 35, 36, 37, 38, 39, 40, 41]),
        buffer_size
    );
    let mut outbuff = [0xFFFFu16; 3];
    assert_eq!(buffer.read_bulk(&mut outbuff), 3);
    assert_eq!(outbuff, [30, 31, 32]);
    assert_eq!(buffer.read_bulk(&mut outbuff), 3);
    assert_eq!(outbuff, [33, 34, 35]);
    assert_eq!(buffer.read_bulk(&mut outbuff), 3);
    assert_eq!(outbuff, [36, 37, 38]);
    assert_eq!(buffer.read_bulk(&mut outbuff), buffer_size % 3);
    assert_eq!(&outbuff[..(buffer_size % 3)], &[39]);
}

#[test]
fn capacity_four_words_pushed_then_popped_in_order() {
    let mut buffer = Ringbuffer::new(4);
    let results: Vec<bool> = [1u16, 2, 3, 4, 5, 6].iter().map(|w| buffer.push(*w).is_ok()).collect();
    assert_eq!(results, vec![true, true, true, true, false, false]);
    assert_eq!(buffer.pop(), Some(1));
    assert_eq!(buffer.pop(), Some(2));
    assert_eq!(buffer.pop(), Some(3));
    assert_eq!(buffer.pop(), Some(4));
    assert_eq!(buffer.pop(), None);
}

#[test]
fn round_trip_partial_write_and_three_reads() {
    let mut buffer = Ringbuffer::new(4);
    assert_eq!(buffer.write_bulk(&[10, 20, 30, 40, 50]), 4);
    let mut two = [0u16; 2];
    assert_eq!(buffer.read_bulk(&mut two), 2);
    assert_eq!(two, [10, 20]);
    let mut one = [0u16; 1];
    assert_eq!(buffer.read_bulk(&mut one), 1);
    assert_eq!(one, [30]);
    assert_eq!(buffer.read_bulk(&mut one), 1);
    assert_eq!(one, [40]);
    let mut rest = [7u16; 3];
    assert_eq!(buffer.read_bulk(&mut rest), 0);
    assert_eq!(rest, [7, 7, 7]);
    assert_eq!(buffer.pop(), None);
}

#[test]
fn interleaved_pushes_and_pops_cross_the_array_end() {
    let cap: usize = 5;
    let mut buffer = Ringbuffer::new(cap);
    let mut model: std::collections::VecDeque<u16> = std::collections::VecDeque::new();
    let mut next: u16 = 0;
    for round in 0..40usize {
        let pushes = 1 + round % 4;
        for _ in 0..pushes {
            let ok = buffer.push(next).is_ok();
            assert_eq!(ok, model.len() < cap);
            if ok {
                model.push_back(next);
            }
            next += 1;
        }
        let pops = 1 + (round * 7) % 4;
        for _ in 0..pops {
            assert_eq!(buffer.pop(), model.pop_front());
        }
    }
    while let Some(w) = model.pop_front() {
        assert_eq!(buffer.pop(), Some(w));
    }
    assert_eq!(buffer.pop(), None);
}

#[test]
fn read_bulk_across_the_array_end_and_partial_output() {
    let mut buffer = Ringbuffer::new(4);
    assert_eq!(buffer.write_bulk(&[1, 2, 3]), 3);
    let mut two = [0u16; 2];
    assert_eq!(buffer.read_bulk(&mut two), 2);
    assert_eq!(two, [1, 2]);
    assert_eq!(buffer.write_bulk(&[4, 5, 6, 7]), 3);
    let mut out = [9u16; 6];
    assert_eq!(buffer.read_bulk(&mut out), 4);
    assert_eq!(out, [3, 4, 5, 6, 9, 9]);
    assert_eq!(buffer.pop(), None);
}

#[test]
fn write_bulk_into_full_buffer_writes_nothing() {
    let mut buffer = Ringbuffer::new(2);
    assert_eq!(buffer.write_bulk(&[1, 2]), 2);
    assert_eq!(buffer.write_bulk(&[3]), 0);
    assert_eq!(buffer.write_bulk(&[]), 0);
    assert_eq!(buffer.pop(), Some(1));
}

#[test]
fn placeholder_holds_nothing() {
    let mut buffer = Ringbuffer::empty();
    assert!(buffer.is_placeholder());
    assert!(!Ringbuffer::new(3).is_placeholder());
    assert!(buffer.push(1).is_err());
    assert_eq!(buffer.pop(), None);
    assert_eq!(buffer.write_bulk(&[1, 2]), 0);
    let mut out = [5u16; 2];
    assert_eq!(buffer.read_bulk(&mut out), 0);
    assert_eq!(out, [5, 5]);
}

#[test]
fn cursor_arithmetic() {
    assert_eq!(len(0, 0, 4), 0);
    assert_eq!(len(1, 5, 4), 4);
    assert_eq!(len(6, 1, 4), 3);
    assert_eq!(len(7, 3, 4), 4);
    assert!(is_full(7, 3, 4));
    assert!(!is_full(6, 1, 4));
    assert!(is_empty(2, 2, 4));
    assert!(!is_empty(2, 3, 4));
    assert!(is_full(0, 0, 0));
}
