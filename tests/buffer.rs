use serial_experiments_gba::buffer::TransferBuffer;
use serial_experiments_gba::multiplayer::PlayerId;

#[test]
fn test_transfer_buffer() {
    let buffer_size: usize = 0x8F;
    let mut buffer = TransferBuffer::new(buffer_size);
    for n in 0..(buffer_size * 2) {
        let res = buffer.push(
            (n as u16) + 0x0000,
            (n as u16) + 0x1000,
            (n as u16) + 0x2000,
            (n as u16) + 0x3000,
            0x00,
        );
        assert_eq!(res.is_err(), n >= buffer_size, "N = {n}");
    }
    for n in 0..buffer_size {
        assert_eq!(
            buffer.pop(),
            Some([
                (n as u16) + 0x0000,
                (n as u16) + 0x1000,
                (n as u16) + 0x2000,
                (n as u16) + 0x3000,
            ])
        );
    }
    assert_eq!(buffer.pop(), None);
}

fn expected(base: [u16; 3], pid: PlayerId) -> [u16; 3] {
    base.map(|n| n + (100 * (pid.index() as u16 + 1)))
}

#[test]
fn test_transfer_buffer_bulk() {
    let buffer_size: usize = 10;
    let mut buffer = TransferBuffer::new(buffer_size);
    for n in 30u16..42 {
        let res = buffer.push(n + 100, n + 200, n + 300, n + 400, n as u8);
        assert_eq!(res.is_ok(), n < 40);
    }
    let mut b0 = [0xFFFFu16; 3];
    let mut b1 = [0xFFFFu16; 3];
    let mut b2 = [0xFFFFu16; 3];
    let mut b3 = [0xFFFFu16; 3];
    for base in [[30u16, 31, 32], [33, 34, 35], [36, 37, 38]] {
        {
            let mut outbuff: [&mut [u16]; 4] = [&mut b0, &mut b1, &mut b2, &mut b3];
            assert_eq!(buffer.read_bulk(&mut outbuff), [3; 4]);
        }
        assert_eq!(b0, expected(base, PlayerId::P0));
        assert_eq!(b1, expected(base, PlayerId::P1));
        assert_eq!(b2, expected(base, PlayerId::P2));
        assert_eq!(b3, expected(base, PlayerId::P3));
    }
    {
        let mut outbuff: [&mut [u16]; 4] = [&mut b0, &mut b1, &mut b2, &mut b3];
        assert_eq!(buffer.read_bulk(&mut outbuff), [buffer_size % 3; 4]);
    }
    assert_eq!(b0[0], 139);
    assert_eq!(b1[0], 239);
    assert_eq!(b2[0], 339);
    assert_eq!(b3[0], 439);
}

#[test]
fn transfer_buffer_example_capacity_ten() {
    let mut buffer = TransferBuffer::new(10);
    for n in 30u16..42 {
        let res = buffer.push(n, n + 100, n + 200, n + 300, 0);
        assert_eq!(res.is_ok(), n < 40, "n = {n}");
    }
    let mut b0 = [0u16; 3];
    let mut b1 = [0u16; 3];
    let mut b2 = [0u16; 3];
    let mut b3 = [0u16; 3];
    for first in [30u16, 33, 36] {
        {
            let mut outbuff: [&mut [u16]; 4] = [&mut b0, &mut b1, &mut b2, &mut b3];
            assert_eq!(buffer.read_bulk(&mut outbuff), [3; 4]);
        }
        assert_eq!(b0, [first, first + 1, first + 2]);
        assert_eq!(b1, [first + 100, first + 101, first + 102]);
        assert_eq!(b2, [first + 200, first + 201, first + 202]);
        assert_eq!(b3, [first + 300, first + 301, first + 302]);
    }
    {
        let mut outbuff: [&mut [u16]; 4] = [&mut b0, &mut b1, &mut b2, &mut b3];
        assert_eq!(buffer.read_bulk(&mut outbuff), [1; 4]);
    }
    assert_eq!([b0[0], b1[0], b2[0], b3[0]], [39, 139, 239, 339]);
    assert_eq!(buffer.pop(), None);
}

#[test]
fn read_bulk_advances_by_the_smallest_output() {
    let mut buffer = TransferBuffer::new(8);
    for n in 0u16..5 {
        assert!(buffer.push(n, n + 10, n + 20, n + 30, 0).is_ok());
    }
    let mut b0 = [0u16; 4];
    let mut b1 = [0u16; 2];
    let mut b2 = [0u16; 6];
    let mut b3 = [0u16; 3];
    {
        let mut outbuff: [&mut [u16]; 4] = [&mut b0, &mut b1, &mut b2, &mut b3];
        assert_eq!(buffer.read_bulk(&mut outbuff), [2; 4]);
    }
    assert_eq!(&b0[..2], &[0, 1]);
    assert_eq!(b1, [10, 11]);
    assert_eq!(&b2[..2], &[20, 21]);
    assert_eq!(&b3[..2], &[30, 31]);
    assert_eq!(buffer.pop(), Some([2, 12, 22, 32]));
    assert_eq!(buffer.peak(), Some([3, 13, 23, 33]));
    assert_eq!(buffer.pop(), Some([3, 13, 23, 33]));
    assert_eq!(buffer.pop(), Some([4, 14, 24, 34]));
    assert_eq!(buffer.pop(), None);
    assert_eq!(buffer.peak(), None);
}

#[test]
fn read_bulk_from_offset_and_across_the_end() {
    let mut buffer = TransferBuffer::new(3);
    for n in 0u16..3 {
        assert!(buffer.push(n, n + 10, n + 20, n + 30, 0).is_ok());
    }
    assert_eq!(buffer.pop(), Some([0, 10, 20, 30]));
    assert_eq!(buffer.pop(), Some([1, 11, 21, 31]));
    for n in 3u16..5 {
        assert!(buffer.push(n, n + 10, n + 20, n + 30, 0).is_ok());
    }
    assert!(buffer.push(9, 9, 9, 9, 0).is_err());
    let mut b0 = [7u16; 5];
    let mut b1 = [7u16; 5];
    let mut b2 = [7u16; 5];
    let mut b3 = [7u16; 5];
    {
        let mut outbuff: [&mut [u16]; 4] = [&mut b0, &mut b1, &mut b2, &mut b3];
        assert_eq!(buffer.read_bulk_from(&mut outbuff, 1), 3);
    }
    assert_eq!(b0, [7, 2, 3, 4, 7]);
    assert_eq!(b3, [7, 32, 33, 34, 7]);
    assert_eq!(buffer.pop(), None);
}

#[test]
fn transfer_placeholder() {
    let mut buffer = TransferBuffer::empty();
    assert!(buffer.is_placeholder());
    assert!(!TransferBuffer::new(1).is_placeholder());
    assert!(buffer.push(1, 2, 3, 4, 0).is_err());
    assert_eq!(buffer.pop(), None);
    let mut b0 = [0u16; 1];
    let mut b1 = [0u16; 1];
    let mut b2 = [0u16; 1];
    let mut b3 = [0u16; 1];
    let mut outbuff: [&mut [u16]; 4] = [&mut b0, &mut b1, &mut b2, &mut b3];
    assert_eq!(buffer.read_bulk(&mut outbuff), [0; 4]);
}
