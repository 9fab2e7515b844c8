use duplex_bench::stream::{payload_capacity, ReadStatus, Stream};

const MSG: &str = "Hello, World!\n";

fn read_all(s: &mut Stream, chunk: usize) -> Vec<u8> {
    let mut out = Vec::new();
    let mut buf = vec![0u8; chunk];
    loop {
        match s.read(&mut buf) {
            ReadStatus::Ready(n) => out.extend_from_slice(&buf[..n]),
            ReadStatus::Pending => return out,
        }
    }
}

#[test]
fn new_stream_starts_as_client_with_nothing_to_read() {
    let mut s = Stream::new(16);
    assert!(s.is_client());
    let mut buf = [9u8; 4];
    assert_eq!(s.read(&mut buf), ReadStatus::Pending);
    assert_eq!(buf, [9u8; 4]);
}

#[test]
fn client_write_is_read_by_server() {
    let mut s = Stream::new(0);
    assert_eq!(s.write(b"abc"), 3);
    s.role_server();
    assert!(!s.is_client());
    let mut buf = [0u8; 8];
    assert_eq!(s.read(&mut buf), ReadStatus::Ready(3));
    assert_eq!(&buf[..3], b"abc");
    assert_eq!(&buf[3..], &[0u8; 5]);
}

#[test]
fn server_write_is_read_by_client() {
    let mut s = Stream::new(4);
    s.role_server();
    assert_eq!(s.write(b"pong"), 4);
    s.role_client();
    let mut buf = [0u8; 4];
    assert_eq!(s.read(&mut buf), ReadStatus::Ready(4));
    assert_eq!(&buf, b"pong");
}

#[test]
fn own_writes_are_not_read_back() {
    let mut s = Stream::new(4);
    s.write(b"xyz");
    let mut buf = [0u8; 4];
    assert_eq!(s.read(&mut buf), ReadStatus::Pending);
}

#[test]
fn read_is_bounded_by_buffer_and_keeps_order() {
    let mut s = Stream::new(0);
    s.write(b"hello world");
    s.role_server();
    let mut buf = [0u8; 4];
    assert_eq!(s.read(&mut buf), ReadStatus::Ready(4));
    assert_eq!(&buf, b"hell");
    assert_eq!(s.read(&mut buf), ReadStatus::Ready(4));
    assert_eq!(&buf, b"o wo");
    assert_eq!(s.read(&mut buf), ReadStatus::Ready(3));
    assert_eq!(&buf[..3], b"rld");
    assert_eq!(s.read(&mut buf), ReadStatus::Pending);
}

#[test]
fn read_into_empty_buffer_with_data_is_ready_zero() {
    let mut s = Stream::new(0);
    s.write(b"a");
    s.role_server();
    let mut empty: [u8; 0] = [];
    assert_eq!(s.read(&mut empty), ReadStatus::Ready(0));
    let mut buf = [0u8; 1];
    assert_eq!(s.read(&mut buf), ReadStatus::Ready(1));
    assert_eq!(buf[0], b'a');
}

#[test]
fn read_after_everything_consumed_is_pending_not_end() {
    let mut s = Stream::new(0);
    s.write(b"ab");
    s.role_server();
    assert_eq!(read_all(&mut s, 1), b"ab".to_vec());
    let mut buf = [0u8; 2];
    assert_eq!(s.read(&mut buf), ReadStatus::Pending);
    s.role_client();
    s.write(b"c");
    s.role_server();
    assert_eq!(s.read(&mut buf), ReadStatus::Ready(1));
    assert_eq!(buf[0], b'c');
}

#[test]
fn vectored_write_equals_sequential_writes() {
    let parts: [&[u8]; 4] = [b"ab", b"", b"cde", b"f"];
    let mut a = Stream::new(0);
    assert_eq!(a.write_vectored(&parts), 6);
    let mut b = Stream::new(0);
    for p in parts.iter() {
        b.write(p);
    }
    a.role_server();
    b.role_server();
    assert_eq!(read_all(&mut a, 3), b"abcdef".to_vec());
    assert_eq!(read_all(&mut b, 3), b"abcdef".to_vec());
}

#[test]
fn vectored_write_of_nothing_writes_nothing() {
    let parts: [&[u8]; 0] = [];
    let mut s = Stream::new(0);
    assert_eq!(s.write_vectored(&parts), 0);
    s.role_server();
    let mut buf = [0u8; 1];
    assert_eq!(s.read(&mut buf), ReadStatus::Pending);
}

#[test]
fn vectored_write_in_server_role_goes_to_client() {
    let parts: [&[u8]; 2] = [b"12", b"34"];
    let mut s = Stream::new(0);
    s.role_server();
    assert_eq!(s.write_vectored(&parts), 4);
    s.role_client();
    assert_eq!(read_all(&mut s, 8), b"1234".to_vec());
}

#[test]
fn flush_and_close_change_nothing() {
    let mut s = Stream::new(0);
    s.write(b"q");
    s.flush();
    s.close();
    s.role_server();
    assert_eq!(read_all(&mut s, 4), b"q".to_vec());
}

#[test]
fn payload_capacity_of_the_benchmark_workload() {
    assert_eq!(payload_capacity(100_000, MSG.len(), 14), Some(2_800_000));
    assert_eq!(payload_capacity(0, 5, 7), Some(0));
    assert_eq!(payload_capacity(3, 0, 0), Some(0));
}

#[test]
fn payload_capacity_overflow_is_none() {
    assert_eq!(payload_capacity(2, usize::MAX / 2 + 1, 0), None);
    assert_eq!(payload_capacity(1, usize::MAX, 1), None);
    assert_eq!(payload_capacity(0, usize::MAX, 1), Some(0));
    assert_eq!(payload_capacity(1, usize::MAX, 0), Some(usize::MAX));
}

#[test]
fn hundred_thousand_messages_round_trip_in_chunks() {
    let iterations = 100_000;
    let capacity = payload_capacity(iterations, MSG.len(), 14).unwrap();
    assert_eq!(capacity, 2_800_000);
    let mut s = Stream::new(capacity);
    s.role_client();
    for _ in 0..iterations {
        assert_eq!(s.write(MSG.as_bytes()), MSG.len());
    }
    s.role_server();
    let all = read_all(&mut s, 4096);
    assert_eq!(all.len(), iterations * MSG.len());
    let mut copies = 0;
    for piece in all.chunks(MSG.len()) {
        assert_eq!(piece, MSG.as_bytes());
        copies += 1;
    }
    assert_eq!(copies, iterations);
}
