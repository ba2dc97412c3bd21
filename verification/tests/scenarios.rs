use slice_reader::{CursorReader, MemReader, ReadError};

fn known_content(n: usize) -> Vec<u8> {
    let mut v: Vec<u8> = Vec::with_capacity(n);
    for i in 0..n {
        v.push((i % 251) as u8);
    }
    v
}

#[test]
fn thousand_byte_buffer_full_read() {
    let content = known_content(1000);
    let m = MemReader::new(content.clone());
    let got = m.read(0, 1000).unwrap();
    assert_eq!(got, content);
    assert_eq!(
        m.read(999, 2),
        Err(ReadError::OutOfBounds { offset: 999, length: 2, backend_len: 1000 })
    );
}

#[test]
fn empty_backend_rejects_every_read() {
    let m = MemReader::new(Vec::new());
    assert_eq!(m.len(), 0);
    assert_eq!(
        m.read(0, 1),
        Err(ReadError::OutOfBounds { offset: 0, length: 1, backend_len: 0 })
    );
    assert_eq!(
        m.read(5, 17),
        Err(ReadError::OutOfBounds { offset: 5, length: 17, backend_len: 0 })
    );
    let mut c = CursorReader::new(Vec::new());
    assert_eq!(c.len_via_seek(), 0);
    assert!(c.read_at(0, 1).is_err());
    assert!(c.read_at(5, 17).is_err());
}

#[test]
fn sequential_seek_reads_reassemble_content() {
    let content = known_content(1000);
    let mut c = CursorReader::new(content.clone());
    let mut reassembled: Vec<u8> = Vec::new();
    for i in 0..100u64 {
        let chunk = c.read_at(i * 10, 10).unwrap();
        assert_eq!(chunk.len(), 10);
        reassembled.extend_from_slice(&chunk);
    }
    assert_eq!(reassembled, content);
}

#[test]
fn concurrent_direct_reads_match_sequential() {
    let content = known_content(1000);
    let m = MemReader::new(content.clone());
    let mut pending = Vec::new();
    for i in 0..100u64 {
        let reader = &m;
        pending.push(async move { reader.read(i * 10, 10) });
    }
    let results = futures::executor::block_on(futures::future::join_all(pending));
    let mut reassembled: Vec<u8> = Vec::new();
    for r in results {
        reassembled.extend_from_slice(&r.unwrap());
    }
    assert_eq!(reassembled, content);
}

#[test]
fn adapters_agree_on_identical_content() {
    let content = known_content(300);
    let m = MemReader::new(content.clone());
    let mut c = CursorReader::new(content);
    let requests: Vec<(u64, usize)> =
        vec![(0, 300), (0, 0), (17, 100), (299, 1), (150, 150), (300, 0), (42, 7)];
    for (offset, length) in requests {
        let direct = m.read(offset, length).unwrap();
        let seeked = c.read_at(offset, length).unwrap();
        assert_eq!(direct, seeked);
    }
}

#[test]
fn adapters_both_fail_out_of_range() {
    let content = known_content(300);
    let m = MemReader::new(content.clone());
    let mut c = CursorReader::new(content);
    let requests: Vec<(u64, usize)> = vec![(0, 301), (299, 2), (300, 1), (1000, 10), (301, 0)];
    for (offset, length) in requests {
        assert!(m.read(offset, length).is_err());
        assert!(c.read_at(offset, length).is_err());
    }
}

#[test]
fn zero_length_read_past_end_rejected_by_both() {
    let content = known_content(10);
    let m = MemReader::new(content.clone());
    let mut c = CursorReader::new(content);
    // Nothing is owed, but the offset still lies past the end, so both
    // adapters reject the request as out of bounds.
    assert_eq!(
        c.read_at(25, 0),
        Err(ReadError::OutOfBounds { offset: 25, length: 0, backend_len: 10 })
    );
    assert_eq!(
        m.read(25, 0),
        Err(ReadError::OutOfBounds { offset: 25, length: 0, backend_len: 10 })
    );
    // At the end itself the range is still in bounds: both succeed empty.
    assert_eq!(c.read_at(10, 0), Ok(Vec::new()));
    assert_eq!(m.read(10, 0), Ok(Vec::new()));
}

#[test]
fn len_is_stable_for_pinned_buffer() {
    let m = MemReader::new(known_content(123));
    let first = m.len();
    for _ in 0..10 {
        assert_eq!(m.len(), first);
    }
    for offset in [0u64, 1, 60, 122] {
        assert!(m.read(offset, (first - offset) as usize).is_ok());
    }
}

#[test]
fn read_into_fills_exactly_or_leaves_untouched() {
    let content = known_content(50);
    let m = MemReader::new(content.clone());
    let mut buf = vec![0u8; 20];
    assert_eq!(m.read_into(10, &mut buf), Ok(()));
    assert_eq!(buf, content[10..30].to_vec());
    let mut buf2 = vec![9u8; 20];
    assert_eq!(
        m.read_into(40, &mut buf2),
        Err(ReadError::OutOfBounds { offset: 40, length: 20, backend_len: 50 })
    );
    assert_eq!(buf2, vec![9u8; 20]);
}

#[test]
fn short_read_reports_bytes_delivered() {
    let content = known_content(30);
    let mut c = CursorReader::new(content);
    assert_eq!(
        c.read_at(20, 15),
        Err(ReadError::ShortRead { offset: 20, length: 15, filled: 10 })
    );
    // Past the end nothing at all is available.
    assert_eq!(
        c.read_at(31, 4),
        Err(ReadError::ShortRead { offset: 31, length: 4, filled: 0 })
    );
}

#[test]
fn length_query_by_seeking_moves_the_position() {
    let content = known_content(40);
    let mut c = CursorReader::new(content.clone());
    assert_eq!(c.len_via_seek(), 40);
    assert_eq!(c.len_via_seek(), 40);
    // Each read re-establishes its own offset, so reads still succeed.
    assert_eq!(c.read_at(0, 40).unwrap(), content);
}
