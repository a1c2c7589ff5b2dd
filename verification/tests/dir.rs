use unix::dir::{parse_record, Entries, BUF_LEN, HDR_LEN};
use unix::err;
use unix::File;

fn record(ino: u64, off: u64, len: u16, name: &[u8], typ: u8) -> Vec<u8> {
    let mut r = Vec::new();
    r.extend_from_slice(&ino.to_le_bytes());
    r.extend_from_slice(&off.to_le_bytes());
    r.extend_from_slice(&len.to_le_bytes());
    r.extend_from_slice(name);
    while r.len() < len as usize - 1 {
        r.push(0);
    }
    r.push(typ);
    r
}

fn reader() -> Entries {
    Entries::try_from(File::new_unchecked(3)).unwrap()
}

#[test]
fn fresh_reader_is_exhausted() {
    let mut e = reader();
    assert!(e.exhausted());
    assert_eq!(e.file().fd(), 3);
    assert!(matches!(e.next(), Ok(None)));
}

#[test]
fn header_is_eighteen_bytes_and_buffer_is_4088() {
    assert_eq!(HDR_LEN, 18);
    assert_eq!(BUF_LEN, 4088);
}

#[test]
fn parse_one_record() {
    // 18 bytes of header, 5 of name, the closing byte, the type byte.
    let r = record(0x0102030405060708, 25, 25, b"hello", 8);
    assert_eq!(r.len(), 25);
    let (entry, next) = parse_record(&r, 0, r.len()).unwrap();
    assert_eq!(entry.ino, 0x0102030405060708);
    assert_eq!(entry.typ, 8);
    assert_eq!(entry.name, b"hello");
    assert_eq!(next, 25);
}

#[test]
fn name_length_is_record_length_less_header_less_two() {
    let r = record(1, 32, 32, b"ab", 4);
    let (entry, next) = parse_record(&r, 0, 32).unwrap();
    assert_eq!(entry.name.len(), 32 - 2 - 18);
    assert_eq!(&entry.name[..2], b"ab");
    assert_eq!(entry.name[2..], [0u8; 10]);
    assert_eq!(entry.typ, 4);
    assert_eq!(next, 32);
}

#[test]
fn shortest_record_has_an_empty_name() {
    let r = record(7, 20, 20, b"", 1);
    let (entry, next) = parse_record(&r, 0, 20).unwrap();
    assert_eq!(entry.name, b"");
    assert_eq!(entry.typ, 1);
    assert_eq!(entry.ino, 7);
    assert_eq!(next, 20);
}

#[test]
fn enumeration_yields_every_record_in_buffer_order() {
    let mut data = Vec::new();
    data.extend(record(10, 24, 24, b"a", 4));
    data.extend(record(11, 32, 32, b"second", 8));
    data.extend(record(12, 21, 21, b"c", 10));
    let n = data.len();
    data.resize(BUF_LEN, 0xAA);
    let mut e = reader();
    assert_eq!(e.refill(n as isize, &data), Ok(true));
    assert!(!e.exhausted());
    {
        let x = e.next().unwrap().unwrap();
        assert_eq!((x.ino, x.typ, &x.name[..1]), (10, 4, &b"a"[..]));
    }
    {
        let x = e.next().unwrap().unwrap();
        assert_eq!((x.ino, x.typ, &x.name[..6]), (11, 8, &b"second"[..]));
    }
    {
        let x = e.next().unwrap().unwrap();
        assert_eq!((x.ino, x.typ, x.name), (12, 10, &b"c"[..]));
    }
    assert!(e.exhausted());
    assert!(matches!(e.next(), Ok(None)));
    // A zero-byte refill ends the enumeration cleanly.
    assert_eq!(e.refill(0, &data), Ok(false));
    assert!(e.exhausted());
    assert!(matches!(e.next(), Ok(None)));
}

#[test]
fn drain_gives_exactly_the_buffered_entries() {
    let mut data = Vec::new();
    for i in 0..100u64 {
        data.extend(record(i, 22, 22, &[b'a' + (i % 26) as u8, b'z'], (i % 7) as u8));
    }
    let n = data.len();
    let mut e = reader();
    assert_eq!(e.refill(n as isize, &data), Ok(true));
    let all = e.drain().unwrap();
    assert_eq!(all.len(), 100);
    for (i, x) in all.iter().enumerate() {
        assert_eq!(x.ino, i as u64);
        assert_eq!(x.typ, (i % 7) as u8);
        assert_eq!(x.name, &[b'a' + (i % 26) as u8, b'z'][..]);
    }
}

#[test]
fn drain_after_some_entries_gives_the_rest() {
    let mut data = Vec::new();
    data.extend(record(1, 21, 21, b"x", 1));
    data.extend(record(2, 21, 21, b"y", 2));
    data.extend(record(3, 21, 21, b"z", 3));
    let mut e = reader();
    assert_eq!(e.refill(63, &data), Ok(true));
    assert_eq!(e.next().unwrap().unwrap().ino, 1);
    let rest = e.drain().unwrap();
    assert_eq!(rest.len(), 2);
    assert_eq!(rest[0].name, b"y");
    assert_eq!(rest[1].name, b"z");
}

#[test]
fn offset_past_the_valid_bytes_is_detected() {
    let mut data = record(1, 26, 25, b"hello", 8);
    data.resize(100, 0xFF);
    let mut e = reader();
    assert_eq!(e.refill(25, &data), Ok(true));
    let r = e.next();
    assert_eq!(r.unwrap_err().code(), err::EIO);
    // The reader did not move.
    assert!(!e.exhausted());
    assert_eq!(e.next().unwrap_err().code(), err::EIO);
    assert_eq!(e.drain().unwrap_err().code(), err::EIO);
}

#[test]
fn huge_offset_is_detected() {
    let data = record(1, u64::MAX, 25, b"hello", 8);
    assert_eq!(parse_record(&data, 0, 25).unwrap_err().code(), err::EIO);
    let data = record(1, 1 << 63, 25, b"hello", 8);
    assert_eq!(parse_record(&data, 0, 25).unwrap_err().code(), err::EIO);
}

#[test]
fn offset_of_zero_is_detected() {
    let data = record(1, 0, 25, b"hello", 8);
    assert_eq!(parse_record(&data, 0, 25).unwrap_err().code(), err::EIO);
}

#[test]
fn record_longer_than_the_valid_bytes_is_detected() {
    let data = record(1, 25, 26, b"hello", 8);
    assert_eq!(parse_record(&data, 0, 25).unwrap_err().code(), err::EIO);
    assert!(parse_record(&data, 0, 26).is_ok());
}

#[test]
fn record_shorter_than_header_and_tail_is_detected() {
    let mut data = record(1, 25, 25, b"hello", 8);
    data[16] = 19;
    data[17] = 0;
    assert_eq!(parse_record(&data, 0, 25).unwrap_err().code(), err::EIO);
    data[16] = 20;
    assert!(parse_record(&data, 0, 25).is_ok());
}

#[test]
fn truncated_header_is_detected() {
    let data = record(1, 25, 25, b"hello", 8);
    assert_eq!(parse_record(&data, 0, 17).unwrap_err().code(), err::EIO);
    assert_eq!(parse_record(&data, 8, 25).unwrap_err().code(), err::EIO);
    assert_eq!(parse_record(&data, 0, 26).unwrap_err().code(), err::EIO);
    assert_eq!(parse_record(&data, 30, 25).unwrap_err().code(), err::EIO);
}

#[test]
fn second_record_corrupt_first_still_read() {
    let mut data = Vec::new();
    data.extend(record(1, 21, 21, b"x", 1));
    data.extend(record(2, 500, 21, b"y", 2));
    let mut e = reader();
    assert_eq!(e.refill(42, &data), Ok(true));
    assert_eq!(e.next().unwrap().unwrap().ino, 1);
    assert_eq!(e.next().unwrap_err().code(), err::EIO);
}

#[test]
fn refill_error_is_surfaced() {
    let mut e = reader();
    let data = [0u8; 16];
    assert_eq!(e.refill(-9, &data).unwrap_err().code(), err::EBADF);
    assert_eq!(e.refill(-20, &data).unwrap_err().code(), err::ENOTDIR);
    assert_eq!(e.refill(-4, &data).unwrap_err().code(), err::EINTR);
    assert!(e.exhausted());
}

#[test]
fn refill_count_beyond_the_data_is_refused() {
    let mut e = reader();
    let data = [0u8; 16];
    assert_eq!(e.refill(17, &data).unwrap_err().code(), err::EIO);
    let big = vec![0u8; BUF_LEN + 8];
    assert_eq!(e.refill(BUF_LEN as isize + 1, &big).unwrap_err().code(), err::EIO);
    assert!(e.exhausted());
}

#[test]
fn refill_replaces_what_was_buffered() {
    let first = record(1, 21, 21, b"x", 1);
    let second = record(2, 22, 22, b"yy", 2);
    let mut e = reader();
    assert_eq!(e.refill(21, &first), Ok(true));
    assert_eq!(e.next().unwrap().unwrap().name, b"x");
    assert!(e.exhausted());
    assert_eq!(e.refill(22, &second), Ok(true));
    let x = e.next().unwrap().unwrap();
    assert_eq!((x.ino, x.name), (2, &b"yy"[..]));
    assert!(e.exhausted());
}

#[test]
fn offset_may_skip_bytes_between_records() {
    let mut data = record(1, 30, 21, b"x", 1);
    data.resize(30, 0);
    data.extend(record(2, 21, 21, b"y", 2));
    let mut e = reader();
    assert_eq!(e.refill(51, &data), Ok(true));
    let all = e.drain().unwrap();
    assert_eq!(all.len(), 2);
    assert_eq!(all[1].ino, 2);
}
