use unix::err;
use rand::rngs::SmallRng;
use rand::{Rng, SeedableRng};
use unix::file::temp::{
    fill_name, mktemp_dir_mode, mktemp_words, name_in_template, randname, Mktemp, Verdict,
    NAME_BASE, TRIES,
};
use unix::str::OsStr;
use unix::file::OpenFlags;
use unix::Error;

fn name(n: u64, len: usize) -> Vec<u8> {
    let mut bs = vec![b' '; len];
    fill_name(n, &mut bs, 0, len);
    bs
}

#[test]
fn name_of_zero_is_all_a() {
    assert_eq!(name(0, 12), b"AAAAAAAAAAAA");
}

#[test]
fn name_digits_come_least_significant_first() {
    assert_eq!(NAME_BASE, 26);
    assert_eq!(name(1, 4), b"BAAA");
    assert_eq!(name(25, 4), b"ZAAA");
    assert_eq!(name(26, 4), b"ABAA");
    assert_eq!(name(27, 4), b"BBAA");
    assert_eq!(name(26 * 26 * 3 + 26 * 2 + 1, 4), b"BCDA");
}

#[test]
fn name_of_the_greatest_number() {
    // u64::MAX in base 26, least significant digit first, has 14 digits.
    let mut n = u64::MAX;
    let mut expected = Vec::new();
    for _ in 0..12 {
        expected.push(b'A' + (n % 26) as u8);
        n /= 26;
    }
    assert_eq!(name(u64::MAX, 12), expected);
    assert_eq!(name(u64::MAX, 12), b"PQMUYSXMZCXH");
}

#[test]
fn name_longer_than_the_number_is_padded_with_a() {
    let bs = name(27, 20);
    assert_eq!(&bs[..2], b"BB");
    assert!(bs[2..].iter().all(|&b| b == b'A'));
}

#[test]
fn name_is_always_upper_case() {
    for n in [0u64, 1, 12345678901234567890, u64::MAX, 26u64.pow(12) - 1, 26u64.pow(12)] {
        assert!(name(n, 12).iter().all(|b| (b'A'..=b'Z').contains(b)));
    }
    assert_eq!(name(26u64.pow(12) - 1, 12), b"ZZZZZZZZZZZZ");
    assert_eq!(name(26u64.pow(12), 12), b"AAAAAAAAAAAA");
}

#[test]
fn fill_name_leaves_the_rest_of_the_template() {
    let mut bs = b"tmp-      .dat\0".to_vec();
    fill_name(26 + 2, &mut bs, 4, 10);
    assert_eq!(bs, b"tmp-CBAAAA.dat\0");
    let mut bs = b"abc".to_vec();
    fill_name(5, &mut bs, 1, 1);
    assert_eq!(bs, b"abc");
}

#[test]
fn budget_is_256_tries() {
    assert_eq!(TRIES, 256);
}

#[test]
fn collisions_are_retried_until_the_budget_is_used_up() {
    let eexist = Error::new(err::EEXIST).unwrap();
    let mut m = Mktemp::new();
    let mut attempts = 0;
    loop {
        attempts += 1;
        match m.settle::<()>(Err(eexist)) {
            Verdict::Retry => {
                assert!(attempts < 256);
                assert_eq!(m.taken(), attempts);
            }
            Verdict::Return(r) => {
                assert_eq!(r.unwrap_err().code(), err::EEXIST);
                break;
            }
        }
    }
    assert_eq!(attempts, 256);
    assert_eq!(m.taken(), 256);
    // Nothing is tried after that.
    assert!(matches!(m.settle::<()>(Err(eexist)), Verdict::Return(Err(_))));
    assert_eq!(m.taken(), 256);
}

#[test]
fn success_is_returned_at_once() {
    let mut m = Mktemp::new();
    assert!(matches!(m.settle(Ok(5)), Verdict::Return(Ok(5))));
    assert_eq!(m.taken(), 0);
}

#[test]
fn other_errors_are_returned_at_once() {
    let mut m = Mktemp::new();
    let eacces = Error::new(err::EACCES).unwrap();
    match m.settle::<u8>(Err(eacces)) {
        Verdict::Return(Err(e)) => assert_eq!(e.code(), err::EACCES),
        _ => panic!("an error other than a collision is not retried"),
    }
    assert_eq!(m.taken(), 0);
}

#[test]
fn success_after_collisions() {
    let eexist = Error::new(err::EEXIST).unwrap();
    let mut m = Mktemp::new();
    for _ in 0..255 {
        assert!(matches!(m.settle::<u8>(Err(eexist)), Verdict::Retry));
    }
    assert!(matches!(m.settle(Ok(9u8)), Verdict::Return(Ok(9))));
    assert_eq!(m.taken(), 255);
}

#[test]
fn temporary_file_words() {
    assert_eq!(mktemp_words(OpenFlags::empty()), (0o302, 0o600));
    assert_eq!(mktemp_words(OpenFlags::cloexec()), (0o2000302, 0o600));
    assert_eq!(mktemp_dir_mode().bits(), 0o700);
}

#[test]
fn randname_writes_the_name_of_the_next_draw() {
    let mut rng = SmallRng::from_seed([5; 16]);
    let mut twin = SmallRng::from_seed([5; 16]);
    let mut bs = b"/tmp/------------.log\0".to_vec();
    randname(&mut rng, &mut bs, 5, 17);
    let n: u64 = twin.gen();
    let mut expected = b"/tmp/------------.log\0".to_vec();
    fill_name(n, &mut expected, 5, 17);
    assert_eq!(bs, expected);
    assert!(bs[5..17].iter().all(|b| (b'A'..=b'Z').contains(b)));
    assert_eq!(&bs[..5], b"/tmp/");
    assert_eq!(&bs[17..], b".log\0");
    // The generator has moved on.
    let mut again = bs.clone();
    randname(&mut rng, &mut again, 5, 17);
    assert_ne!(again, bs);
}

#[test]
fn name_in_template_keeps_the_terminator() {
    let templ = OsStr::from_bytes(b"x-....\0");
    let path = name_in_template(templ, 2, 6, 1 + 26 * 2);
    assert_eq!(path.as_bytes_with_nul(), b"x-BCAA\0");
    let whole = name_in_template(OsStr::from_bytes(b"abc\0"), 0, 3, 0);
    assert_eq!(whole.as_bytes_with_nul(), b"AAA\0");
    let none = name_in_template(OsStr::from_bytes(b"abc\0"), 3, 3, 77);
    assert_eq!(none.as_bytes_with_nul(), b"abc\0");
}
