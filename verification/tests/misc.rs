use unix::env_::Environ;
use unix::err;
use unix::mem::{file_segment, mapped, prot, Segment, MAX_MAPPED, PROT_EXEC, PROT_READ, PROT_WRITE};
use unix::file::FilePermission;
use unix::poll::{poll_timeout, Event, Poll, POLLERR, POLLHUP, POLLIN, POLLOUT, POLLPRI};
use unix::process::{
    forked, WaitCode, WaitFlags, WaitInfo, WaitSpec, CLD_EXITED, P_ALL, P_PGID, P_PID, WCONTINUED,
    WEXITED, WNOHANG, WNOWAIT, WSTOPPED,
};
use unix::random::{EntropyError, Fill, OsRandom, GRND_NONBLOCK};
use unix::signal::{masked, send, How};
use unix::str::OsStr;
use unix::time::{to_timespec, EpochTime};
use unix::util::try_to_usize;
use unix::File;

#[test]
fn try_to_usize_keeps_what_fits() {
    assert_eq!(try_to_usize(0), Ok(0));
    assert_eq!(try_to_usize(12345), Ok(12345));
    assert_eq!(try_to_usize(usize::MAX as u64), Ok(usize::MAX));
}

#[test]
fn os_str_from_bytes() {
    let s = OsStr::from_bytes(b"abc\0");
    assert_eq!(s.len(), 3);
    assert_eq!(s.as_bytes_with_nul(), b"abc\0");
    assert_eq!(s.as_bytes(), b"abc");
    assert_eq!(s.byte(0), b'a');
    assert_eq!(s.byte(2), b'c');
    let e = OsStr::from_bytes(b"\0");
    assert_eq!(e.len(), 0);
    assert_eq!(e.as_bytes(), b"");
    let inner = OsStr::from_bytes(b"a\0b\0");
    assert_eq!(inner.len(), 3);
}

#[test]
fn os_str_from_mut_bytes() {
    let s = OsStr::from_mut_bytes(b"path/to\0".to_vec());
    assert_eq!(s.len(), 7);
    assert_eq!(s.into_bytes_with_nul(), b"path/to\0");
}

#[test]
fn os_str_needs_a_terminator() {
    assert!(OsStr::try_from_bytes(b"abc").is_none());
    assert!(OsStr::try_from_bytes(b"").is_none());
    assert!(OsStr::try_from_bytes(b"abc\0d").is_none());
    assert_eq!(OsStr::try_from_bytes(b"abc\0").unwrap().len(), 3);
    assert_eq!(OsStr::try_from_mut_bytes(b"abc".to_vec()).unwrap_err(), b"abc");
    assert_eq!(OsStr::try_from_mut_bytes(Vec::new()).unwrap_err(), b"");
    assert_eq!(OsStr::try_from_mut_bytes(b"x\0".to_vec()).unwrap().as_bytes_with_nul(), b"x\0");
}

#[test]
fn epoch_time_round_trip() {
    assert_eq!(EpochTime::from_ns_since_epoch(42).to_ns_since_epoch(), 42);
    assert_eq!(EpochTime::from_ns_since_epoch(-42).to_ns_since_epoch(), -42);
    assert_eq!(EpochTime::from_ns_since_epoch(i128::MAX).to_ns_since_epoch(), i128::MAX);
}

#[test]
fn epoch_time_from_seconds_and_nanoseconds() {
    assert_eq!(EpochTime::from_s_ns(0, 0).to_ns_since_epoch(), 0);
    assert_eq!(EpochTime::from_s_ns(3, 7).to_ns_since_epoch(), 3_000_000_007);
    assert_eq!(EpochTime::from_s_ns(-3, 7).to_ns_since_epoch(), -2_999_999_993);
    assert_eq!(
        EpochTime::from_s_ns(i64::MAX, i64::MAX).to_ns_since_epoch(),
        1_000_000_000 * (i64::MAX as i128) + i64::MAX as i128
    );
    assert_eq!(
        EpochTime::from_s_ns(i64::MIN, i64::MIN).to_ns_since_epoch(),
        1_000_000_000 * (i64::MIN as i128) + i64::MIN as i128
    );
}

#[test]
fn epoch_time_arithmetic() {
    let t = EpochTime::from_ns_since_epoch(100);
    assert_eq!(t.add_ns(5).to_ns_since_epoch(), 105);
    assert_eq!(t.sub_ns(500).to_ns_since_epoch(), -400);
    assert_eq!(t.since(EpochTime::from_ns_since_epoch(30)), 70);
    assert_eq!(EpochTime::from_ns_since_epoch(30).since(t), -70);
    assert!(EpochTime::from_ns_since_epoch(1) < EpochTime::from_ns_since_epoch(2));
}

#[test]
fn timespec_of_a_span() {
    assert_eq!(to_timespec(0), Some((0, 0)));
    assert_eq!(to_timespec(1_500_000_000), Some((1, 500_000_000)));
    assert_eq!(to_timespec(999_999_999), Some((0, 999_999_999)));
    assert_eq!(to_timespec(-1), Some((0, -1)));
    assert_eq!(to_timespec(-1_500_000_000), Some((-1, -500_000_000)));
    let max = (i64::MAX as i128) * 1_000_000_000 + 999_999_999;
    assert_eq!(to_timespec(max), Some((i64::MAX, 999_999_999)));
    assert_eq!(to_timespec(max + 1), None);
    assert_eq!(to_timespec(i128::MAX), None);
    assert_eq!(to_timespec(i128::MIN), None);
    let min = (i64::MIN as i128) * 1_000_000_000 - 999_999_999;
    assert_eq!(to_timespec(min), Some((i64::MIN, -999_999_999)));
    assert_eq!(to_timespec(min - 1), None);
}

#[test]
fn poll_timeout_out_of_range() {
    assert_eq!(poll_timeout(None), Ok(None));
    assert_eq!(poll_timeout(Some(2_000_000_001)), Ok(Some((2, 1))));
    assert_eq!(poll_timeout(Some(i128::MAX)).unwrap_err().code(), err::ERANGE);
}

#[test]
fn poll_starts_with_nothing_ready() {
    let f = File::new_unchecked(4);
    let p = Poll::new(&f, Event::input() | Event::hang_up());
    assert_eq!(p.fd, 4);
    assert_eq!(p.fd(), 4);
    assert_eq!(p.ev.bits(), 0x11);
    assert_eq!(p.ev().bits(), 0x11);
    assert_eq!(p.ready().bits(), 0);
    let q = Poll::answered(4, Event::input(), Event::hang_up());
    assert_eq!(q.ready().bits(), 0x10);
}

#[test]
fn poll_events_are_those_of_the_platform() {
    assert_eq!(POLLIN, libc_interface::POLLIN);
    assert_eq!(POLLPRI, libc_interface::POLLPRI);
    assert_eq!(POLLOUT, libc_interface::POLLOUT);
    assert_eq!(POLLERR, libc_interface::POLLERR);
    assert_eq!(POLLHUP, libc_interface::POLLHUP);
    assert_eq!(Event::input().bits(), 1);
    assert_eq!(Event::priority().bits(), 2);
    assert_eq!(Event::output().bits(), 4);
    assert_eq!(Event::error().bits(), 8);
    assert_eq!(Event::hang_up().bits(), 16);
    assert_eq!(Event::all().bits(), 31);
    assert!(Event::from_bits(32).is_none());
    assert!(Event::from_bits(-1).is_none());
    assert_eq!(Event::from_bits_truncate(-1).bits(), 31);
}

#[test]
fn wait_arguments() {
    assert_eq!(WaitSpec::Pid(12).to_wait_args(), (1, 12));
    assert_eq!(WaitSpec::Gid(7).to_wait_args(), (2, 7));
    assert_eq!(WaitSpec::All.to_wait_args().0, 0);
    assert_eq!(P_ALL, libc_interface::P_ALL as u32);
    assert_eq!(P_PID, libc_interface::P_PID as u32);
    assert_eq!(P_PGID, libc_interface::P_PGID as u32);
}

#[test]
fn wait_flags_are_those_of_the_platform() {
    assert_eq!(WEXITED, libc_interface::WEXITED as usize);
    assert_eq!(WSTOPPED, libc_interface::WSTOPPED as usize);
    assert_eq!(WCONTINUED, libc_interface::WCONTINUED as usize);
    assert_eq!(WNOHANG, libc_interface::WNOHANG as usize);
    assert_eq!(WNOWAIT, libc_interface::WNOWAIT as usize);
    assert_eq!((WaitFlags::exit() | WaitFlags::no_hang()).bits(), 5);
    assert_eq!(WaitFlags::stop().bits(), 2);
    assert_eq!(WaitFlags::cont().bits(), 8);
    assert_eq!(WaitFlags::no_wait().bits(), 0x01000000);
}

#[test]
fn wait_outcome() {
    let w = WaitSpec::All.wait(0, 55, CLD_EXITED, 3).unwrap();
    assert_eq!(w, WaitInfo { pid: 55, code: WaitCode(1), status: 3 });
    assert_eq!(WaitSpec::All.wait(0, 0, 0, 0).unwrap_err().code(), err::EWOULDBLOCK);
    assert_eq!(WaitSpec::Pid(1).wait(-10, 0, 0, 0).unwrap_err().code(), err::ECHILD);
    assert_eq!(WaitSpec::Pid(1).wait(-10, 55, 1, 0).unwrap_err().code(), err::ECHILD);
    assert_eq!(WaitInfo::from_c(9, 2, -1), WaitInfo { pid: 9, code: WaitCode(2), status: -1 });
}

#[test]
fn fork_outcome() {
    assert_eq!(forked(0), Ok(0));
    assert_eq!(forked(4321), Ok(4321));
    assert_eq!(forked(-11).unwrap_err().code(), err::EAGAIN);
}

#[test]
fn protection_word_of_a_permission() {
    assert_eq!(PROT_READ, libc_interface::PROT_READ as usize);
    assert_eq!(PROT_WRITE, libc_interface::PROT_WRITE as usize);
    assert_eq!(PROT_EXEC, libc_interface::PROT_EXEC as usize);
    assert_eq!(prot(FilePermission::empty()), 0);
    assert_eq!(prot(FilePermission::read()), 1);
    assert_eq!(prot(FilePermission::write()), 2);
    assert_eq!(prot(FilePermission::exec()), 4);
    assert_eq!(prot(FilePermission::read() | FilePermission::exec()), 5);
    assert_eq!(prot(FilePermission::all()), 7);
}

#[test]
fn segment_defaults_to_the_whole_file() {
    let s = Segment { offset: 4096, length: 100 };
    assert_eq!(file_segment(Some(s), 7), Ok(s));
    assert_eq!(file_segment(Some(s), -1), Ok(s));
    assert_eq!(file_segment(None, 7), Ok(Segment { offset: 0, length: 7 }));
    assert_eq!(file_segment(None, 0), Ok(Segment { offset: 0, length: 0 }));
    assert_eq!(file_segment(None, -1).unwrap_err().code(), err::EOVERFLOW);
}

#[test]
fn mapping_outcome() {
    assert_eq!(MAX_MAPPED, usize::MAX - 4095);
    assert_eq!(mapped(0x7000_0000), Ok(0x7000_0000));
    assert_eq!(mapped(MAX_MAPPED), Ok(MAX_MAPPED));
    assert_eq!(mapped(usize::MAX).unwrap_err().code(), 1);
    assert_eq!(mapped((-12isize) as usize).unwrap_err().code(), err::ENOMEM);
    assert_eq!(mapped(MAX_MAPPED + 1).unwrap_err().code(), 4095);
}

#[test]
fn entropy_flags() {
    assert_eq!(GRND_NONBLOCK, libc_interface::GRND_NONBLOCK as usize);
    assert_eq!(OsRandom::flags(true), 0);
    assert_eq!(OsRandom::flags(false), 1);
}

#[test]
fn entropy_fill_moves_the_window_on() {
    let r = OsRandom::new();
    assert_eq!(r.begin(0), Fill::Done);
    assert_eq!(r.begin(16), Fill::Call { offset: 0, len: 16 });
    assert_eq!(r.answer(0, 16, 16), Fill::Done);
    assert_eq!(r.answer(0, 16, 10), Fill::Call { offset: 10, len: 6 });
    assert_eq!(r.answer(10, 6, 6), Fill::Done);
    assert_eq!(r.answer(10, 6, 1), Fill::Call { offset: 11, len: 5 });
    assert_eq!(r.answer(10, 6, 0), Fill::Call { offset: 10, len: 6 });
    assert_eq!(r.answer(10, 6, 7), Fill::Done);
}

#[test]
fn entropy_interrupt_is_retried() {
    let r = OsRandom::new();
    assert_eq!(r.answer(3, 13, -4), Fill::Call { offset: 3, len: 13 });
}

#[test]
fn entropy_failures_are_fatal() {
    let r = OsRandom::new();
    assert_eq!(r.answer(0, 16, -38), Fill::Failed(EntropyError::Unavailable));
    assert_eq!(r.answer(0, 16, -11), Fill::Failed(EntropyError::NotReady));
    match r.answer(0, 16, -14) {
        Fill::Failed(EntropyError::Unexpected(e)) => {
            assert_eq!(e.code(), err::EFAULT);
            assert_eq!(e.message(), "Bad address");
        }
        f => panic!("unexpected {:?}", f),
    }
}

#[test]
fn signal_words() {
    assert_eq!(How::Block.word(), libc_interface::SIG_BLOCK);
    assert_eq!(How::Unblock.word(), libc_interface::SIG_UNBLOCK);
    assert_eq!(How::SetMask.word(), libc_interface::SIG_SETMASK);
    assert_eq!(send(0), Ok(()));
    assert_eq!(send(-3).unwrap_err().code(), err::ESRCH);
    assert_eq!(masked(0), Ok(()));
    assert_eq!(masked(22).unwrap_err().code(), err::EINVAL);
}

fn environ(entries: &[&[u8]]) -> Environ {
    Environ::new(entries.iter().map(|e| e.to_vec()).collect())
}

#[test]
fn environ_get() {
    let env = environ(&[b"HOME=/root", b"EMPTY=", b"FLAG", b"A=b=c", b"HOME=/second"]);
    assert_eq!(env.get(b"HOME"), Some(Some(&b"/root"[..])));
    assert_eq!(env.get(b"EMPTY"), Some(Some(&b""[..])));
    assert_eq!(env.get(b"FLAG"), Some(None));
    assert_eq!(env.get(b"A"), Some(Some(&b"b=c"[..])));
    assert_eq!(env.get(b"HOM"), None);
    assert_eq!(env.get(b"HOME="), None);
    assert_eq!(env.get(b""), None);
}

#[test]
fn environ_with_empty_keys() {
    let env = environ(&[b"=x", b""]);
    assert_eq!(env.get(b""), Some(Some(&b"x"[..])));
    let env = environ(&[b"", b"=x"]);
    assert_eq!(env.get(b""), Some(None));
    assert_eq!(environ(&[]).get(b"PATH"), None);
}

#[test]
fn timespec_agrees_with_the_time_crate() {
    let spans = [
        0i128,
        1,
        -1,
        999_999_999,
        1_000_000_000,
        -1_000_000_001,
        123_456_789_012_345_678,
        (i64::MAX as i128) * 1_000_000_000 + 999_999_999,
        (i64::MAX as i128) * 1_000_000_000 + 1_000_000_000,
        (i64::MIN as i128) * 1_000_000_000 - 999_999_999,
        (i64::MIN as i128) * 1_000_000_000 - 1_000_000_000,
        i128::MAX,
        i128::MIN,
    ];
    for ns in spans {
        let theirs = time::Span::from_ns(ns).to_c_timespec().map(|t| (t.tv_sec, t.tv_nsec as i64));
        assert_eq!(to_timespec(ns), theirs);
    }
}

#[test]
fn epoch_time_agrees_with_the_time_crate() {
    for (s, ns) in [(0i64, 0i64), (1, 1), (-5, 7), (i64::MAX, 999_999_999), (i64::MIN, 0)] {
        let theirs = time::Span::from(libc_interface::timespec { tv_sec: s, tv_nsec: ns as isize }).to_ns();
        assert_eq!(EpochTime::from_s_ns(s, ns).to_ns_since_epoch(), theirs);
    }
}
