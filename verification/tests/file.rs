use unix::err;
use unix::file::flags::{
    AT_FLAGS_MASK, MODE_MASK, OPEN_FLAGS_MASK, O_CLOEXEC, O_CREAT, O_EXCL, O_NOCTTY, O_NONBLOCK,
    O_RDONLY, O_RDWR, O_WRONLY, PERM_MASK, S_ISGID, S_ISUID, S_ISVTX,
};
use unix::file::{
    chmod_at_flags, done, from_opt_dir, link_at_flags, open_at_words, opened, stat_at_flags,
    AtFlags, Clobber, File, FileMode, FileModeSection, FilePermission, OpenFlags, OpenMode,
    RawStat, Stat, AT_EMPTY_PATH, AT_FDCWD, AT_SYMLINK_NOFOLLOW,
};
use unix::file::flags::AT_SYMLINK_FOLLOW;

#[test]
fn constants_are_those_of_the_platform() {
    assert_eq!(AT_FDCWD, libc_interface::AT_FDCWD as isize);
    assert_eq!(AT_SYMLINK_NOFOLLOW, libc_interface::AT_SYMLINK_NOFOLLOW as usize);
    assert_eq!(AT_SYMLINK_FOLLOW, libc_interface::AT_SYMLINK_FOLLOW as usize);
    assert_eq!(AT_EMPTY_PATH, libc_interface::AT_EMPTY_PATH as usize);
    assert_eq!(O_RDONLY, libc_interface::O_RDONLY as usize);
    assert_eq!(O_WRONLY, libc_interface::O_WRONLY as usize);
    assert_eq!(O_RDWR, libc_interface::O_RDWR as usize);
    assert_eq!(O_CREAT, libc_interface::O_CREAT as usize);
    assert_eq!(O_EXCL, libc_interface::O_EXCL as usize);
    assert_eq!(O_NOCTTY, libc_interface::O_NOCTTY as usize);
    assert_eq!(O_NONBLOCK, libc_interface::O_NONBLOCK as usize);
    assert_eq!(O_CLOEXEC, libc_interface::O_CLOEXEC as usize);
    assert_eq!(S_ISUID, libc_interface::S_ISUID as u16);
    assert_eq!(S_ISGID, libc_interface::S_ISGID as u16);
    assert_eq!(S_ISVTX, libc_interface::S_ISVTX as u16);
    assert_eq!(err::EEXIST, libc_interface::EEXIST as usize);
    assert_eq!(err::ENOENT, libc_interface::ENOENT as usize);
    assert_eq!(err::EIO, libc_interface::EIO as usize);
    assert_eq!(err::EINTR, libc_interface::EINTR as usize);
    assert_eq!(err::EAGAIN, libc_interface::EAGAIN as usize);
    assert_eq!(err::ENOSYS, libc_interface::ENOSYS as usize);
    assert_eq!(err::ENOMEM, libc_interface::ENOMEM as usize);
    assert_eq!(err::ERANGE, libc_interface::ERANGE as usize);
    assert_eq!(err::EOVERFLOW, libc_interface::EOVERFLOW as usize);
    assert_eq!(err::EWOULDBLOCK, libc_interface::EWOULDBLOCK as usize);
}

#[test]
fn file_keeps_its_descriptor() {
    assert_eq!(File::new_unchecked(5).fd(), 5);
    assert_eq!(File::new(5, 0).unwrap().fd(), 5);
    assert_eq!(File::new(5, 1).unwrap().fd(), 5);
    assert!(File::new(5, -9).is_none());
}

#[test]
fn directory_descriptor_or_current_directory() {
    assert_eq!(from_opt_dir(None), -100);
    let dir = File::new_unchecked(11);
    assert_eq!(from_opt_dir(Some(&dir)), 11);
}

#[test]
fn truncate_length_must_fit_a_word() {
    let f = File::new_unchecked(3);
    assert_eq!(f.truncate(0), Ok(0));
    assert_eq!(f.truncate(4096), Ok(4096));
    assert_eq!(f.truncate(usize::MAX as u64), Ok(usize::MAX));
}

#[test]
fn done_maps_the_return_word() {
    assert_eq!(done(0), Ok(()));
    assert_eq!(done(3), Ok(()));
    assert_eq!(done(-2).unwrap_err().code(), err::ENOENT);
}

#[test]
fn opened_gives_the_descriptor() {
    assert_eq!(opened(4).unwrap().fd(), 4);
    assert_eq!(opened(0).unwrap().fd(), 0);
    assert_eq!(opened(-17).unwrap_err().code(), err::EEXIST);
}

#[test]
fn open_words_add_creation_only_with_a_mode() {
    assert_eq!(open_at_words(OpenMode::rd_only(), None), (0, None));
    assert_eq!(open_at_words(OpenMode::wr_only(), None), (1, None));
    let m = FileMode::from_bits(0o644).unwrap();
    assert_eq!(open_at_words(OpenMode::rd_wr(), Some(m)), (0o102, Some(0o644)));
    let o = OpenMode::wr_only() | OpenFlags::excl() | OpenFlags::cloexec();
    assert_eq!(open_at_words(o, Some(m)), (0o2000301, Some(0o644)));
}

#[test]
fn path_flag_words() {
    let follow = AtFlags::follow();
    let none = AtFlags::empty();
    assert_eq!(link_at_flags(follow), 0x1400);
    assert_eq!(link_at_flags(none), 0x1000);
    assert_eq!(chmod_at_flags(follow), 0);
    assert_eq!(chmod_at_flags(none), 0x100);
    assert_eq!(stat_at_flags(follow), 0x1000);
    assert_eq!(stat_at_flags(none), 0x1100);
}

#[test]
fn masks() {
    assert_eq!(MODE_MASK, 0o7777);
    assert_eq!(PERM_MASK, 7);
    assert_eq!(OPEN_FLAGS_MASK, 0o2004600);
    assert_eq!(AT_FLAGS_MASK, 0x400);
}

#[test]
fn file_mode_bits() {
    assert_eq!(FileMode::empty().bits(), 0);
    assert_eq!(FileMode::all().bits(), 0o7777);
    assert_eq!(FileMode::suid().bits(), 0o4000);
    assert_eq!(FileMode::sgid().bits(), 0o2000);
    assert_eq!(FileMode::svtx().bits(), 0o1000);
    assert_eq!(FileMode::rwx_all().bits(), 0o777);
    assert_eq!(FileMode::from_bits(0o640).unwrap().bits(), 0o640);
    assert!(FileMode::from_bits(0o10000).is_none());
    assert!(FileMode::from_bits(0o100644).is_none());
    assert_eq!(FileMode::from_bits_truncate(0o100644).bits(), 0o644);
    assert_eq!((FileMode::suid() | FileMode::svtx()).bits(), 0o5000);
    assert_eq!(FileMode::suid().union(FileMode::rwx_all()).bits(), 0o4777);
    assert!(FileMode::all().contains(FileMode::sgid()));
    assert!(!FileMode::sgid().contains(FileMode::all()));
    assert!(FileMode::empty().is_empty());
    assert!(!FileMode::svtx().is_empty());
}

#[test]
fn permission_shifted_into_a_section() {
    let rw = FilePermission::read() | FilePermission::write();
    assert_eq!(rw.bits(), 6);
    assert_eq!((rw << FileModeSection::USR).bits(), 0o600);
    assert_eq!((rw << FileModeSection::GRP).bits(), 0o060);
    assert_eq!((rw << FileModeSection::OTH).bits(), 0o006);
    assert_eq!((FilePermission::all() << FileModeSection::USR).bits(), 0o700);
    assert_eq!((FilePermission::exec() << FileModeSection::GRP).bits(), 0o010);
    assert_eq!((FilePermission::empty() << FileModeSection::USR).bits(), 0);
    assert_eq!(FileModeSection::USR.pos(), 6);
    assert_eq!(FileModeSection::GRP.pos(), 3);
    assert_eq!(FileModeSection::OTH.pos(), 0);
}

#[test]
fn permission_read_out_of_a_section() {
    let m = FileMode::from_bits(0o751).unwrap();
    assert_eq!((m >> FileModeSection::USR).bits(), 3);
    assert_eq!((m >> FileModeSection::GRP).bits(), 1);
    assert_eq!((m >> FileModeSection::OTH).bits(), 1);
    let m = FileMode::from_bits(0o4640).unwrap();
    assert_eq!((m >> FileModeSection::USR).bits(), 2);
    assert_eq!((m >> FileModeSection::GRP).bits(), 0);
    assert_eq!((m >> FileModeSection::OTH).bits(), 0);
}

#[test]
fn open_mode_operators() {
    assert_eq!(OpenMode::rd_only().bits(), 0);
    assert_eq!(OpenMode::wr_only().bits(), 1);
    assert_eq!(OpenMode::rd_wr().bits(), 2);
    let m = OpenMode::rd_wr() | OpenFlags::excl();
    assert_eq!(m.bits(), 0o202);
    assert_eq!((m & OpenFlags::excl()).bits(), 0o200);
    assert_eq!((m ^ OpenFlags::excl()).bits(), 2);
    assert_eq!((m ^ OpenFlags::noctty()).bits(), 0o602);
    let mut n = OpenMode::wr_only();
    n.bitor_assign(OpenFlags::nonblock());
    assert_eq!(n.bits(), 0o4001);
    n.bitxor_assign(OpenFlags::all());
    assert_eq!(n.bits(), 0o2000601);
    n.bitand_assign(OpenFlags::cloexec());
    assert_eq!(n.bits(), 0o2000000);
}

#[test]
fn open_flags_bits() {
    assert_eq!(OpenFlags::cloexec().bits(), 0x80000);
    assert_eq!(OpenFlags::excl().bits(), 128);
    assert_eq!(OpenFlags::nonblock().bits(), 2048);
    assert_eq!(OpenFlags::noctty().bits(), 256);
    assert!(OpenFlags::from_bits(1).is_none());
    assert_eq!(OpenFlags::from_bits_truncate(0o301).bits(), 0o200);
    assert_eq!(AtFlags::follow().bits(), 0x400);
    assert!(AtFlags::from_bits(0x100).is_none());
}

#[test]
fn clobber_policies_differ() {
    assert_ne!(Clobber::NoClobber, Clobber::Clobber);
    assert_ne!(Clobber::Clobber, Clobber::ClobberSavingPerms);
}

#[test]
fn stat_from_the_numbers_of_the_kernel() {
    let raw = RawStat {
        dev: 2049,
        ino: 131,
        mode: 0o100640,
        nlink: 2,
        uid: 1000,
        gid: 100,
        size: 4096,
        blksize: 512,
        blocks: 8,
        atime: 1,
        atime_nsec: 2,
        mtime: -1,
        mtime_nsec: 999_999_999,
        ctime: 1_700_000_000,
        ctime_nsec: 5,
    };
    let s = Stat::from(raw);
    assert_eq!(s.dev, 2049);
    assert_eq!(s.ino, 131);
    assert_eq!(s.mode.bits(), 0o640);
    assert_eq!(s.nlink, 2);
    assert_eq!(s.uid, 1000);
    assert_eq!(s.gid, 100);
    assert_eq!(s.size, 4096);
    assert_eq!(s.blksize, 512);
    assert_eq!(s.blocks, 8);
    assert_eq!(s.atime.to_ns_since_epoch(), 1_000_000_002);
    assert_eq!(s.mtime.to_ns_since_epoch(), -1);
    assert_eq!(s.ctime.to_ns_since_epoch(), 1_700_000_000_000_000_005);
    let setuid = Stat::from(RawStat { mode: 0o104755, ..raw });
    assert_eq!(setuid.mode.bits(), 0o4755);
}
