use unix::err;
use unix::Error;

#[test]
fn from_sysret_zero_is_success() {
    assert_eq!(Error::from_sysret(0), Ok(0));
}

#[test]
fn from_sysret_positive_is_carried_over() {
    assert_eq!(Error::from_sysret(4088), Ok(4088));
    assert_eq!(Error::from_sysret(isize::MAX), Ok(isize::MAX as usize));
}

#[test]
fn from_sysret_negative_is_the_negated_number() {
    let e = Error::from_sysret(-17).unwrap_err();
    assert_eq!(e.code(), 17);
    assert_eq!(e.code(), err::EEXIST);
    assert!(e.is(err::EEXIST));
    assert_eq!(Error::from_sysret(-1).unwrap_err().code(), err::EPERM);
}

#[test]
fn from_sysret_most_negative_word() {
    let e = Error::from_sysret(isize::MIN).unwrap_err();
    assert_eq!(e.code(), (isize::MAX as usize) + 1);
    assert_eq!(e.name(), None);
    assert_eq!(e.message(), "");
}

#[test]
fn new_refuses_zero() {
    assert_eq!(Error::new(0), None);
    assert_eq!(Error::new(2).unwrap().code(), 2);
}

#[test]
fn names_and_messages() {
    let e = Error::new(err::ENOENT).unwrap();
    assert_eq!(e.name(), Some("ENOENT"));
    assert_eq!(e.message(), "No such file or directory");
    assert_eq!(err::name_of(17), Some("EEXIST"));
    assert_eq!(err::message_of(17), "File exists");
    assert_eq!(err::name_of(133), Some("EHWPOISON"));
}

#[test]
fn unknown_numbers_have_no_name_and_an_empty_message() {
    assert_eq!(err::name_of(0), None);
    assert_eq!(err::message_of(0), "");
    assert_eq!(err::name_of(41), None);
    assert_eq!(err::name_of(58), None);
    assert_eq!(err::name_of(134), None);
    assert_eq!(err::message_of(usize::MAX), "");
    let e = Error::new(4095).unwrap();
    assert_eq!(e.name(), None);
    assert_eq!(e.message(), "");
}

#[test]
fn aliases_share_a_number() {
    assert_eq!(err::EWOULDBLOCK, err::EAGAIN);
    assert_eq!(err::EDEADLOCK, err::EDEADLK);
    assert_eq!(err::ENOTSUP, err::EOPNOTSUPP);
}
