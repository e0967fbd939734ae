use libcryptsetup_rs::err::{
    EBADMSG, EBUSY, EEXIST, EINTR, EINVAL, EIO, ENODEV, ENOENT, ENOSYS, ENOTSUP, EPERM, EUCLEAN,
};
use libcryptsetup_rs::{errno, errno_int_success, Bool, ErrorKind, Interrupt, LibcryptErr};

#[test]
fn bool_reads_zero_as_no_and_the_rest_as_yes() {
    assert_eq!(Bool::from(0), Bool::No);
    assert_eq!(Bool::from(1), Bool::Yes);
    assert_eq!(Bool::from(-7), Bool::Yes);
    assert_eq!(Bool::from(i32::MAX), Bool::Yes);
}

#[test]
fn bool_gives_the_engine_zero_or_one() {
    assert_eq!(Bool::No.as_int(), 0);
    assert_eq!(Bool::Yes.as_int(), 1);
    assert_eq!(Bool::No as i32, 0);
    assert_eq!(Bool::Yes as i32, 1);
    assert_eq!(Bool::from(Bool::Yes.as_int()), Bool::Yes);
    assert_eq!(Bool::from(Bool::No.as_int()), Bool::No);
}

#[test]
fn interrupt_reads_zero_as_no_and_the_rest_as_yes() {
    assert_eq!(Interrupt::from(0), Interrupt::No);
    assert_eq!(Interrupt::from(1), Interrupt::Yes);
    assert_eq!(Interrupt::from(5), Interrupt::Yes);
    assert_eq!(Interrupt::from(i32::MIN), Interrupt::Yes);
    assert_eq!(Interrupt::No as i32, Bool::No as i32);
    assert_eq!(Interrupt::Yes as i32, Bool::Yes as i32);
}

#[test]
fn zero_and_positive_statuses_are_success() {
    assert_eq!(errno(0), Ok(()));
    assert_eq!(errno(3), Ok(()));
    assert_eq!(errno(i32::MAX), Ok(()));
    assert_eq!(errno_int_success(0), Ok(0));
    assert_eq!(errno_int_success(7), Ok(7));
    assert_eq!(errno_int_success(i32::MAX), Ok(i32::MAX));
}

#[test]
fn negative_statuses_are_errors_that_keep_the_status() {
    assert_eq!(errno(-5), Err(LibcryptErr { kind: ErrorKind::IoError, status: -5 }));
    assert_eq!(
        errno_int_success(-1),
        Err(LibcryptErr { kind: ErrorKind::WrongCredentials, status: -1 })
    );
    assert_eq!(
        errno_int_success(i32::MIN),
        Err(LibcryptErr { kind: ErrorKind::IoError, status: i32::MIN })
    );
}

#[test]
fn each_errno_has_its_kind() {
    assert_eq!(ErrorKind::of_status(-EPERM), ErrorKind::WrongCredentials);
    assert_eq!(ErrorKind::of_status(-ENOENT), ErrorKind::HeaderNotFound);
    assert_eq!(ErrorKind::of_status(-EINTR), ErrorKind::Interrupted);
    assert_eq!(ErrorKind::of_status(-EIO), ErrorKind::IoError);
    assert_eq!(ErrorKind::of_status(-EBUSY), ErrorKind::DeviceBusy);
    assert_eq!(ErrorKind::of_status(-EEXIST), ErrorKind::AlreadyActive);
    assert_eq!(ErrorKind::of_status(-ENODEV), ErrorKind::NotActive);
    assert_eq!(ErrorKind::of_status(-EINVAL), ErrorKind::InvalidArgument);
    assert_eq!(ErrorKind::of_status(-ENOSYS), ErrorKind::Unsupported);
    assert_eq!(ErrorKind::of_status(-ENOTSUP), ErrorKind::Unsupported);
    assert_eq!(ErrorKind::of_status(-EBADMSG), ErrorKind::HeaderCorrupt);
    assert_eq!(ErrorKind::of_status(-EUCLEAN), ErrorKind::HeaderCorrupt);
}

#[test]
fn the_errno_numbers_are_those_of_linux() {
    assert_eq!(
        [EPERM, ENOENT, EINTR, EIO, EBUSY, EEXIST, ENODEV, EINVAL, ENOSYS, EBADMSG, ENOTSUP],
        [1, 2, 4, 5, 16, 17, 19, 22, 38, 74, 95]
    );
    assert_eq!(EUCLEAN, 117);
}

#[test]
fn statuses_outside_the_table_are_storage_failures() {
    assert_eq!(ErrorKind::of_status(-12), ErrorKind::IoError);
    assert_eq!(ErrorKind::of_status(-3), ErrorKind::IoError);
    assert_eq!(ErrorKind::of_status(-1000), ErrorKind::IoError);
    assert_eq!(ErrorKind::of_status(i32::MIN), ErrorKind::IoError);
}

#[test]
fn a_wrong_passphrase_is_never_a_storage_failure() {
    let e = errno_int_success(-EPERM).unwrap_err();
    assert_eq!(e.kind, ErrorKind::WrongCredentials);
    assert_ne!(e.kind, ErrorKind::IoError);
    assert_ne!(ErrorKind::of_status(-EIO), ErrorKind::WrongCredentials);
}

#[test]
fn the_library_explains_its_own_refusals() {
    let e = LibcryptErr::refused(ErrorKind::NotActive);
    assert_eq!(e, LibcryptErr { kind: ErrorKind::NotActive, status: 0 });
    assert_eq!(e.detail(), Some("the mapping is not active".to_string()));
    assert_eq!(
        LibcryptErr::refused(ErrorKind::InvalidArgument).detail(),
        Some("invalid argument".to_string())
    );
}

#[test]
fn an_engine_error_has_no_detail_beyond_its_status() {
    let e = LibcryptErr::from_status(-EBUSY);
    assert_eq!(e, LibcryptErr { kind: ErrorKind::DeviceBusy, status: -16 });
    assert_eq!(e.detail(), None);
}

#[test]
fn every_kind_has_its_words() {
    assert_eq!(ErrorKind::InvalidArgument.text(), "invalid argument");
    assert_eq!(ErrorKind::HeaderNotFound.text(), "no header on the device");
    assert_eq!(ErrorKind::HeaderCorrupt.text(), "the header is corrupt");
    assert_eq!(ErrorKind::WrongCredentials.text(), "no keyslot opens with these credentials");
    assert_eq!(ErrorKind::DeviceBusy.text(), "the device is busy");
    assert_eq!(ErrorKind::IoError.text(), "input/output error");
    assert_eq!(ErrorKind::NotActive.text(), "the mapping is not active");
    assert_eq!(ErrorKind::AlreadyActive.text(), "the mapping is already active");
    assert_eq!(ErrorKind::Interrupted.text(), "interrupted on request");
    assert_eq!(ErrorKind::Unsupported.text(), "not supported by this header type");
}
