use libcryptsetup_rs::format::ANY_SLOT;
use libcryptsetup_rs::{
    CryptDevice, ErrorKind, Format, KeyslotInfo, LibcryptErr, Request, VolumeKey,
};
use uuid::Uuid;

fn keyslot_key() -> VolumeKey {
    VolumeKey::new((0u8..32).collect())
}

fn keyslot_refused(kind: ErrorKind) -> Result<(), LibcryptErr> {
    Err(LibcryptErr { kind, status: 0 })
}

fn keyslot_device(type_: Format) -> CryptDevice {
    let mut device = CryptDevice::init("/dev/loop0", 32768).unwrap();
    device
        .context_handle()
        .format(type_, ("aes", "xts-plain64"), Uuid::from_u128(1), &keyslot_key())
        .unwrap();
    device.complete(0).unwrap();
    device
}

#[test]
fn add_then_unlock_returns_the_slot_that_opened() {
    let mut device = keyslot_device(Format::Luks2);
    assert_eq!(
        device.keyslot_handle().add_by_volume_key(ANY_SLOT, &keyslot_key(), "correct-horse"),
        Ok(())
    );
    assert_eq!(
        device.outstanding(),
        Some(&Request::KeyslotAddByVolumeKey {
            keyslot: -1,
            volume_key_len: 32,
            passphrase_len: 13
        })
    );
    assert_eq!(device.complete(0), Ok(0));

    assert_eq!(device.keyslot_handle().unlock(ANY_SLOT, "correct-horse"), Ok(()));
    assert_eq!(
        device.outstanding(),
        Some(&Request::VolumeKeyGet { keyslot: -1, passphrase_len: 13 })
    );
    let mut handed_out = keyslot_key();
    assert_eq!(device.keyslot_handle().unlocked(0, &mut handed_out), Ok(0));
    assert!(handed_out.same_bytes(&keyslot_key()));
    assert!(!device.is_busy());
}

#[test]
fn a_wrong_passphrase_is_wrong_credentials_and_the_key_is_wiped() {
    let mut device = keyslot_device(Format::Luks2);
    device.keyslot_handle().unlock(ANY_SLOT, "incorrect-horse").unwrap();
    let mut buffer = VolumeKey::new(vec![0xaa; 32]);
    assert_eq!(
        device.keyslot_handle().unlocked(-1, &mut buffer),
        Err(LibcryptErr { kind: ErrorKind::WrongCredentials, status: -1 })
    );
    assert_eq!(buffer.len(), 32);
    assert!(buffer.is_scrubbed());
    assert!(!device.is_busy());
}

#[test]
fn a_storage_failure_on_unlock_wipes_the_key_too() {
    let mut device = keyslot_device(Format::Luks2);
    device.keyslot_handle().unlock(3, "correct-horse").unwrap();
    let mut buffer = VolumeKey::new(vec![0xaa; 32]);
    assert_eq!(
        device.keyslot_handle().unlocked(-5, &mut buffer),
        Err(LibcryptErr { kind: ErrorKind::IoError, status: -5 })
    );
    assert!(buffer.is_scrubbed());
}

#[test]
fn a_key_of_the_wrong_length_is_wiped_and_refused() {
    let mut device = keyslot_device(Format::Luks2);
    device.keyslot_handle().unlock(3, "correct-horse").unwrap();
    let mut buffer = VolumeKey::new(vec![0xaa; 16]);
    assert_eq!(
        device.keyslot_handle().unlocked(3, &mut buffer),
        Err(LibcryptErr { kind: ErrorKind::IoError, status: 0 })
    );
    assert_eq!(buffer.as_slice(), &[0u8; 16]);
    assert!(!device.is_busy());
}

#[test]
fn unlocked_without_a_request_wipes_the_key() {
    let mut device = keyslot_device(Format::Luks2);
    let mut buffer = VolumeKey::new(vec![1; 32]);
    assert_eq!(
        device.keyslot_handle().unlocked(0, &mut buffer),
        Err(LibcryptErr { kind: ErrorKind::InvalidArgument, status: 0 })
    );
    assert!(buffer.is_scrubbed());
}

#[test]
fn add_by_passphrase_asks_for_a_slot_of_the_header() {
    let mut device = keyslot_device(Format::Luks1);
    assert_eq!(
        device.keyslot_handle().add_by_passphrase(8, "old", "newer"),
        keyslot_refused(ErrorKind::InvalidArgument)
    );
    assert_eq!(device.keyslot_handle().add_by_passphrase(7, "old", "newer"), Ok(()));
    assert_eq!(
        device.outstanding(),
        Some(&Request::KeyslotAddByPassphrase {
            keyslot: 7,
            passphrase_len: 3,
            new_passphrase_len: 5
        })
    );
    assert_eq!(device.complete(7), Ok(7));
}

#[test]
fn add_by_volume_key_checks_the_length_of_the_key() {
    let mut device = keyslot_device(Format::Luks2);
    assert_eq!(
        device.keyslot_handle().add_by_volume_key(0, &VolumeKey::new(vec![0; 31]), "p"),
        keyslot_refused(ErrorKind::InvalidArgument)
    );
    assert_eq!(
        device.keyslot_handle().add_by_volume_key(32, &keyslot_key(), "p"),
        keyslot_refused(ErrorKind::InvalidArgument)
    );
    assert_eq!(device.keyslot_handle().add_by_volume_key(31, &keyslot_key(), "p"), Ok(()));
}

#[test]
fn add_by_volume_key_takes_any_length_where_the_cipher_is_unknown() {
    let mut device = CryptDevice::init("/dev/loop0", 32768).unwrap();
    device.context_handle().load(Format::Luks2).unwrap();
    device.complete(0).unwrap();
    assert_eq!(
        device.keyslot_handle().add_by_volume_key(0, &VolumeKey::new(vec![0; 31]), "p"),
        Ok(())
    );
}

#[test]
fn change_keeps_to_the_slots_of_the_header() {
    let mut device = keyslot_device(Format::Luks2);
    assert_eq!(
        device.keyslot_handle().change_by_passphrase(0, 32, "old", "new"),
        keyslot_refused(ErrorKind::InvalidArgument)
    );
    assert_eq!(
        device.keyslot_handle().change_by_passphrase(-3, 1, "old", "new"),
        keyslot_refused(ErrorKind::InvalidArgument)
    );
    assert_eq!(device.keyslot_handle().change_by_passphrase(0, ANY_SLOT, "old", "newest"), Ok(()));
    assert_eq!(
        device.outstanding(),
        Some(&Request::KeyslotChangeByPassphrase {
            keyslot_old: 0,
            keyslot_new: -1,
            passphrase_len: 3,
            new_passphrase_len: 6
        })
    );
    assert_eq!(device.complete(4), Ok(4));
}

#[test]
fn destroy_and_status_need_a_named_slot() {
    let mut device = keyslot_device(Format::Luks2);
    assert_eq!(
        device.keyslot_handle().destroy(ANY_SLOT),
        keyslot_refused(ErrorKind::InvalidArgument)
    );
    assert_eq!(
        device.keyslot_handle().status(ANY_SLOT),
        keyslot_refused(ErrorKind::InvalidArgument)
    );
    assert_eq!(device.keyslot_handle().status(32), keyslot_refused(ErrorKind::InvalidArgument));
    assert_eq!(device.keyslot_handle().status(5), Ok(()));
    assert_eq!(device.outstanding(), Some(&Request::KeyslotStatus { keyslot: 5 }));
    assert_eq!(device.complete(3).and_then(KeyslotInfo::of_code), Ok(KeyslotInfo::ActiveLast));
    assert_eq!(device.keyslot_handle().destroy(5), Ok(()));
    assert_eq!(device.outstanding(), Some(&Request::KeyslotDestroy { keyslot: 5 }));
    assert_eq!(device.complete(0), Ok(0));
}

#[test]
fn keyslot_operations_need_a_header_with_keyslots() {
    let mut none = CryptDevice::init("/dev/loop0", 1).unwrap();
    assert_eq!(
        none.keyslot_handle().unlock(ANY_SLOT, "p"),
        keyslot_refused(ErrorKind::HeaderNotFound)
    );
    let mut plain = keyslot_device(Format::Plain);
    assert_eq!(
        plain.keyslot_handle().unlock(ANY_SLOT, "p"),
        keyslot_refused(ErrorKind::Unsupported)
    );
    assert_eq!(plain.keyslot_handle().destroy(0), keyslot_refused(ErrorKind::Unsupported));
    assert_eq!(
        plain.keyslot_handle().add_by_passphrase(0, "a", "b"),
        keyslot_refused(ErrorKind::Unsupported)
    );
    let mut corrupt = CryptDevice::init("/dev/loop0", 1).unwrap();
    corrupt.context_handle().load(Format::Luks2).unwrap();
    assert!(corrupt.complete(-74).is_err());
    assert_eq!(
        corrupt.keyslot_handle().status(0),
        keyslot_refused(ErrorKind::HeaderCorrupt)
    );
    let mut busy = keyslot_device(Format::Luks2);
    busy.context_handle().load(Format::Luks2).unwrap();
    assert_eq!(busy.keyslot_handle().status(0), keyslot_refused(ErrorKind::DeviceBusy));
}

#[test]
fn keyslot_codes_read_as_states() {
    assert_eq!(KeyslotInfo::of_code(1), Ok(KeyslotInfo::Inactive));
    assert_eq!(KeyslotInfo::of_code(2), Ok(KeyslotInfo::Active));
    assert_eq!(KeyslotInfo::of_code(3), Ok(KeyslotInfo::ActiveLast));
    assert_eq!(KeyslotInfo::of_code(4), Ok(KeyslotInfo::Unbound));
    assert_eq!(
        KeyslotInfo::of_code(0),
        Err(LibcryptErr { kind: ErrorKind::InvalidArgument, status: 0 })
    );
    assert_eq!(
        KeyslotInfo::of_code(5),
        Err(LibcryptErr { kind: ErrorKind::InvalidArgument, status: 0 })
    );
    assert_eq!(
        KeyslotInfo::of_code(-2),
        Err(LibcryptErr { kind: ErrorKind::HeaderNotFound, status: -2 })
    );
}
