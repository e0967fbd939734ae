use libcryptsetup_rs::format::ANY_SLOT;
use libcryptsetup_rs::{
    CryptDevice, CryptDeviceStatus, CryptStatusInfo, ErrorKind, Format, LibcryptErr, Request,
    VolumeKey,
};
use uuid::Uuid;

const SECTORS_OF_16_MIB: u64 = 16 * 1024 * 1024 / 512;

fn activation_key() -> VolumeKey {
    VolumeKey::new(vec![0x11; 64])
}

fn activation_refused(kind: ErrorKind) -> Result<(), LibcryptErr> {
    Err(LibcryptErr { kind, status: 0 })
}

fn activation_device() -> CryptDevice {
    let mut device = CryptDevice::init("/dev/loop0", SECTORS_OF_16_MIB).unwrap();
    device
        .context_handle()
        .format(Format::Luks2, ("aes", "xts-plain64"), Uuid::from_u128(9), &activation_key())
        .unwrap();
    device.complete(0).unwrap();
    device
}

#[test]
fn activating_a_name_twice_is_refused_the_second_time() {
    let mut device = activation_device();
    assert_eq!(
        device.activate_handle().activate_by_passphrase("testdev", ANY_SLOT, "correct-horse", 0),
        Ok(())
    );
    assert_eq!(device.complete(0), Ok(0));
    assert_eq!(
        device.activate_handle().activate_by_passphrase("testdev", ANY_SLOT, "correct-horse", 0),
        activation_refused(ErrorKind::AlreadyActive)
    );
    assert_eq!(
        device.activate_handle().activate_by_volume_key("testdev", &activation_key(), 0),
        activation_refused(ErrorKind::AlreadyActive)
    );
    assert!(!device.is_busy());
    assert_eq!(device.mapping("testdev"), Some(false));
}

#[test]
fn deactivating_a_name_that_was_never_activated_is_refused() {
    let mut device = activation_device();
    assert_eq!(
        device.activate_handle().deactivate("testdev"),
        activation_refused(ErrorKind::NotActive)
    );
    assert!(!device.is_busy());
    let mut fresh = CryptDevice::init("/dev/loop0", 1).unwrap();
    assert_eq!(
        fresh.activate_handle().deactivate("testdev"),
        activation_refused(ErrorKind::NotActive)
    );
}

#[test]
fn the_engine_finding_the_name_active_reads_as_already_active() {
    let mut device = activation_device();
    device.activate_handle().activate_by_volume_key("testdev", &activation_key(), 0).unwrap();
    assert_eq!(
        device.complete(-17),
        Err(LibcryptErr { kind: ErrorKind::AlreadyActive, status: -17 })
    );
    assert_eq!(device.mapping("testdev"), Some(false));
    assert_eq!(
        device.activate_handle().activate_by_volume_key("testdev", &activation_key(), 0),
        activation_refused(ErrorKind::AlreadyActive)
    );
}

#[test]
fn the_engine_finding_the_name_gone_reads_as_not_active() {
    let mut device = activation_device();
    device.activate_handle().activate_by_volume_key("testdev", &activation_key(), 0).unwrap();
    device.complete(0).unwrap();
    device.activate_handle().deactivate("testdev").unwrap();
    assert_eq!(
        device.complete(-19),
        Err(LibcryptErr { kind: ErrorKind::NotActive, status: -19 })
    );
    assert_eq!(device.mapping("testdev"), None);
}

#[test]
fn a_failed_activation_leaves_the_name_inactive() {
    let mut device = activation_device();
    device.activate_handle().activate_by_passphrase("testdev", 1, "wrong", 0).unwrap();
    assert_eq!(
        device.complete(-1),
        Err(LibcryptErr { kind: ErrorKind::WrongCredentials, status: -1 })
    );
    assert_eq!(device.mapping("testdev"), None);
    device.activate_handle().activate_by_passphrase("testdev", 1, "right", 0).unwrap();
    assert_eq!(device.complete(1), Ok(1));
    assert_eq!(device.mapping("testdev"), Some(false));
}

#[test]
fn a_busy_deactivation_keeps_the_mapping() {
    let mut device = activation_device();
    device.activate_handle().activate_by_volume_key("testdev", &activation_key(), 0).unwrap();
    device.complete(0).unwrap();
    device.activate_handle().deactivate("testdev").unwrap();
    assert_eq!(device.outstanding(), Some(&Request::Deactivate { name: "testdev".to_string() }));
    assert_eq!(
        device.complete(-16),
        Err(LibcryptErr { kind: ErrorKind::DeviceBusy, status: -16 })
    );
    assert_eq!(device.mapping("testdev"), Some(false));
}

#[test]
fn activation_checks_its_arguments() {
    let mut device = activation_device();
    let mut activation = device.activate_handle();
    assert_eq!(
        activation.activate_by_passphrase("test\0dev", 0, "p", 0),
        activation_refused(ErrorKind::InvalidArgument)
    );
    assert_eq!(
        activation.activate_by_passphrase("testdev", 32, "p", 0),
        activation_refused(ErrorKind::InvalidArgument)
    );
    assert_eq!(
        activation.activate_by_volume_key("testdev", &VolumeKey::new(vec![0; 32]), 0),
        activation_refused(ErrorKind::InvalidArgument)
    );
    assert_eq!(
        activation.activate_by_volume_key("te\0", &activation_key(), 0),
        activation_refused(ErrorKind::InvalidArgument)
    );
    assert_eq!(
        activation.deactivate("te\0"),
        activation_refused(ErrorKind::InvalidArgument)
    );
    assert_eq!(activation.activate_by_passphrase("testdev", 31, "pass", 5), Ok(()));
    assert_eq!(
        device.outstanding(),
        Some(&Request::ActivateByPassphrase {
            name: "testdev".to_string(),
            keyslot: 31,
            passphrase_len: 4,
            flags: 5
        })
    );
}

#[test]
fn activation_by_keyfile_hands_on_the_place_of_the_key() {
    let mut device = activation_device();
    assert_eq!(
        device
            .activate_handle()
            .activate_by_keyfile_device_offset("testdev", 2, "/etc/ke\0ys", 64, 0, 0),
        activation_refused(ErrorKind::InvalidArgument)
    );
    assert_eq!(
        device
            .activate_handle()
            .activate_by_keyfile_device_offset("testdev", 32, "/etc/keys", 64, 0, 0),
        activation_refused(ErrorKind::InvalidArgument)
    );
    assert_eq!(
        device
            .activate_handle()
            .activate_by_keyfile_device_offset("testdev", 2, "/etc/keys", 64, 512, 1),
        Ok(())
    );
    assert_eq!(
        device.outstanding(),
        Some(&Request::ActivateByKeyfileDeviceOffset {
            name: "testdev".to_string(),
            keyslot: 2,
            keyfile: "/etc/keys".to_string(),
            keyfile_size: 64,
            keyfile_offset: 512,
            flags: 1,
        })
    );
    assert_eq!(device.complete(2), Ok(2));
    assert_eq!(device.mapping("testdev"), Some(false));
    assert_eq!(
        device
            .activate_handle()
            .activate_by_keyfile_device_offset("testdev", 2, "/etc/keys", 64, 512, 1),
        activation_refused(ErrorKind::AlreadyActive)
    );
}

#[test]
fn activation_needs_a_loaded_header() {
    let mut device = CryptDevice::init("/dev/loop0", 1).unwrap();
    assert_eq!(
        device.activate_handle().activate_by_passphrase("testdev", 0, "p", 0),
        activation_refused(ErrorKind::HeaderNotFound)
    );
    assert_eq!(
        device.activate_handle().activate_by_volume_key("testdev", &activation_key(), 0),
        activation_refused(ErrorKind::HeaderNotFound)
    );
    device.context_handle().load(Format::Luks2).unwrap();
    assert!(device.complete(-117).is_err());
    assert_eq!(
        device.activate_handle().activate_by_volume_key("testdev", &activation_key(), 0),
        activation_refused(ErrorKind::HeaderCorrupt)
    );
}

#[test]
fn a_status_is_what_the_engine_reports() {
    let mut device = activation_device();
    assert_eq!(
        device.runtime_handle().status("testdev", 1, 777, true),
        Ok(CryptDeviceStatus { info: CryptStatusInfo::Inactive, size: 0, suspended: false })
    );
    assert_eq!(
        device.runtime_handle().status("testdev", 2, 777, false),
        Ok(CryptDeviceStatus { info: CryptStatusInfo::Active, size: 777, suspended: false })
    );
    assert_eq!(device.mapping("testdev"), Some(false));
    assert_eq!(
        device.runtime_handle().status("testdev", 3, 778, true),
        Ok(CryptDeviceStatus { info: CryptStatusInfo::Busy, size: 778, suspended: true })
    );
    assert_eq!(device.mapping("testdev"), Some(true));
    assert_eq!(
        device.runtime_handle().status("testdev", 0, 5, true),
        Ok(CryptDeviceStatus { info: CryptStatusInfo::Invalid, size: 0, suspended: false })
    );
    assert_eq!(device.mapping("testdev"), Some(true));
    assert_eq!(
        device.runtime_handle().status("testdev", 9, 5, true),
        Ok(CryptDeviceStatus { info: CryptStatusInfo::Invalid, size: 0, suspended: false })
    );
    assert_eq!(
        device.runtime_handle().status("testdev", 1, 0, false),
        Ok(CryptDeviceStatus { info: CryptStatusInfo::Inactive, size: 0, suspended: false })
    );
    assert_eq!(device.mapping("testdev"), None);
}

#[test]
fn a_status_query_can_fail() {
    let mut device = activation_device();
    assert_eq!(
        device.runtime_handle().status("testdev", -5, 0, false),
        Err(LibcryptErr { kind: ErrorKind::IoError, status: -5 })
    );
    assert_eq!(
        device.runtime_handle().status("test\0dev", 2, 0, false),
        Err(LibcryptErr { kind: ErrorKind::InvalidArgument, status: 0 })
    );
    device.context_handle().load(Format::Luks2).unwrap();
    assert_eq!(
        device.runtime_handle().status("testdev", 2, 0, false),
        Err(LibcryptErr { kind: ErrorKind::DeviceBusy, status: 0 })
    );
    assert_eq!(device.mapping("testdev"), None);
}

#[test]
fn a_mapping_found_active_by_a_status_can_be_deactivated() {
    let mut device = CryptDevice::init("/dev/loop0", SECTORS_OF_16_MIB).unwrap();
    assert_eq!(
        device.activate_handle().deactivate("olddev"),
        activation_refused(ErrorKind::NotActive)
    );
    device.runtime_handle().status("olddev", 2, 100, false).unwrap();
    assert_eq!(device.activate_handle().deactivate("olddev"), Ok(()));
    assert_eq!(device.complete(0), Ok(0));
    assert_eq!(device.mapping("olddev"), None);
}

#[test]
fn format_unlock_activate_status_deactivate() {
    // A device of 16 MiB, whose header the engine lays out in the first
    // 4096 sectors.
    let mapped = SECTORS_OF_16_MIB - 4096;
    let key = activation_key();
    let mut device = CryptDevice::init("/dev/loop0", SECTORS_OF_16_MIB).unwrap();
    assert_eq!(device.backing_size(), 32768);

    device
        .context_handle()
        .format(Format::Luks2, ("aes", "xts-plain64"), Uuid::from_u128(0xfeed), &key)
        .unwrap();
    assert_eq!(device.complete(0), Ok(0));
    device.keyslot_handle().add_by_volume_key(ANY_SLOT, &key, "correct-horse").unwrap();
    assert_eq!(device.complete(0), Ok(0));

    device.keyslot_handle().unlock(ANY_SLOT, "correct-horse").unwrap();
    let mut unlocked = VolumeKey::new(vec![0x11; 64]);
    assert_eq!(device.keyslot_handle().unlocked(0, &mut unlocked), Ok(0));
    assert!(unlocked.same_bytes(&key));

    device.activate_handle().activate_by_volume_key("testdev", &unlocked, 0).unwrap();
    assert_eq!(device.complete(0), Ok(0));
    assert_eq!(
        device.runtime_handle().status("testdev", 2, mapped, false),
        Ok(CryptDeviceStatus { info: CryptStatusInfo::Active, size: 28672, suspended: false })
    );

    device.activate_handle().deactivate("testdev").unwrap();
    assert_eq!(device.complete(0), Ok(0));
    assert_eq!(
        device.runtime_handle().status("testdev", 1, 0, false),
        Ok(CryptDeviceStatus { info: CryptStatusInfo::Inactive, size: 0, suspended: false })
    );
    assert_eq!(device.mapping("testdev"), None);
    unlocked.scrub();
    assert!(unlocked.is_scrubbed());
}
