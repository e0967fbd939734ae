use libcryptsetup_rs::format::ANY_SLOT;
use libcryptsetup_rs::header::HeaderState;
use libcryptsetup_rs::{
    Bool, CryptDevice, ErrorKind, Format, FormatDescriptor, LibcryptErr, Request, VolumeKey,
};
use uuid::Uuid;

fn context_uuid() -> Uuid {
    Uuid::from_u128(0x1234_5678_9abc_def0_0fed_cba9_8765_4321)
}

fn context_key() -> VolumeKey {
    VolumeKey::new(vec![0x42; 64])
}

fn context_refused(kind: ErrorKind) -> Result<(), LibcryptErr> {
    Err(LibcryptErr { kind, status: 0 })
}

fn context_formatted(type_: Format) -> CryptDevice {
    let mut device = CryptDevice::init("/dev/loop0", 32768).unwrap();
    device
        .context_handle()
        .format(type_, ("aes", "xts-plain64"), context_uuid(), &context_key())
        .unwrap();
    assert_eq!(device.complete(0), Ok(0));
    device
}

fn context_active(name: &str) -> CryptDevice {
    let mut device = context_formatted(Format::Luks2);
    device.activate_handle().activate_by_volume_key(name, &context_key(), 0).unwrap();
    assert_eq!(device.complete(0), Ok(0));
    device
}

#[test]
fn a_new_handle_knows_nothing() {
    let device = CryptDevice::init("/dev/loop0", 4096).unwrap();
    assert_eq!(device.path(), "/dev/loop0");
    assert_eq!(device.backing_size(), 4096);
    assert!(!device.is_busy());
    assert_eq!(device.outstanding(), None);
    assert_eq!(device.header(), &HeaderState::Absent);
    assert_eq!(device.descriptor(), None);
    assert_eq!(device.keyring(), Bool::Yes);
    assert_eq!(device.mapping("testdev"), None);
    assert_eq!(device.token_numbers(), Vec::<i32>::new());
}

#[test]
fn a_path_with_a_nul_opens_no_handle() {
    assert_eq!(
        CryptDevice::init("/dev/lo\0op0", 4096).err(),
        Some(LibcryptErr { kind: ErrorKind::InvalidArgument, status: 0 })
    );
    assert!(CryptDevice::init("", 0).is_ok());
}

#[test]
fn format_hands_the_engine_what_was_supplied() {
    let mut device = CryptDevice::init("/dev/loop0", 32768).unwrap();
    let r = device.context_handle().format(
        Format::Luks2,
        ("aes", "xts-plain64"),
        context_uuid(),
        &context_key(),
    );
    assert_eq!(r, Ok(()));
    assert!(device.is_busy());
    assert_eq!(
        device.outstanding(),
        Some(&Request::Format {
            type_: Format::Luks2,
            cipher: "aes".to_string(),
            mode: "xts-plain64".to_string(),
            uuid: context_uuid(),
            volume_key_len: 64,
        })
    );
    assert_eq!(device.descriptor(), None);
}

#[test]
fn format_then_load_shows_the_descriptor_that_was_supplied() {
    let mut device = context_formatted(Format::Luks2);
    assert_eq!(device.context_handle().load(Format::Luks2), Ok(()));
    assert_eq!(device.outstanding(), Some(&Request::Load { type_: Format::Luks2 }));
    assert_eq!(device.complete(0), Ok(0));
    assert_eq!(
        device.descriptor(),
        Some(FormatDescriptor {
            type_: Format::Luks2,
            cipher: "aes".to_string(),
            mode: "xts-plain64".to_string(),
            uuid: context_uuid(),
            volume_key_len: 64,
        })
    );
}

#[test]
fn format_rejects_bad_arguments_before_the_engine_is_asked() {
    let mut device = CryptDevice::init("/dev/loop0", 32768).unwrap();
    let key = context_key();
    let mut context = device.context_handle();
    assert_eq!(
        context.format(Format::Luks2, ("a\0es", "xts"), context_uuid(), &key),
        context_refused(ErrorKind::InvalidArgument)
    );
    assert_eq!(
        context.format(Format::Luks2, ("aes", "x\0ts"), context_uuid(), &key),
        context_refused(ErrorKind::InvalidArgument)
    );
    assert_eq!(
        context.format(Format::Luks2, ("aes", "xts"), context_uuid(), &VolumeKey::new(Vec::new())),
        context_refused(ErrorKind::InvalidArgument)
    );
    assert!(!device.is_busy());
    assert_eq!(device.header(), &HeaderState::Absent);
}

#[test]
fn a_failed_format_writes_nothing_into_the_context() {
    let mut device = CryptDevice::init("/dev/loop0", 32768).unwrap();
    device
        .context_handle()
        .format(Format::Luks2, ("nocipher", "nomode"), context_uuid(), &context_key())
        .unwrap();
    assert_eq!(
        device.complete(-22),
        Err(LibcryptErr { kind: ErrorKind::InvalidArgument, status: -22 })
    );
    assert!(!device.is_busy());
    assert_eq!(device.header(), &HeaderState::Absent);
    assert_eq!(device.descriptor(), None);
}

#[test]
fn a_busy_handle_refuses_every_other_operation() {
    let mut device = context_formatted(Format::Luks2);
    device.context_handle().load(Format::Luks2).unwrap();
    let busy = context_refused(ErrorKind::DeviceBusy);
    let key = context_key();
    {
        let mut context = device.context_handle();
        assert_eq!(context.format(Format::Luks1, ("aes", "cbc"), context_uuid(), &key), busy);
        assert_eq!(context.convert(Format::Luks1), busy);
        assert_eq!(context.set_uuid(Uuid::nil()), busy);
        assert_eq!(context.set_label("l", "s"), busy);
        assert_eq!(context.volume_key_keyring(Bool::No), busy);
        assert_eq!(context.load(Format::Luks1), busy);
        assert_eq!(context.repair(Format::Luks1), busy);
        assert_eq!(context.resize("x", 1), busy);
        assert_eq!(context.suspend("x"), busy);
        assert_eq!(context.resume_by_passphrase("x", 0, "p"), busy);
        assert_eq!(context.resume_by_keyfile_device_offset("x", 0, "/k", 1, 0), busy);
    }
    assert_eq!(device.outstanding(), Some(&Request::Load { type_: Format::Luks2 }));
}

#[test]
fn settling_without_a_request_is_refused() {
    let mut device = CryptDevice::init("/dev/loop0", 1).unwrap();
    assert_eq!(
        device.complete(0),
        Err(LibcryptErr { kind: ErrorKind::InvalidArgument, status: 0 })
    );
    assert_eq!(
        device.complete(-5),
        Err(LibcryptErr { kind: ErrorKind::InvalidArgument, status: 0 })
    );
}

#[test]
fn load_tells_a_missing_header_from_a_damaged_one() {
    let mut device = CryptDevice::init("/dev/loop0", 32768).unwrap();
    device.context_handle().load(Format::Luks2).unwrap();
    assert_eq!(
        device.complete(-2),
        Err(LibcryptErr { kind: ErrorKind::HeaderNotFound, status: -2 })
    );
    assert_eq!(device.header(), &HeaderState::Absent);
    assert_eq!(
        device.context_handle().set_uuid(context_uuid()),
        context_refused(ErrorKind::HeaderNotFound)
    );

    device.context_handle().load(Format::Luks2).unwrap();
    assert_eq!(
        device.complete(-74),
        Err(LibcryptErr { kind: ErrorKind::HeaderCorrupt, status: -74 })
    );
    assert_eq!(device.header(), &HeaderState::Corrupt);
    assert_eq!(
        device.context_handle().set_uuid(context_uuid()),
        context_refused(ErrorKind::HeaderCorrupt)
    );

    device.context_handle().load(Format::Luks1).unwrap();
    assert_eq!(
        device.complete(-95),
        Err(LibcryptErr { kind: ErrorKind::Unsupported, status: -95 })
    );
    assert_eq!(device.header(), &HeaderState::Corrupt);
}

#[test]
fn a_storage_failure_on_load_leaves_the_loaded_header() {
    let mut device = context_formatted(Format::Luks2);
    let before = device.descriptor();
    device.context_handle().load(Format::Luks2).unwrap();
    assert_eq!(device.complete(-5), Err(LibcryptErr { kind: ErrorKind::IoError, status: -5 }));
    assert_eq!(device.descriptor(), before);
}

#[test]
fn loading_another_type_forgets_what_was_known() {
    let mut device = context_formatted(Format::Luks2);
    device.context_handle().load(Format::Luks1).unwrap();
    assert_eq!(device.complete(0), Ok(0));
    assert_eq!(device.header().loaded_type(), Some(Format::Luks1));
    assert_eq!(device.descriptor(), None);
}

#[test]
fn a_session_that_did_not_format_learns_the_descriptor_from_the_engine() {
    let mut device = CryptDevice::init("/dev/loop0", 32768).unwrap();
    assert_eq!(
        device.context_handle().describe(("aes", "xts-plain64"), context_uuid(), 64),
        context_refused(ErrorKind::HeaderNotFound)
    );
    device.context_handle().load(Format::Luks2).unwrap();
    assert_eq!(
        device.context_handle().describe(("aes", "xts-plain64"), context_uuid(), 64),
        context_refused(ErrorKind::DeviceBusy)
    );
    device.complete(0).unwrap();
    assert_eq!(device.descriptor(), None);
    assert_eq!(
        device.context_handle().describe(("a\0es", "xts-plain64"), context_uuid(), 64),
        context_refused(ErrorKind::InvalidArgument)
    );
    assert_eq!(
        device.context_handle().describe(("aes", "xts-plain64"), context_uuid(), 0),
        context_refused(ErrorKind::InvalidArgument)
    );
    assert_eq!(device.descriptor(), None);
    assert_eq!(
        device.context_handle().describe(("aes", "xts-plain64"), context_uuid(), 64),
        Ok(())
    );
    assert!(!device.is_busy());
    assert_eq!(
        device.descriptor(),
        Some(FormatDescriptor {
            type_: Format::Luks2,
            cipher: "aes".to_string(),
            mode: "xts-plain64".to_string(),
            uuid: context_uuid(),
            volume_key_len: 64,
        })
    );
    assert_eq!(
        device.activate_handle().activate_by_volume_key("testdev", &VolumeKey::new(vec![0; 32]), 0),
        context_refused(ErrorKind::InvalidArgument)
    );
}

#[test]
fn only_an_explicit_repair_leaves_a_damaged_header_behind() {
    let mut device = CryptDevice::init("/dev/loop0", 32768).unwrap();
    device.context_handle().load(Format::Luks1).unwrap();
    assert!(device.complete(-117).is_err());
    assert_eq!(device.header(), &HeaderState::Corrupt);
    assert_eq!(
        device.context_handle().convert(Format::Luks2),
        context_refused(ErrorKind::HeaderCorrupt)
    );
    assert!(!device.is_busy());

    assert_eq!(device.context_handle().repair(Format::Luks1), Ok(()));
    assert_eq!(device.outstanding(), Some(&Request::Repair { type_: Format::Luks1 }));
    assert_eq!(device.complete(0), Ok(0));
    assert_eq!(device.header().loaded_type(), Some(Format::Luks1));
}

#[test]
fn convert_goes_from_one_luks_version_to_the_other() {
    let mut device = context_formatted(Format::Luks1);
    assert_eq!(
        device.context_handle().convert(Format::Luks1),
        context_refused(ErrorKind::InvalidArgument)
    );
    assert_eq!(
        device.context_handle().convert(Format::Plain),
        context_refused(ErrorKind::Unsupported)
    );
    assert_eq!(device.context_handle().convert(Format::Luks2), Ok(()));
    assert_eq!(device.outstanding(), Some(&Request::Convert { type_: Format::Luks2 }));
    assert_eq!(device.complete(0), Ok(0));
    let d = device.descriptor().unwrap();
    assert_eq!(d.type_, Format::Luks2);
    assert_eq!(d.cipher, "aes");
    assert_eq!(d.uuid, context_uuid());
}

#[test]
fn convert_needs_a_loaded_luks_header() {
    let mut device = CryptDevice::init("/dev/loop0", 32768).unwrap();
    assert_eq!(
        device.context_handle().convert(Format::Luks2),
        context_refused(ErrorKind::HeaderNotFound)
    );
    let mut plain = context_formatted(Format::Plain);
    assert_eq!(
        plain.context_handle().convert(Format::Luks2),
        context_refused(ErrorKind::Unsupported)
    );
}

#[test]
fn a_failed_convert_keeps_the_type() {
    let mut device = context_formatted(Format::Luks1);
    device.context_handle().convert(Format::Luks2).unwrap();
    assert!(device.complete(-16).is_err());
    assert_eq!(device.header().loaded_type(), Some(Format::Luks1));
}

#[test]
fn converting_to_luks1_drops_the_labels() {
    let mut device = context_formatted(Format::Luks2);
    device.context_handle().set_label("data", "backup").unwrap();
    device.complete(0).unwrap();
    device.context_handle().convert(Format::Luks1).unwrap();
    device.complete(0).unwrap();
    match device.header() {
        HeaderState::Loaded(h) => {
            assert_eq!(h.type_, Format::Luks1);
            assert_eq!(h.label, None);
            assert_eq!(h.uuid, Some(context_uuid()));
        }
        other => panic!("no header: {:?}", other),
    }
}

#[test]
fn set_uuid_is_applied_whole_or_not_at_all() {
    let mut device = context_formatted(Format::Luks2);
    let other = Uuid::from_u128(7);
    assert_eq!(device.context_handle().set_uuid(other), Ok(()));
    assert_eq!(device.outstanding(), Some(&Request::SetUuid { uuid: other }));
    assert!(device.complete(-5).is_err());
    assert_eq!(device.descriptor().unwrap().uuid, context_uuid());

    device.context_handle().set_uuid(other).unwrap();
    assert_eq!(device.complete(0), Ok(0));
    let d = device.descriptor().unwrap();
    assert_eq!(d.uuid, other);
    assert_eq!(d.cipher, "aes");
    assert_eq!(d.mode, "xts-plain64");
    assert_eq!(d.volume_key_len, 64);
}

#[test]
fn set_uuid_needs_a_luks_header() {
    let mut device = context_formatted(Format::Plain);
    assert_eq!(
        device.context_handle().set_uuid(context_uuid()),
        context_refused(ErrorKind::Unsupported)
    );
}

#[test]
fn set_label_is_applied_whole_or_not_at_all() {
    let mut device = context_formatted(Format::Luks2);
    assert_eq!(device.context_handle().set_label("data", "backup"), Ok(()));
    assert_eq!(
        device.outstanding(),
        Some(&Request::SetLabel {
            label: "data".to_string(),
            subsystem_label: "backup".to_string()
        })
    );
    assert!(device.complete(-5).is_err());
    match device.header() {
        HeaderState::Loaded(h) => assert_eq!(h.label, None),
        other => panic!("no header: {:?}", other),
    }
    device.context_handle().set_label("data", "backup").unwrap();
    assert_eq!(device.complete(0), Ok(0));
    match device.header() {
        HeaderState::Loaded(h) => {
            let label = h.label.as_ref().unwrap();
            assert_eq!(label.label, "data");
            assert_eq!(label.subsystem, "backup");
        }
        other => panic!("no header: {:?}", other),
    }
}

#[test]
fn set_label_needs_a_luks2_header_and_clean_texts() {
    let mut luks1 = context_formatted(Format::Luks1);
    assert_eq!(
        luks1.context_handle().set_label("data", "backup"),
        context_refused(ErrorKind::Unsupported)
    );
    let mut luks2 = context_formatted(Format::Luks2);
    assert_eq!(
        luks2.context_handle().set_label("da\0ta", "backup"),
        context_refused(ErrorKind::InvalidArgument)
    );
    assert_eq!(
        luks2.context_handle().set_label("data", "\0"),
        context_refused(ErrorKind::InvalidArgument)
    );
    let mut none = CryptDevice::init("/dev/loop0", 1).unwrap();
    assert_eq!(
        none.context_handle().set_label("data", "backup"),
        context_refused(ErrorKind::HeaderNotFound)
    );
}

#[test]
fn the_keyring_policy_follows_the_engine() {
    let mut device = CryptDevice::init("/dev/loop0", 1).unwrap();
    assert_eq!(device.context_handle().volume_key_keyring(Bool::No), Ok(()));
    assert_eq!(device.outstanding(), Some(&Request::VolumeKeyKeyring { enable: Bool::No }));
    assert!(device.complete(-38).is_err());
    assert_eq!(device.keyring(), Bool::Yes);
    device.context_handle().volume_key_keyring(Bool::No).unwrap();
    assert_eq!(device.complete(0), Ok(0));
    assert_eq!(device.keyring(), Bool::No);
}

#[test]
fn resize_is_refused_beyond_the_backing_storage() {
    let mut device = context_active("testdev");
    assert_eq!(
        device.context_handle().resize("testdev", 32769),
        context_refused(ErrorKind::InvalidArgument)
    );
    assert!(!device.is_busy());
    assert_eq!(device.context_handle().resize("testdev", 32768), Ok(()));
    assert_eq!(
        device.outstanding(),
        Some(&Request::Resize { name: "testdev".to_string(), new_size: 32768 })
    );
    assert_eq!(device.complete(0), Ok(0));
    assert_eq!(device.backing_size(), 32768);
    assert_eq!(device.mapping("testdev"), Some(false));
}

#[test]
fn resize_needs_a_known_active_mapping() {
    let mut device = context_active("testdev");
    assert_eq!(
        device.context_handle().resize("other", 16),
        context_refused(ErrorKind::NotActive)
    );
    assert_eq!(
        device.context_handle().resize("te\0st", 16),
        context_refused(ErrorKind::InvalidArgument)
    );
}

#[test]
fn a_resize_that_finds_the_mapping_gone_forgets_it() {
    let mut device = context_active("testdev");
    device.context_handle().resize("testdev", 16).unwrap();
    assert_eq!(
        device.complete(-19),
        Err(LibcryptErr { kind: ErrorKind::NotActive, status: -19 })
    );
    assert_eq!(device.mapping("testdev"), None);
    assert_eq!(device.backing_size(), 32768);
}

#[test]
fn suspend_and_resume_come_in_pairs() {
    let mut device = context_active("testdev");
    assert_eq!(
        device.context_handle().resume_by_passphrase("testdev", ANY_SLOT, "correct-horse"),
        context_refused(ErrorKind::InvalidArgument)
    );
    assert_eq!(device.context_handle().suspend("testdev"), Ok(()));
    assert_eq!(device.outstanding(), Some(&Request::Suspend { name: "testdev".to_string() }));
    assert_eq!(device.complete(0), Ok(0));
    assert_eq!(device.mapping("testdev"), Some(true));
    assert_eq!(
        device.context_handle().suspend("testdev"),
        context_refused(ErrorKind::InvalidArgument)
    );
    assert_eq!(
        device.context_handle().resume_by_passphrase("testdev", ANY_SLOT, "correct-horse"),
        Ok(())
    );
    assert_eq!(
        device.outstanding(),
        Some(&Request::ResumeByPassphrase {
            name: "testdev".to_string(),
            keyslot: -1,
            passphrase_len: 13
        })
    );
    assert_eq!(device.complete(3), Ok(3));
    assert_eq!(device.mapping("testdev"), Some(false));
}

#[test]
fn a_wrong_passphrase_leaves_the_mapping_suspended() {
    let mut device = context_active("testdev");
    device.context_handle().suspend("testdev").unwrap();
    device.complete(0).unwrap();
    device.context_handle().resume_by_passphrase("testdev", 0, "wrong").unwrap();
    assert_eq!(
        device.complete(-1),
        Err(LibcryptErr { kind: ErrorKind::WrongCredentials, status: -1 })
    );
    assert_eq!(device.mapping("testdev"), Some(true));
    device.context_handle().resume_by_passphrase("testdev", 0, "wrong").unwrap();
    assert_eq!(device.complete(-5), Err(LibcryptErr { kind: ErrorKind::IoError, status: -5 }));
    assert_eq!(device.mapping("testdev"), Some(true));
}

#[test]
fn suspend_needs_a_known_active_mapping() {
    let mut device = context_formatted(Format::Luks2);
    assert_eq!(device.context_handle().suspend("testdev"), context_refused(ErrorKind::NotActive));
    assert_eq!(
        device.context_handle().suspend("test\0dev"),
        context_refused(ErrorKind::InvalidArgument)
    );
}

#[test]
fn resume_checks_the_keyslot_against_the_header() {
    let mut device = context_active("testdev");
    device.context_handle().suspend("testdev").unwrap();
    device.complete(0).unwrap();
    let mut context = device.context_handle();
    assert_eq!(
        context.resume_by_passphrase("testdev", 32, "p"),
        context_refused(ErrorKind::InvalidArgument)
    );
    assert_eq!(
        context.resume_by_passphrase("testdev", -2, "p"),
        context_refused(ErrorKind::InvalidArgument)
    );
    assert_eq!(
        context.resume_by_passphrase("nodev", 0, "p"),
        context_refused(ErrorKind::NotActive)
    );
    assert_eq!(
        context.resume_by_passphrase("test\0dev", 0, "p"),
        context_refused(ErrorKind::InvalidArgument)
    );
    assert_eq!(context.resume_by_passphrase("testdev", 31, "p"), Ok(()));
}

#[test]
fn resume_by_keyfile_hands_on_the_place_of_the_key() {
    let mut device = context_active("testdev");
    device.context_handle().suspend("testdev").unwrap();
    device.complete(0).unwrap();
    assert_eq!(
        device.context_handle().resume_by_keyfile_device_offset("testdev", 2, "/k\0ey", 32, 0),
        context_refused(ErrorKind::InvalidArgument)
    );
    assert_eq!(
        device
            .context_handle()
            .resume_by_keyfile_device_offset("testdev", 2, "/etc/keys/disk", 32, 4096),
        Ok(())
    );
    assert_eq!(
        device.outstanding(),
        Some(&Request::ResumeByKeyfileDeviceOffset {
            name: "testdev".to_string(),
            keyslot: 2,
            keyfile: "/etc/keys/disk".to_string(),
            keyfile_size: 32,
            keyfile_offset: 4096,
        })
    );
    assert_eq!(device.complete(2), Ok(2));
    assert_eq!(device.mapping("testdev"), Some(false));
}

#[test]
fn resume_by_keyfile_needs_a_suspended_mapping_and_a_header() {
    let mut device = context_active("testdev");
    assert_eq!(
        device.context_handle().resume_by_keyfile_device_offset("testdev", 0, "/k", 1, 0),
        context_refused(ErrorKind::InvalidArgument)
    );
    assert_eq!(
        device.context_handle().resume_by_keyfile_device_offset("testdev", 40, "/k", 1, 0),
        context_refused(ErrorKind::InvalidArgument)
    );
    let mut none = CryptDevice::init("/dev/loop0", 1).unwrap();
    assert_eq!(
        none.context_handle().resume_by_keyfile_device_offset("testdev", 0, "/k", 1, 0),
        context_refused(ErrorKind::HeaderNotFound)
    );
}
