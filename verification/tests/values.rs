use libcryptsetup_rs::format::ANY_SLOT;
use libcryptsetup_rs::mapping::MappingTable;
use libcryptsetup_rs::text::{is_c_text, same_text};
use libcryptsetup_rs::{Format, VolumeKey};

#[test]
fn header_types_have_the_names_of_the_engine() {
    assert_eq!(Format::Plain.name(), "PLAIN");
    assert_eq!(Format::Luks1.name(), "LUKS1");
    assert_eq!(Format::Luks2.name(), "LUKS2");
    assert_eq!(Format::Loopaes.name(), "LOOPAES");
    assert_eq!(Format::Verity.name(), "VERITY");
    assert_eq!(Format::Tcrypt.name(), "TCRYPT");
    assert_eq!(Format::Integrity.name(), "INTEGRITY");
}

#[test]
fn only_luks_headers_have_keyslots() {
    assert_eq!(Format::Luks1.keyslots(), 8);
    assert_eq!(Format::Luks2.keyslots(), 32);
    assert_eq!(Format::Plain.keyslots(), 0);
    assert_eq!(Format::Loopaes.keyslots(), 0);
    assert_eq!(Format::Verity.keyslots(), 0);
    assert_eq!(Format::Tcrypt.keyslots(), 0);
    assert_eq!(Format::Integrity.keyslots(), 0);
}

#[test]
fn keyslot_numbers_are_bounded_by_the_header_type() {
    assert_eq!(ANY_SLOT, -1);
    assert!(Format::Luks1.allows_keyslot(ANY_SLOT));
    assert!(Format::Luks1.allows_keyslot(0));
    assert!(Format::Luks1.allows_keyslot(7));
    assert!(!Format::Luks1.allows_keyslot(8));
    assert!(Format::Luks2.allows_keyslot(8));
    assert!(Format::Luks2.allows_keyslot(31));
    assert!(!Format::Luks2.allows_keyslot(32));
    assert!(!Format::Luks2.allows_keyslot(-2));
    assert!(Format::Plain.allows_keyslot(ANY_SLOT));
    assert!(!Format::Plain.allows_keyslot(0));
}

#[test]
fn a_text_with_a_nul_cannot_cross_to_the_engine() {
    assert!(is_c_text(""));
    assert!(is_c_text("aes"));
    assert!(is_c_text("xts-plain64"));
    assert!(is_c_text("gr\u{fc}n"));
    assert!(!is_c_text("a\0b"));
    assert!(!is_c_text("\0"));
    assert!(!is_c_text("name\0"));
}

#[test]
fn texts_are_the_same_when_their_characters_are() {
    assert!(same_text("", ""));
    assert!(same_text("testdev", "testdev"));
    assert!(!same_text("testdev", "testdew"));
    assert!(!same_text("testdev", "testde"));
    assert!(!same_text("a", ""));
    assert!(same_text("gr\u{fc}n", "gr\u{fc}n"));
    assert!(!same_text("gr\u{fc}n", "grun"));
}

#[test]
fn a_volume_key_keeps_its_bytes() {
    let key = VolumeKey::new(vec![1, 2, 3, 4]);
    assert_eq!(key.len(), 4);
    assert_eq!(key.as_slice(), &[1, 2, 3, 4]);
    assert!(!key.is_scrubbed());
    assert_eq!(VolumeKey::new(Vec::new()).len(), 0);
}

#[test]
fn scrubbing_a_key_zeroes_every_byte_and_keeps_the_length() {
    let mut key = VolumeKey::new(vec![0xff, 0x00, 0x17, 0x80, 0x01]);
    key.scrub();
    assert_eq!(key.len(), 5);
    assert_eq!(key.as_slice(), &[0, 0, 0, 0, 0]);
    assert!(key.is_scrubbed());
    key.scrub();
    assert_eq!(key.as_slice(), &[0, 0, 0, 0, 0]);
}

#[test]
fn an_empty_key_counts_as_scrubbed() {
    let mut key = VolumeKey::new(Vec::new());
    assert!(key.is_scrubbed());
    key.scrub();
    assert_eq!(key.len(), 0);
}

#[test]
fn keys_are_the_same_when_all_their_bytes_are() {
    let a = VolumeKey::new(vec![9, 8, 7]);
    assert!(a.same_bytes(&VolumeKey::new(vec![9, 8, 7])));
    assert!(!a.same_bytes(&VolumeKey::new(vec![9, 8, 6])));
    assert!(!a.same_bytes(&VolumeKey::new(vec![0, 8, 7])));
    assert!(!a.same_bytes(&VolumeKey::new(vec![9, 8])));
    assert!(!a.same_bytes(&VolumeKey::new(vec![9, 8, 7, 0])));
    assert!(VolumeKey::new(Vec::new()).same_bytes(&VolumeKey::new(Vec::new())));
}

#[test]
fn a_mapping_table_holds_each_name_once() {
    let mut table = MappingTable::new();
    assert_eq!(table.len(), 0);
    assert_eq!(table.lookup("a"), None);
    table.insert("a", false);
    table.insert("b", true);
    assert_eq!(table.len(), 2);
    assert_eq!(table.lookup("a"), Some(false));
    assert_eq!(table.lookup("b"), Some(true));
    table.insert("a", true);
    assert_eq!(table.len(), 2);
    assert_eq!(table.lookup("a"), Some(true));
    table.remove("a");
    assert_eq!(table.len(), 1);
    assert_eq!(table.lookup("a"), None);
    assert_eq!(table.lookup("b"), Some(true));
    table.remove("a");
    assert_eq!(table.len(), 1);
    table.remove("b");
    assert_eq!(table.len(), 0);
}
