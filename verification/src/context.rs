//! The cryptographic context of a device: formatting, loading, repairing
//! and editing its header, and resizing, suspending and resuming its
//! mappings.
//!
//! Each operation checks its arguments against what the handle knows. A
//! refusal comes before the engine is asked and changes nothing. Otherwise
//! exactly one request becomes outstanding, and `CryptDevice::complete`
//! settles it with the engine's status.

use crate::device::{accepted, settled, submitted, CryptDevice, DeviceModel};
use crate::err::{refusal, ErrorKind, LibcryptErr};
use crate::format::{keyslot_allowed, DescriptorModel, Format};
use crate::header::{Cipher, CipherModel, HeaderModel, HeaderState, HeaderStateModel};
use crate::key::VolumeKey;
use crate::request::{Request, RequestModel};
use crate::sound::sound;
use crate::text::{c_text, is_c_text};
use crate::Bool;
use vstd::prelude::*;
use vstd::string::*;

verus! {

/// Whether a header type is one of the two LUKS versions.
pub open spec fn is_luks(type_: Format) -> bool {
    type_ == Format::Luks1 || type_ == Format::Luks2
}

/// The loaded header that an operation works on, or the refusal where none
/// is loaded: a missing header and a damaged one are told apart.
pub open spec fn loaded_header(d: DeviceModel) -> Result<HeaderModel, LibcryptErr> {
    match d.header {
        HeaderStateModel::Loaded(h) => Ok(h),
        HeaderStateModel::Absent => Err(refusal(ErrorKind::HeaderNotFound)),
        HeaderStateModel::Corrupt => Err(refusal(ErrorKind::HeaderCorrupt)),
    }
}

/// Whether `format` is accepted. Formatting needs no header. The cipher
/// and its mode must be able to cross to the engine, and the volume key
/// must not be empty. The request carries what was supplied, unchanged.
pub open spec fn format_verdict(
    d: DeviceModel,
    type_: Format,
    cipher: Seq<char>,
    mode: Seq<char>,
    uuid: uuid::Uuid,
    volume_key_len: usize,
) -> Result<RequestModel, LibcryptErr> {
    if d.outstanding is Some {
        Err(refusal(ErrorKind::DeviceBusy))
    } else if !c_text(cipher) || !c_text(mode) || volume_key_len == 0 {
        Err(refusal(ErrorKind::InvalidArgument))
    } else {
        Ok(RequestModel::Format { type_, cipher, mode, uuid, volume_key_len })
    }
}

/// Whether `convert` is accepted. Only a loaded LUKS header converts, and
/// only to the other LUKS version.
pub open spec fn convert_verdict(d: DeviceModel, type_: Format) -> Result<
    RequestModel,
    LibcryptErr,
> {
    if d.outstanding is Some {
        Err(refusal(ErrorKind::DeviceBusy))
    } else {
        match loaded_header(d) {
            Err(e) => Err(e),
            Ok(h) => if !is_luks(h.type_) || !is_luks(type_) {
                Err(refusal(ErrorKind::Unsupported))
            } else if h.type_ == type_ {
                Err(refusal(ErrorKind::InvalidArgument))
            } else {
                Ok(RequestModel::Convert { type_ })
            },
        }
    }
}

/// Whether `set_uuid` is accepted. Only a loaded LUKS header has an
/// identifier to set.
pub open spec fn set_uuid_verdict(d: DeviceModel, uuid: uuid::Uuid) -> Result<
    RequestModel,
    LibcryptErr,
> {
    if d.outstanding is Some {
        Err(refusal(ErrorKind::DeviceBusy))
    } else {
        match loaded_header(d) {
            Err(e) => Err(e),
            Ok(h) => if !is_luks(h.type_) {
                Err(refusal(ErrorKind::Unsupported))
            } else {
                Ok(RequestModel::SetUuid { uuid })
            },
        }
    }
}

/// Whether `set_label` is accepted. Both labels must be able to cross to
/// the engine, and only a loaded LUKS2 header has labels.
pub open spec fn set_label_verdict(
    d: DeviceModel,
    label: Seq<char>,
    subsystem_label: Seq<char>,
) -> Result<RequestModel, LibcryptErr> {
    if d.outstanding is Some {
        Err(refusal(ErrorKind::DeviceBusy))
    } else if !c_text(label) || !c_text(subsystem_label) {
        Err(refusal(ErrorKind::InvalidArgument))
    } else {
        match loaded_header(d) {
            Err(e) => Err(e),
            Ok(h) => if h.type_ != Format::Luks2 {
                Err(refusal(ErrorKind::Unsupported))
            } else {
                Ok(RequestModel::SetLabel { label, subsystem_label })
            },
        }
    }
}

/// Whether an operation that needs nothing but a free handle is accepted
/// with the request `request`.
pub open spec fn free_verdict(d: DeviceModel, request: RequestModel) -> Result<
    RequestModel,
    LibcryptErr,
> {
    if d.outstanding is Some {
        Err(refusal(ErrorKind::DeviceBusy))
    } else {
        Ok(request)
    }
}

/// Whether `resize` is accepted. The mapping must be known to be active,
/// and the new size must not pass the size of the backing storage.
pub open spec fn resize_verdict(d: DeviceModel, name: Seq<char>, new_size: u64) -> Result<
    RequestModel,
    LibcryptErr,
> {
    if d.outstanding is Some {
        Err(refusal(ErrorKind::DeviceBusy))
    } else if !c_text(name) {
        Err(refusal(ErrorKind::InvalidArgument))
    } else if !d.mappings.contains_key(name) {
        Err(refusal(ErrorKind::NotActive))
    } else if new_size > d.backing_size {
        Err(refusal(ErrorKind::InvalidArgument))
    } else {
        Ok(RequestModel::Resize { name, new_size })
    }
}

/// Whether `suspend` is accepted. The mapping must be known to be active
/// and must not be suspended already.
pub open spec fn suspend_verdict(d: DeviceModel, name: Seq<char>) -> Result<
    RequestModel,
    LibcryptErr,
> {
    if d.outstanding is Some {
        Err(refusal(ErrorKind::DeviceBusy))
    } else if !c_text(name) {
        Err(refusal(ErrorKind::InvalidArgument))
    } else if !d.mappings.contains_key(name) {
        Err(refusal(ErrorKind::NotActive))
    } else if d.mappings[name] {
        Err(refusal(ErrorKind::InvalidArgument))
    } else {
        Ok(RequestModel::Suspend { name })
    }
}

/// What stands against resuming the mapping `name` through `keyslot`, if
/// anything: a header must be loaded, the keyslot must be one of its slots
/// or `ANY_SLOT`, and the mapping must be known to be active and
/// suspended.
pub open spec fn resume_refusal(d: DeviceModel, name: Seq<char>, keyslot: i32) -> Option<
    LibcryptErr,
> {
    match loaded_header(d) {
        Err(e) => Some(e),
        Ok(h) => if !keyslot_allowed(h.type_, keyslot as int) {
            Some(refusal(ErrorKind::InvalidArgument))
        } else if !d.mappings.contains_key(name) {
            Some(refusal(ErrorKind::NotActive))
        } else if !d.mappings[name] {
            Some(refusal(ErrorKind::InvalidArgument))
        } else {
            None
        },
    }
}

/// Whether `resume_by_passphrase` is accepted.
pub open spec fn resume_by_passphrase_verdict(
    d: DeviceModel,
    name: Seq<char>,
    keyslot: i32,
    passphrase_len: usize,
) -> Result<RequestModel, LibcryptErr> {
    if d.outstanding is Some {
        Err(refusal(ErrorKind::DeviceBusy))
    } else if !c_text(name) {
        Err(refusal(ErrorKind::InvalidArgument))
    } else {
        match resume_refusal(d, name, keyslot) {
            Some(e) => Err(e),
            None => Ok(RequestModel::ResumeByPassphrase { name, keyslot, passphrase_len }),
        }
    }
}

/// Whether `resume_by_keyfile_device_offset` is accepted.
pub open spec fn resume_by_keyfile_verdict(
    d: DeviceModel,
    name: Seq<char>,
    keyslot: i32,
    keyfile: Seq<char>,
    keyfile_size: usize,
    keyfile_offset: u64,
) -> Result<RequestModel, LibcryptErr> {
    if d.outstanding is Some {
        Err(refusal(ErrorKind::DeviceBusy))
    } else if !c_text(name) || !c_text(keyfile) {
        Err(refusal(ErrorKind::InvalidArgument))
    } else {
        match resume_refusal(d, name, keyslot) {
            Some(e) => Err(e),
            None => Ok(
                RequestModel::ResumeByKeyfileDeviceOffset {
                    name,
                    keyslot,
                    keyfile,
                    keyfile_size,
                    keyfile_offset,
                },
            ),
        }
    }
}

/// What the caller of `describe` is told. The handle must be free, the
/// cipher and its mode must be able to cross to the engine, the volume key
/// must not be empty, and a header must be loaded.
pub open spec fn describe_result(
    d: DeviceModel,
    cipher: Seq<char>,
    mode: Seq<char>,
    volume_key_len: usize,
) -> Result<(), LibcryptErr> {
    if d.outstanding is Some {
        Err(refusal(ErrorKind::DeviceBusy))
    } else if !c_text(cipher) || !c_text(mode) || volume_key_len == 0 {
        Err(refusal(ErrorKind::InvalidArgument))
    } else {
        match loaded_header(d) {
            Err(e) => Err(e),
            Ok(_) => Ok(()),
        }
    }
}

/// The handle after `describe`: the loaded header shows the identifier and
/// the cipher that the engine reports.
pub open spec fn described(
    d: DeviceModel,
    cipher: Seq<char>,
    mode: Seq<char>,
    uuid: uuid::Uuid,
    volume_key_len: usize,
) -> DeviceModel {
    match (describe_result(d, cipher, mode, volume_key_len), d.header) {
        (Ok(_), HeaderStateModel::Loaded(h)) => DeviceModel {
            header: HeaderStateModel::Loaded(
                HeaderModel {
                    uuid: Some(uuid),
                    cipher: Some(CipherModel { name: cipher, mode, volume_key_len }),
                    ..h
                },
            ),
            ..d
        },
        _ => d,
    }
}

/// Cryptographic context for device
pub struct CryptContext<'a> {
    /// The device that this handle borrows for itself alone
    pub reference: &'a mut CryptDevice,
}

impl CryptDevice {
    /// Get a context option handle
    pub fn context_handle(&mut self) -> (handle: CryptContext<'_>)
        ensures
            handle.device() == old(self)@,
            *final(handle.reference) == *final(self),
    {
        CryptContext::new(self)
    }
}

impl<'a> CryptContext<'a> {
    /// The device as it stands.
    pub open spec fn device(&self) -> DeviceModel {
        (*self.reference)@
    }

    /// Borrows the device for the context's operations.
    pub fn new(reference: &'a mut CryptDevice) -> (context: Self)
        ensures
            context.device() == old(reference)@,
            *final(context.reference) == *final(reference),
    {
        CryptContext { reference }
    }

    /// The loaded header, or the refusal where none is loaded.
    fn loaded(&self) -> (r: Result<Format, LibcryptErr>)
        ensures
            r is Ok <==> loaded_header(self.device()) is Ok,
            r matches Ok(t) ==> loaded_header(self.device())->Ok_0.type_ == t,
            r matches Err(e) ==> loaded_header(self.device()) == Err::<HeaderModel, LibcryptErr>(e),
    {
        match self.reference.header() {
            HeaderState::Loaded(h) => Ok(h.type_),
            HeaderState::Absent => Err(LibcryptErr::refused(ErrorKind::HeaderNotFound)),
            HeaderState::Corrupt => Err(LibcryptErr::refused(ErrorKind::HeaderCorrupt)),
        }
    }

    /// What stands against resuming `name` through `keyslot`, if anything.
    fn check_resume(&self, name: &str, keyslot: i32) -> (r: Option<LibcryptErr>)
        ensures
            r == resume_refusal(self.device(), name@, keyslot),
    {
        match self.loaded() {
            Err(e) => Some(e),
            Ok(type_) => {
                if !type_.allows_keyslot(keyslot) {
                    Some(LibcryptErr::refused(ErrorKind::InvalidArgument))
                } else {
                    match self.reference.mapping(name) {
                        None => Some(LibcryptErr::refused(ErrorKind::NotActive)),
                        Some(false) => Some(LibcryptErr::refused(ErrorKind::InvalidArgument)),
                        Some(true) => None,
                    }
                }
            },
        }
    }

    /// Set cryptography format
    ///
    /// Asks for a brand-new header of type `type_` with the given cipher,
    /// mode and identifier, bound to a volume key of the length of
    /// `volume_key`. The key itself is not copied. Once the engine reports
    /// success, the context holds the new header with exactly these values.
    pub fn format(
        &mut self,
        type_: Format,
        cipher_and_mode: (&str, &str),
        uuid: uuid::Uuid,
        volume_key: &VolumeKey,
    ) -> (r: Result<(), LibcryptErr>)
        ensures
            r == accepted(
                format_verdict(
                    old(self).device(),
                    type_,
                    cipher_and_mode.0@,
                    cipher_and_mode.1@,
                    uuid,
                    volume_key@.len() as usize,
                ),
            ),
            final(self).device() == submitted(
                old(self).device(),
                format_verdict(
                    old(self).device(),
                    type_,
                    cipher_and_mode.0@,
                    cipher_and_mode.1@,
                    uuid,
                    volume_key@.len() as usize,
                ),
            ),
            sound(old(self).device()) ==> sound(final(self).device()),
            *final(final(self).reference) == *final(old(self).reference),
    {
        if self.reference.is_busy() {
            return Err(LibcryptErr::refused(ErrorKind::DeviceBusy));
        }
        if !is_c_text(cipher_and_mode.0) || !is_c_text(cipher_and_mode.1) || volume_key.len() == 0 {
            return Err(LibcryptErr::refused(ErrorKind::InvalidArgument));
        }
        self.reference.submit(
            Request::Format {
                type_,
                cipher: cipher_and_mode.0.to_owned(),
                mode: cipher_and_mode.1.to_owned(),
                uuid,
                volume_key_len: volume_key.len(),
            },
        );
        Ok(())
    }

    /// Convert to new format type
    pub fn convert(&mut self, type_: Format) -> (r: Result<(), LibcryptErr>)
        ensures
            r == accepted(convert_verdict(old(self).device(), type_)),
            final(self).device() == submitted(
                old(self).device(),
                convert_verdict(old(self).device(), type_),
            ),
            sound(old(self).device()) ==> sound(final(self).device()),
            *final(final(self).reference) == *final(old(self).reference),
    {
        if self.reference.is_busy() {
            return Err(LibcryptErr::refused(ErrorKind::DeviceBusy));
        }
        match self.loaded() {
            Err(e) => Err(e),
            Ok(current) => {
                let luks = (current == Format::Luks1 || current == Format::Luks2) && (type_
                    == Format::Luks1 || type_ == Format::Luks2);
                if !luks {
                    Err(LibcryptErr::refused(ErrorKind::Unsupported))
                } else if current == type_ {
                    Err(LibcryptErr::refused(ErrorKind::InvalidArgument))
                } else {
                    self.reference.submit(Request::Convert { type_ });
                    Ok(())
                }
            },
        }
    }

    /// Set UUID of crypt device
    pub fn set_uuid(&mut self, uuid: uuid::Uuid) -> (r: Result<(), LibcryptErr>)
        ensures
            r == accepted(set_uuid_verdict(old(self).device(), uuid)),
            final(self).device() == submitted(
                old(self).device(),
                set_uuid_verdict(old(self).device(), uuid),
            ),
            sound(old(self).device()) ==> sound(final(self).device()),
            *final(final(self).reference) == *final(old(self).reference),
    {
        if self.reference.is_busy() {
            return Err(LibcryptErr::refused(ErrorKind::DeviceBusy));
        }
        match self.loaded() {
            Err(e) => Err(e),
            Ok(current) => {
                if !(current == Format::Luks1 || current == Format::Luks2) {
                    Err(LibcryptErr::refused(ErrorKind::Unsupported))
                } else {
                    self.reference.submit(Request::SetUuid { uuid });
                    Ok(())
                }
            },
        }
    }

    /// Set LUKS2 device label
    pub fn set_label(&mut self, label: &str, subsystem_label: &str) -> (r: Result<
        (),
        LibcryptErr,
    >)
        ensures
            r == accepted(set_label_verdict(old(self).device(), label@, subsystem_label@)),
            final(self).device() == submitted(
                old(self).device(),
                set_label_verdict(old(self).device(), label@, subsystem_label@),
            ),
            sound(old(self).device()) ==> sound(final(self).device()),
            *final(final(self).reference) == *final(old(self).reference),
    {
        if self.reference.is_busy() {
            return Err(LibcryptErr::refused(ErrorKind::DeviceBusy));
        }
        if !is_c_text(label) || !is_c_text(subsystem_label) {
            return Err(LibcryptErr::refused(ErrorKind::InvalidArgument));
        }
        match self.loaded() {
            Err(e) => Err(e),
            Ok(current) => {
                if current != Format::Luks2 {
                    Err(LibcryptErr::refused(ErrorKind::Unsupported))
                } else {
                    self.reference.submit(
                        Request::SetLabel {
                            label: label.to_owned(),
                            subsystem_label: subsystem_label.to_owned(),
                        },
                    );
                    Ok(())
                }
            },
        }
    }

    /// Set policy on loading volume keys via kernel keyring
    pub fn volume_key_keyring(&mut self, enable: Bool) -> (r: Result<(), LibcryptErr>)
        ensures
            r == accepted(
                free_verdict(old(self).device(), RequestModel::VolumeKeyKeyring { enable }),
            ),
            final(self).device() == submitted(
                old(self).device(),
                free_verdict(old(self).device(), RequestModel::VolumeKeyKeyring { enable }),
            ),
            sound(old(self).device()) ==> sound(final(self).device()),
            *final(final(self).reference) == *final(old(self).reference),
    {
        if self.reference.is_busy() {
            return Err(LibcryptErr::refused(ErrorKind::DeviceBusy));
        }
        self.reference.submit(Request::VolumeKeyKeyring { enable });
        Ok(())
    }

    /// Load on-disk header parameters based on provided type
    ///
    /// Loading reads the header and touches no key material. It is accepted
    /// whatever the context holds.
    pub fn load(&mut self, type_: Format) -> (r: Result<(), LibcryptErr>)
        ensures
            r == accepted(free_verdict(old(self).device(), RequestModel::Load { type_ })),
            final(self).device() == submitted(
                old(self).device(),
                free_verdict(old(self).device(), RequestModel::Load { type_ }),
            ),
            sound(old(self).device()) ==> sound(final(self).device()),
            *final(final(self).reference) == *final(old(self).reference),
    {
        if self.reference.is_busy() {
            return Err(LibcryptErr::refused(ErrorKind::DeviceBusy));
        }
        self.reference.submit(Request::Load { type_ });
        Ok(())
    }

    /// Records what the engine reports of the loaded header: its cipher,
    /// the mode, the identifier and the length of the volume key. A
    /// session that did not format the header learns its descriptor this
    /// way.
    pub fn describe(
        &mut self,
        cipher_and_mode: (&str, &str),
        uuid: uuid::Uuid,
        volume_key_len: usize,
    ) -> (r: Result<(), LibcryptErr>)
        ensures
            r == describe_result(
                old(self).device(),
                cipher_and_mode.0@,
                cipher_and_mode.1@,
                volume_key_len,
            ),
            final(self).device() == described(
                old(self).device(),
                cipher_and_mode.0@,
                cipher_and_mode.1@,
                uuid,
                volume_key_len,
            ),
            sound(old(self).device()) ==> sound(final(self).device()),
            *final(final(self).reference) == *final(old(self).reference),
    {
        if self.reference.is_busy() {
            return Err(LibcryptErr::refused(ErrorKind::DeviceBusy));
        }
        if !is_c_text(cipher_and_mode.0) || !is_c_text(cipher_and_mode.1) || volume_key_len == 0 {
            return Err(LibcryptErr::refused(ErrorKind::InvalidArgument));
        }
        match self.loaded() {
            Err(e) => Err(e),
            Ok(_) => {
                self.reference.note_header(
                    uuid,
                    Cipher {
                        name: cipher_and_mode.0.to_owned(),
                        mode: cipher_and_mode.1.to_owned(),
                        volume_key_len,
                    },
                );
                Ok(())
            },
        }
    }

    /// Repair crypt device header if invalid
    ///
    /// Nothing in the library asks for a repair by itself: this call is the
    /// only source of a repair request.
    pub fn repair(&mut self, type_: Format) -> (r: Result<(), LibcryptErr>)
        ensures
            r == accepted(free_verdict(old(self).device(), RequestModel::Repair { type_ })),
            final(self).device() == submitted(
                old(self).device(),
                free_verdict(old(self).device(), RequestModel::Repair { type_ }),
            ),
            sound(old(self).device()) ==> sound(final(self).device()),
            *final(final(self).reference) == *final(old(self).reference),
    {
        if self.reference.is_busy() {
            return Err(LibcryptErr::refused(ErrorKind::DeviceBusy));
        }
        self.reference.submit(Request::Repair { type_ });
        Ok(())
    }

    /// Resize crypt device
    ///
    /// `new_size` is the new size of the mapping in sectors. The backing
    /// storage keeps its size.
    pub fn resize(&mut self, name: &str, new_size: u64) -> (r: Result<(), LibcryptErr>)
        ensures
            r == accepted(resize_verdict(old(self).device(), name@, new_size)),
            final(self).device() == submitted(
                old(self).device(),
                resize_verdict(old(self).device(), name@, new_size),
            ),
            sound(old(self).device()) ==> sound(final(self).device()),
            *final(final(self).reference) == *final(old(self).reference),
    {
        if self.reference.is_busy() {
            return Err(LibcryptErr::refused(ErrorKind::DeviceBusy));
        }
        if !is_c_text(name) {
            return Err(LibcryptErr::refused(ErrorKind::InvalidArgument));
        }
        if self.reference.mapping(name).is_none() {
            return Err(LibcryptErr::refused(ErrorKind::NotActive));
        }
        if new_size > self.reference.backing_size() {
            return Err(LibcryptErr::refused(ErrorKind::InvalidArgument));
        }
        self.reference.submit(Request::Resize { name: name.to_owned(), new_size });
        Ok(())
    }

    /// Suspend crypt device
    pub fn suspend(&mut self, name: &str) -> (r: Result<(), LibcryptErr>)
        ensures
            r == accepted(suspend_verdict(old(self).device(), name@)),
            final(self).device() == submitted(
                old(self).device(),
                suspend_verdict(old(self).device(), name@),
            ),
            sound(old(self).device()) ==> sound(final(self).device()),
            *final(final(self).reference) == *final(old(self).reference),
    {
        if self.reference.is_busy() {
            return Err(LibcryptErr::refused(ErrorKind::DeviceBusy));
        }
        if !is_c_text(name) {
            return Err(LibcryptErr::refused(ErrorKind::InvalidArgument));
        }
        match self.reference.mapping(name) {
            None => Err(LibcryptErr::refused(ErrorKind::NotActive)),
            Some(true) => Err(LibcryptErr::refused(ErrorKind::InvalidArgument)),
            Some(false) => {
                self.reference.submit(Request::Suspend { name: name.to_owned() });
                Ok(())
            },
        }
    }

    /// Resume crypt device using a passphrase
    ///
    /// The keyslot that opened is the value that `CryptDevice::complete`
    /// hands back for this request.
    pub fn resume_by_passphrase(&mut self, name: &str, keyslot: i32, passphrase: &str) -> (r:
        Result<(), LibcryptErr>)
        ensures
            r == accepted(
                resume_by_passphrase_verdict(
                    old(self).device(),
                    name@,
                    keyslot,
                    passphrase.spec_bytes().len() as usize,
                ),
            ),
            final(self).device() == submitted(
                old(self).device(),
                resume_by_passphrase_verdict(
                    old(self).device(),
                    name@,
                    keyslot,
                    passphrase.spec_bytes().len() as usize,
                ),
            ),
            sound(old(self).device()) ==> sound(final(self).device()),
            *final(final(self).reference) == *final(old(self).reference),
    {
        if self.reference.is_busy() {
            return Err(LibcryptErr::refused(ErrorKind::DeviceBusy));
        }
        if !is_c_text(name) {
            return Err(LibcryptErr::refused(ErrorKind::InvalidArgument));
        }
        match self.check_resume(name, keyslot) {
            Some(e) => Err(e),
            None => {
                self.reference.submit(
                    Request::ResumeByPassphrase {
                        name: name.to_owned(),
                        keyslot,
                        passphrase_len: passphrase.len(),
                    },
                );
                Ok(())
            },
        }
    }

    /// Resume crypt device using a key file at an offset on disk
    ///
    /// The keyslot that opened is the value that `CryptDevice::complete`
    /// hands back for this request.
    pub fn resume_by_keyfile_device_offset(
        &mut self,
        name: &str,
        keyslot: i32,
        keyfile: &str,
        keyfile_size: usize,
        keyfile_offset: u64,
    ) -> (r: Result<(), LibcryptErr>)
        ensures
            r == accepted(
                resume_by_keyfile_verdict(
                    old(self).device(),
                    name@,
                    keyslot,
                    keyfile@,
                    keyfile_size,
                    keyfile_offset,
                ),
            ),
            final(self).device() == submitted(
                old(self).device(),
                resume_by_keyfile_verdict(
                    old(self).device(),
                    name@,
                    keyslot,
                    keyfile@,
                    keyfile_size,
                    keyfile_offset,
                ),
            ),
            sound(old(self).device()) ==> sound(final(self).device()),
            *final(final(self).reference) == *final(old(self).reference),
    {
        if self.reference.is_busy() {
            return Err(LibcryptErr::refused(ErrorKind::DeviceBusy));
        }
        if !is_c_text(name) || !is_c_text(keyfile) {
            return Err(LibcryptErr::refused(ErrorKind::InvalidArgument));
        }
        match self.check_resume(name, keyslot) {
            Some(e) => Err(e),
            None => {
                self.reference.submit(
                    Request::ResumeByKeyfileDeviceOffset {
                        name: name.to_owned(),
                        keyslot,
                        keyfile: keyfile.to_owned(),
                        keyfile_size,
                        keyfile_offset,
                    },
                );
                Ok(())
            },
        }
    }
}

/// A header that is formatted and then loaded shows what was supplied.
///
/// Take any handle on which `format` is accepted, let the engine report
/// success, then load the header under the same type and let the engine
/// report success again. The context then holds a format descriptor whose
/// type, cipher, mode, identifier and key length are exactly those that
/// were given to `format`.
pub proof fn format_then_load_round_trip(
    d: DeviceModel,
    type_: Format,
    cipher: Seq<char>,
    mode: Seq<char>,
    uuid: uuid::Uuid,
    volume_key_len: usize,
    format_status: i32,
    load_status: i32,
)
    requires
        format_verdict(d, type_, cipher, mode, uuid, volume_key_len) is Ok,
        format_status >= 0,
        load_status >= 0,
    ensures
        ({
            let formatted = settled(
                submitted(d, format_verdict(d, type_, cipher, mode, uuid, volume_key_len)),
                format_status,
            );
            let loaded = settled(
                submitted(formatted, free_verdict(formatted, RequestModel::Load { type_ })),
                load_status,
            );
            loaded.header.descriptor() == Some(
                DescriptorModel { type_, cipher, mode, uuid, volume_key_len },
            )
        }),
{
}

/// An edit of the header is applied whole or not at all.
///
/// Let a request to set the identifier or the labels be outstanding.
/// Where the engine reports a failure, the handle is afterwards what it
/// was before the edit was asked for. Where it reports success, the header
/// shows the new value, and everything else that the handle knows is
/// as it was.
pub proof fn header_edits_are_atomic(
    d: DeviceModel,
    h: HeaderModel,
    uuid: uuid::Uuid,
    label: Seq<char>,
    subsystem_label: Seq<char>,
    status: i32,
)
    requires
        d.header == HeaderStateModel::Loaded(h),
        d.outstanding == Some(RequestModel::SetUuid { uuid }) || d.outstanding == Some(
            RequestModel::SetLabel { label, subsystem_label },
        ),
    ensures
        status < 0 ==> settled(d, status) == (DeviceModel { outstanding: None, ..d }),
        status >= 0 && d.outstanding is Some && d.outstanding->Some_0 is SetUuid ==> settled(
            d,
            status,
        ) == (DeviceModel {
            outstanding: None,
            header: HeaderStateModel::Loaded(HeaderModel { uuid: Some(uuid), ..h }),
            ..d
        }),
        status >= 0 && d.outstanding is Some && d.outstanding->Some_0 is SetLabel ==> settled(
            d,
            status,
        ) == (DeviceModel {
            outstanding: None,
            header: HeaderStateModel::Loaded(
                HeaderModel {
                    label: Some(
                        crate::header::LabelModel { label, subsystem: subsystem_label },
                    ),
                    ..h
                },
            ),
            ..d
        }),
{
}

} // verus!
