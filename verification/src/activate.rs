//! Activating and deactivating mappings.
//!
//! The handle keeps the names that it knows to be active. A name that is
//! known to be active is never activated again, so a mapping is never
//! remade with other key material behind the caller's back; a name that
//! is not known to be active is never deactivated.

use crate::context::loaded_header;
use crate::device::{accepted, answer, settled, submitted, CryptDevice, DeviceModel};
use crate::err::{refusal, ErrorKind, LibcryptErr, EEXIST, ENODEV};
use crate::format::keyslot_allowed;
use crate::header::HeaderState;
use crate::key::VolumeKey;
use crate::request::{Request, RequestModel};
use crate::sound::sound;
use crate::text::{c_text, is_c_text};
use vstd::prelude::*;
use vstd::string::*;

verus! {

/// Whether `activate_by_passphrase` is accepted. A header must be loaded,
/// the keyslot must be one of its slots or `ANY_SLOT`, and the name must
/// not be known to be active.
pub open spec fn activate_by_passphrase_verdict(
    d: DeviceModel,
    name: Seq<char>,
    keyslot: i32,
    passphrase_len: usize,
    flags: u32,
) -> Result<RequestModel, LibcryptErr> {
    if d.outstanding is Some {
        Err(refusal(ErrorKind::DeviceBusy))
    } else if !c_text(name) {
        Err(refusal(ErrorKind::InvalidArgument))
    } else {
        match loaded_header(d) {
            Err(e) => Err(e),
            Ok(h) => if !keyslot_allowed(h.type_, keyslot as int) {
                Err(refusal(ErrorKind::InvalidArgument))
            } else if d.mappings.contains_key(name) {
                Err(refusal(ErrorKind::AlreadyActive))
            } else {
                Ok(RequestModel::ActivateByPassphrase { name, keyslot, passphrase_len, flags })
            },
        }
    }
}

/// Whether `activate_by_keyfile_device_offset` is accepted. The name and
/// the path of the keyfile must be able to cross to the engine; the rest
/// is as for a passphrase.
pub open spec fn activate_by_keyfile_verdict(
    d: DeviceModel,
    name: Seq<char>,
    keyslot: i32,
    keyfile: Seq<char>,
    keyfile_size: usize,
    keyfile_offset: u64,
    flags: u32,
) -> Result<RequestModel, LibcryptErr> {
    if d.outstanding is Some {
        Err(refusal(ErrorKind::DeviceBusy))
    } else if !c_text(name) || !c_text(keyfile) {
        Err(refusal(ErrorKind::InvalidArgument))
    } else {
        match loaded_header(d) {
            Err(e) => Err(e),
            Ok(h) => if !keyslot_allowed(h.type_, keyslot as int) {
                Err(refusal(ErrorKind::InvalidArgument))
            } else if d.mappings.contains_key(name) {
                Err(refusal(ErrorKind::AlreadyActive))
            } else {
                Ok(
                    RequestModel::ActivateByKeyfileDeviceOffset {
                        name,
                        keyslot,
                        keyfile,
                        keyfile_size,
                        keyfile_offset,
                        flags,
                    },
                )
            },
        }
    }
}

/// Whether `activate_by_volume_key` is accepted. A header must be loaded,
/// the key must have the length that the header's cipher takes, as far as
/// that is known, and the name must not be known to be active.
pub open spec fn activate_by_volume_key_verdict(
    d: DeviceModel,
    name: Seq<char>,
    volume_key_len: usize,
    flags: u32,
) -> Result<RequestModel, LibcryptErr> {
    if d.outstanding is Some {
        Err(refusal(ErrorKind::DeviceBusy))
    } else if !c_text(name) {
        Err(refusal(ErrorKind::InvalidArgument))
    } else {
        match loaded_header(d) {
            Err(e) => Err(e),
            Ok(h) => if h.cipher is Some && h.cipher->Some_0.volume_key_len != volume_key_len {
                Err(refusal(ErrorKind::InvalidArgument))
            } else if d.mappings.contains_key(name) {
                Err(refusal(ErrorKind::AlreadyActive))
            } else {
                Ok(RequestModel::ActivateByVolumeKey { name, volume_key_len, flags })
            },
        }
    }
}

/// Whether `deactivate` is accepted. The name must be known to be active.
pub open spec fn deactivate_verdict(d: DeviceModel, name: Seq<char>) -> Result<
    RequestModel,
    LibcryptErr,
> {
    if d.outstanding is Some {
        Err(refusal(ErrorKind::DeviceBusy))
    } else if !c_text(name) {
        Err(refusal(ErrorKind::InvalidArgument))
    } else if !d.mappings.contains_key(name) {
        Err(refusal(ErrorKind::NotActive))
    } else {
        Ok(RequestModel::Deactivate { name })
    }
}

/// Handle for activation options
pub struct CryptActivation<'a> {
    /// The device that this handle borrows for itself alone
    pub reference: &'a mut CryptDevice,
}

impl CryptDevice {
    /// Get an activation handle
    pub fn activate_handle(&mut self) -> (handle: CryptActivation<'_>)
        ensures
            handle.device() == old(self)@,
            *final(handle.reference) == *final(self),
    {
        CryptActivation::new(self)
    }
}

impl<'a> CryptActivation<'a> {
    /// The device as it stands.
    pub open spec fn device(&self) -> DeviceModel {
        (*self.reference)@
    }

    /// Borrows the device for activation.
    pub fn new(reference: &'a mut CryptDevice) -> (activation: Self)
        ensures
            activation.device() == old(reference)@,
            *final(activation.reference) == *final(reference),
    {
        CryptActivation { reference }
    }

    /// Activate device by passphrase.
    ///
    /// The keyslot that opened is the value that `CryptDevice::complete`
    /// hands back for this request.
    pub fn activate_by_passphrase(
        &mut self,
        name: &str,
        keyslot: i32,
        passphrase: &str,
        flags: u32,
    ) -> (r: Result<(), LibcryptErr>)
        ensures
            r == accepted(
                activate_by_passphrase_verdict(
                    old(self).device(),
                    name@,
                    keyslot,
                    passphrase.spec_bytes().len() as usize,
                    flags,
                ),
            ),
            final(self).device() == submitted(
                old(self).device(),
                activate_by_passphrase_verdict(
                    old(self).device(),
                    name@,
                    keyslot,
                    passphrase.spec_bytes().len() as usize,
                    flags,
                ),
            ),
            sound(old(self).device()) ==> sound(final(self).device()),
            *final(final(self).reference) == *final(old(self).reference),
    {
        if self.reference.is_busy() {
            return Err(LibcryptErr::refused(ErrorKind::DeviceBusy));
        }
        if !is_c_text(name) {
            return Err(LibcryptErr::refused(ErrorKind::InvalidArgument));
        }
        let allowed = match self.reference.header() {
            HeaderState::Loaded(h) => h.type_.allows_keyslot(keyslot),
            HeaderState::Absent => {
                return Err(LibcryptErr::refused(ErrorKind::HeaderNotFound));
            },
            HeaderState::Corrupt => {
                return Err(LibcryptErr::refused(ErrorKind::HeaderCorrupt));
            },
        };
        if !allowed {
            return Err(LibcryptErr::refused(ErrorKind::InvalidArgument));
        }
        if self.reference.mapping(name).is_some() {
            return Err(LibcryptErr::refused(ErrorKind::AlreadyActive));
        }
        self.reference.submit(
            Request::ActivateByPassphrase {
                name: name.to_owned(),
                keyslot,
                passphrase_len: passphrase.len(),
                flags,
            },
        );
        Ok(())
    }

    /// Activate device by key file at an offset on disk.
    ///
    /// The engine reads the key from the file itself; the library never
    /// holds it. The keyslot that opened is the value that
    /// `CryptDevice::complete` hands back for this request.
    pub fn activate_by_keyfile_device_offset(
        &mut self,
        name: &str,
        keyslot: i32,
        keyfile: &str,
        keyfile_size: usize,
        keyfile_offset: u64,
        flags: u32,
    ) -> (r: Result<(), LibcryptErr>)
        ensures
            r == accepted(
                activate_by_keyfile_verdict(
                    old(self).device(),
                    name@,
                    keyslot,
                    keyfile@,
                    keyfile_size,
                    keyfile_offset,
                    flags,
                ),
            ),
            final(self).device() == submitted(
                old(self).device(),
                activate_by_keyfile_verdict(
                    old(self).device(),
                    name@,
                    keyslot,
                    keyfile@,
                    keyfile_size,
                    keyfile_offset,
                    flags,
                ),
            ),
            sound(old(self).device()) ==> sound(final(self).device()),
            *final(final(self).reference) == *final(old(self).reference),
    {
        if self.reference.is_busy() {
            return Err(LibcryptErr::refused(ErrorKind::DeviceBusy));
        }
        if !is_c_text(name) || !is_c_text(keyfile) {
            return Err(LibcryptErr::refused(ErrorKind::InvalidArgument));
        }
        let allowed = match self.reference.header() {
            HeaderState::Loaded(h) => h.type_.allows_keyslot(keyslot),
            HeaderState::Absent => {
                return Err(LibcryptErr::refused(ErrorKind::HeaderNotFound));
            },
            HeaderState::Corrupt => {
                return Err(LibcryptErr::refused(ErrorKind::HeaderCorrupt));
            },
        };
        if !allowed {
            return Err(LibcryptErr::refused(ErrorKind::InvalidArgument));
        }
        if self.reference.mapping(name).is_some() {
            return Err(LibcryptErr::refused(ErrorKind::AlreadyActive));
        }
        self.reference.submit(
            Request::ActivateByKeyfileDeviceOffset {
                name: name.to_owned(),
                keyslot,
                keyfile: keyfile.to_owned(),
                keyfile_size,
                keyfile_offset,
                flags,
            },
        );
        Ok(())
    }

    /// Activate device by volume key.
    pub fn activate_by_volume_key(&mut self, name: &str, volume_key: &VolumeKey, flags: u32) -> (r:
        Result<(), LibcryptErr>)
        ensures
            r == accepted(
                activate_by_volume_key_verdict(
                    old(self).device(),
                    name@,
                    volume_key@.len() as usize,
                    flags,
                ),
            ),
            final(self).device() == submitted(
                old(self).device(),
                activate_by_volume_key_verdict(
                    old(self).device(),
                    name@,
                    volume_key@.len() as usize,
                    flags,
                ),
            ),
            sound(old(self).device()) ==> sound(final(self).device()),
            *final(final(self).reference) == *final(old(self).reference),
    {
        if self.reference.is_busy() {
            return Err(LibcryptErr::refused(ErrorKind::DeviceBusy));
        }
        if !is_c_text(name) {
            return Err(LibcryptErr::refused(ErrorKind::InvalidArgument));
        }
        let fits = match self.reference.header() {
            HeaderState::Loaded(h) => match &h.cipher {
                Some(cipher) => cipher.volume_key_len == volume_key.len(),
                None => true,
            },
            HeaderState::Absent => {
                return Err(LibcryptErr::refused(ErrorKind::HeaderNotFound));
            },
            HeaderState::Corrupt => {
                return Err(LibcryptErr::refused(ErrorKind::HeaderCorrupt));
            },
        };
        if !fits {
            return Err(LibcryptErr::refused(ErrorKind::InvalidArgument));
        }
        if self.reference.mapping(name).is_some() {
            return Err(LibcryptErr::refused(ErrorKind::AlreadyActive));
        }
        self.reference.submit(
            Request::ActivateByVolumeKey {
                name: name.to_owned(),
                volume_key_len: volume_key.len(),
                flags,
            },
        );
        Ok(())
    }

    /// Deactivate crypt device, removing active device mapping.
    pub fn deactivate(&mut self, name: &str) -> (r: Result<(), LibcryptErr>)
        ensures
            r == accepted(deactivate_verdict(old(self).device(), name@)),
            final(self).device() == submitted(
                old(self).device(),
                deactivate_verdict(old(self).device(), name@),
            ),
            sound(old(self).device()) ==> sound(final(self).device()),
            *final(final(self).reference) == *final(old(self).reference),
    {
        if self.reference.is_busy() {
            return Err(LibcryptErr::refused(ErrorKind::DeviceBusy));
        }
        if !is_c_text(name) {
            return Err(LibcryptErr::refused(ErrorKind::InvalidArgument));
        }
        if self.reference.mapping(name).is_none() {
            return Err(LibcryptErr::refused(ErrorKind::NotActive));
        }
        self.reference.submit(Request::Deactivate { name: name.to_owned() });
        Ok(())
    }
}

/// Activating a name twice is refused the second time.
///
/// Take any handle on which the activation of `name` with a passphrase is
/// accepted, and let the engine report success. Every further activation
/// of `name`, with whatever keyslot, passphrase or volume key, is then
/// refused as already active, and nothing is asked of the engine.
pub proof fn second_activation_is_refused(
    d: DeviceModel,
    name: Seq<char>,
    keyslot: i32,
    passphrase_len: usize,
    flags: u32,
    status: i32,
    keyslot_again: i32,
    len_again: usize,
    flags_again: u32,
)
    requires
        activate_by_passphrase_verdict(d, name, keyslot, passphrase_len, flags) is Ok,
        status >= 0,
        keyslot_allowed(loaded_header(d)->Ok_0.type_, keyslot_again as int),
    ensures
        ({
            let active = settled(
                submitted(
                    d,
                    activate_by_passphrase_verdict(d, name, keyslot, passphrase_len, flags),
                ),
                status,
            );
            &&& active.mappings.contains_key(name)
            &&& activate_by_passphrase_verdict(active, name, keyslot_again, len_again, flags_again)
                == Err::<RequestModel, LibcryptErr>(refusal(ErrorKind::AlreadyActive))
            &&& activate_by_volume_key_verdict(active, name, len_again, flags_again) is Err
            &&& activate_by_keyfile_verdict(
                active,
                name,
                keyslot_again,
                name,
                len_again,
                0,
                flags_again,
            ) == Err::<RequestModel, LibcryptErr>(refusal(ErrorKind::AlreadyActive))
            &&& submitted(
                active,
                activate_by_passphrase_verdict(active, name, keyslot_again, len_again, flags_again),
            ) == active
        }),
{
}

/// The same holds after an activation with a volume key.
pub proof fn second_activation_by_key_is_refused(
    d: DeviceModel,
    name: Seq<char>,
    volume_key_len: usize,
    flags: u32,
    status: i32,
    flags_again: u32,
)
    requires
        activate_by_volume_key_verdict(d, name, volume_key_len, flags) is Ok,
        status >= 0,
    ensures
        ({
            let active = settled(
                submitted(d, activate_by_volume_key_verdict(d, name, volume_key_len, flags)),
                status,
            );
            &&& active.mappings.contains_key(name)
            &&& activate_by_volume_key_verdict(active, name, volume_key_len, flags_again) == Err::<
                RequestModel,
                LibcryptErr,
            >(refusal(ErrorKind::AlreadyActive))
        }),
{
}

/// Deactivating a name that was never activated is refused as not active.
///
/// On a freshly opened handle, and on every handle that does not know
/// `name` to be active, `deactivate` answers `NotActive` for every name
/// that can cross to the engine, and asks nothing of the engine.
pub proof fn deactivating_an_inactive_name_is_refused(d: DeviceModel, name: Seq<char>)
    requires
        d.outstanding is None,
        c_text(name),
        !d.mappings.contains_key(name),
    ensures
        deactivate_verdict(d, name) == Err::<RequestModel, LibcryptErr>(
            refusal(ErrorKind::NotActive),
        ),
        submitted(d, deactivate_verdict(d, name)) == d,
        deactivate_verdict(crate::device::opened(d.path, d.backing_size), name) == Err::<
            RequestModel,
            LibcryptErr,
        >(refusal(ErrorKind::NotActive)),
{
}

/// Where the engine itself finds the name active, or not active, its
/// answer reads as exactly that kind, and the handle remembers it.
pub proof fn engine_answers_on_activity(d: DeviceModel, name: Seq<char>, status: i32)
    requires
        d.outstanding is Some,
    ensures
        status == -EEXIST ==> answer(d, status) == Err::<i32, LibcryptErr>(
            LibcryptErr { kind: ErrorKind::AlreadyActive, status },
        ),
        status == -ENODEV ==> answer(d, status) == Err::<i32, LibcryptErr>(
            LibcryptErr { kind: ErrorKind::NotActive, status },
        ),
        status == -ENODEV && d.outstanding == Some(RequestModel::Deactivate { name }) ==> !settled(
            d,
            status,
        ).mappings.contains_key(name),
        status == -EEXIST && (d.outstanding matches Some(
            RequestModel::ActivateByVolumeKey { name: n, .. },
        ) && n == name) ==> settled(d, status).mappings.contains_key(name),
        status == -EEXIST && (d.outstanding matches Some(
            RequestModel::ActivateByPassphrase { name: n, .. },
        ) && n == name) ==> settled(d, status).mappings.contains_key(name),
        status == -EEXIST && (d.outstanding matches Some(
            RequestModel::ActivateByKeyfileDeviceOffset { name: n, .. },
        ) && n == name) ==> settled(d, status).mappings.contains_key(name),
{
}

} // verus!
