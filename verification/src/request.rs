//! What the engine is asked to do.
//!
//! A request names one call of the engine and holds the arguments that the
//! library has checked. Secrets are not part of it: a request carries the
//! length of a passphrase or key, and the caller hands the bytes themselves
//! to the engine from the buffer that it owns.

use crate::format::Format;
use crate::reencrypt::{Chunk, CryptParamsReencrypt};
use crate::Bool;
use vstd::prelude::*;

verus! {

/// One call of the engine, with its checked arguments.
#[derive(Debug, PartialEq)]
pub enum Request {
    /// Write a brand-new header.
    Format { type_: Format, cipher: String, mode: String, uuid: uuid::Uuid, volume_key_len: usize },
    /// Convert the header to another type.
    Convert { type_: Format },
    /// Set the identifier of the header.
    SetUuid { uuid: uuid::Uuid },
    /// Set the label and the subsystem label of the header.
    SetLabel { label: String, subsystem_label: String },
    /// Set whether volume keys are loaded through the kernel keyring.
    VolumeKeyKeyring { enable: Bool },
    /// Read the header of the given type into the context.
    Load { type_: Format },
    /// Repair the header of the given type.
    Repair { type_: Format },
    /// Change the size of an active mapping, in sectors.
    Resize { name: String, new_size: u64 },
    /// Freeze the I/O of an active mapping.
    Suspend { name: String },
    /// Thaw a suspended mapping with a passphrase.
    ResumeByPassphrase { name: String, keyslot: i32, passphrase_len: usize },
    /// Thaw a suspended mapping with a key read from a file.
    ResumeByKeyfileDeviceOffset {
        name: String,
        keyslot: i32,
        keyfile: String,
        keyfile_size: usize,
        keyfile_offset: u64,
    },
    /// Add a keyslot that a new passphrase opens.
    KeyslotAddByPassphrase { keyslot: i32, passphrase_len: usize, new_passphrase_len: usize },
    /// Add a keyslot for a volume key that is at hand.
    KeyslotAddByVolumeKey { keyslot: i32, volume_key_len: usize, passphrase_len: usize },
    /// Replace the passphrase of a keyslot; the key material stays.
    KeyslotChangeByPassphrase {
        keyslot_old: i32,
        keyslot_new: i32,
        passphrase_len: usize,
        new_passphrase_len: usize,
    },
    /// Destroy a keyslot and wipe its key material.
    KeyslotDestroy { keyslot: i32 },
    /// Report the state of a keyslot.
    KeyslotStatus { keyslot: i32 },
    /// Open a keyslot with a passphrase and hand out the volume key.
    VolumeKeyGet { keyslot: i32, passphrase_len: usize },
    /// Activate a mapping with a passphrase.
    ActivateByPassphrase { name: String, keyslot: i32, passphrase_len: usize, flags: u32 },
    /// Activate a mapping with a key read from a file.
    ActivateByKeyfileDeviceOffset {
        name: String,
        keyslot: i32,
        keyfile: String,
        keyfile_size: usize,
        keyfile_offset: u64,
        flags: u32,
    },
    /// Activate a mapping with a volume key.
    ActivateByVolumeKey { name: String, volume_key_len: usize, flags: u32 },
    /// Deactivate a mapping.
    Deactivate { name: String },
    /// Persist a new reencryption at offset 0.
    ReencryptInit { params: CryptParamsReencrypt },
    /// Convert one chunk of the payload and commit the new offset.
    ReencryptChunk { chunk: Chunk },
    /// Write a token, in the place of whatever the number held before.
    TokenSet { token: i32, body: serde_json::Value },
    /// Take a token away.
    TokenRemove { token: i32 },
    /// Let a token refer to a keyslot.
    TokenAssign { token: i32, keyslot: i32 },
    /// Let a token refer to a keyslot no longer.
    TokenUnassign { token: i32, keyslot: i32 },
}

/// The mathematical value of a `Request`.
pub enum RequestModel {
    Format {
        type_: Format,
        cipher: Seq<char>,
        mode: Seq<char>,
        uuid: uuid::Uuid,
        volume_key_len: usize,
    },
    Convert { type_: Format },
    SetUuid { uuid: uuid::Uuid },
    SetLabel { label: Seq<char>, subsystem_label: Seq<char> },
    VolumeKeyKeyring { enable: Bool },
    Load { type_: Format },
    Repair { type_: Format },
    Resize { name: Seq<char>, new_size: u64 },
    Suspend { name: Seq<char> },
    ResumeByPassphrase { name: Seq<char>, keyslot: i32, passphrase_len: usize },
    ResumeByKeyfileDeviceOffset {
        name: Seq<char>,
        keyslot: i32,
        keyfile: Seq<char>,
        keyfile_size: usize,
        keyfile_offset: u64,
    },
    KeyslotAddByPassphrase { keyslot: i32, passphrase_len: usize, new_passphrase_len: usize },
    KeyslotAddByVolumeKey { keyslot: i32, volume_key_len: usize, passphrase_len: usize },
    KeyslotChangeByPassphrase {
        keyslot_old: i32,
        keyslot_new: i32,
        passphrase_len: usize,
        new_passphrase_len: usize,
    },
    KeyslotDestroy { keyslot: i32 },
    KeyslotStatus { keyslot: i32 },
    VolumeKeyGet { keyslot: i32, passphrase_len: usize },
    ActivateByPassphrase { name: Seq<char>, keyslot: i32, passphrase_len: usize, flags: u32 },
    ActivateByKeyfileDeviceOffset {
        name: Seq<char>,
        keyslot: i32,
        keyfile: Seq<char>,
        keyfile_size: usize,
        keyfile_offset: u64,
        flags: u32,
    },
    ActivateByVolumeKey { name: Seq<char>, volume_key_len: usize, flags: u32 },
    Deactivate { name: Seq<char> },
    ReencryptInit { params: CryptParamsReencrypt },
    ReencryptChunk { chunk: Chunk },
    TokenSet { token: i32, body: serde_json::Value },
    TokenRemove { token: i32 },
    TokenAssign { token: i32, keyslot: i32 },
    TokenUnassign { token: i32, keyslot: i32 },
}

impl View for Request {
    type V = RequestModel;

    open spec fn view(&self) -> RequestModel {
        match *self {
            Request::Format { type_, cipher, mode, uuid, volume_key_len } => RequestModel::Format {
                type_,
                cipher: cipher@,
                mode: mode@,
                uuid,
                volume_key_len,
            },
            Request::Convert { type_ } => RequestModel::Convert { type_ },
            Request::SetUuid { uuid } => RequestModel::SetUuid { uuid },
            Request::SetLabel { label, subsystem_label } => RequestModel::SetLabel {
                label: label@,
                subsystem_label: subsystem_label@,
            },
            Request::VolumeKeyKeyring { enable } => RequestModel::VolumeKeyKeyring { enable },
            Request::Load { type_ } => RequestModel::Load { type_ },
            Request::Repair { type_ } => RequestModel::Repair { type_ },
            Request::Resize { name, new_size } => RequestModel::Resize { name: name@, new_size },
            Request::Suspend { name } => RequestModel::Suspend { name: name@ },
            Request::ResumeByPassphrase {
                name,
                keyslot,
                passphrase_len,
            } => RequestModel::ResumeByPassphrase { name: name@, keyslot, passphrase_len },
            Request::ResumeByKeyfileDeviceOffset {
                name,
                keyslot,
                keyfile,
                keyfile_size,
                keyfile_offset,
            } => RequestModel::ResumeByKeyfileDeviceOffset {
                name: name@,
                keyslot,
                keyfile: keyfile@,
                keyfile_size,
                keyfile_offset,
            },
            Request::KeyslotAddByPassphrase {
                keyslot,
                passphrase_len,
                new_passphrase_len,
            } => RequestModel::KeyslotAddByPassphrase {
                keyslot,
                passphrase_len,
                new_passphrase_len,
            },
            Request::KeyslotAddByVolumeKey {
                keyslot,
                volume_key_len,
                passphrase_len,
            } => RequestModel::KeyslotAddByVolumeKey { keyslot, volume_key_len, passphrase_len },
            Request::KeyslotChangeByPassphrase {
                keyslot_old,
                keyslot_new,
                passphrase_len,
                new_passphrase_len,
            } => RequestModel::KeyslotChangeByPassphrase {
                keyslot_old,
                keyslot_new,
                passphrase_len,
                new_passphrase_len,
            },
            Request::KeyslotDestroy { keyslot } => RequestModel::KeyslotDestroy { keyslot },
            Request::KeyslotStatus { keyslot } => RequestModel::KeyslotStatus { keyslot },
            Request::VolumeKeyGet { keyslot, passphrase_len } => RequestModel::VolumeKeyGet {
                keyslot,
                passphrase_len,
            },
            Request::ActivateByPassphrase {
                name,
                keyslot,
                passphrase_len,
                flags,
            } => RequestModel::ActivateByPassphrase { name: name@, keyslot, passphrase_len, flags },
            Request::ActivateByKeyfileDeviceOffset {
                name,
                keyslot,
                keyfile,
                keyfile_size,
                keyfile_offset,
                flags,
            } => RequestModel::ActivateByKeyfileDeviceOffset {
                name: name@,
                keyslot,
                keyfile: keyfile@,
                keyfile_size,
                keyfile_offset,
                flags,
            },
            Request::ActivateByVolumeKey {
                name,
                volume_key_len,
                flags,
            } => RequestModel::ActivateByVolumeKey { name: name@, volume_key_len, flags },
            Request::Deactivate { name } => RequestModel::Deactivate { name: name@ },
            Request::ReencryptInit { params } => RequestModel::ReencryptInit { params },
            Request::ReencryptChunk { chunk } => RequestModel::ReencryptChunk { chunk },
            Request::TokenSet { token, body } => RequestModel::TokenSet { token, body },
            Request::TokenRemove { token } => RequestModel::TokenRemove { token },
            Request::TokenAssign { token, keyslot } => RequestModel::TokenAssign { token, keyslot },
            Request::TokenUnassign { token, keyslot } => RequestModel::TokenUnassign {
                token,
                keyslot,
            },
        }
    }
}

} // verus!
