//! What a device handle knows of the header on its device.

use crate::format::{DescriptorModel, Format, FormatDescriptor};
use vstd::prelude::*;

verus! {

/// The cipher of a header, with the length of the volume key that it takes.
#[derive(Debug, PartialEq)]
pub struct Cipher {
    /// The cipher name
    pub name: String,
    /// The cipher mode
    pub mode: String,
    /// The length of the volume key in bytes
    pub volume_key_len: usize,
}

/// The labels of a header.
#[derive(Debug, PartialEq)]
pub struct Label {
    /// The label
    pub label: String,
    /// The subsystem label
    pub subsystem: String,
}

/// A header that is read into the context. Its type is always known; the
/// rest is known as far as this handle wrote it.
#[derive(Debug, PartialEq)]
pub struct Header {
    /// The header type
    pub type_: Format,
    /// The identifier, where known
    pub uuid: Option<uuid::Uuid>,
    /// The cipher, where known
    pub cipher: Option<Cipher>,
    /// The labels, where known
    pub label: Option<Label>,
}

/// What the context holds of the device's header.
#[derive(Debug, PartialEq)]
pub enum HeaderState {
    /// No header is read into the context.
    Absent,
    /// The last attempt to read the header found it damaged.
    Corrupt,
    /// A header is read into the context.
    Loaded(Header),
}

/// The mathematical value of a `Cipher`.
pub struct CipherModel {
    pub name: Seq<char>,
    pub mode: Seq<char>,
    pub volume_key_len: usize,
}

/// The mathematical value of a `Label`.
pub struct LabelModel {
    pub label: Seq<char>,
    pub subsystem: Seq<char>,
}

/// The mathematical value of a `Header`.
pub struct HeaderModel {
    pub type_: Format,
    pub uuid: Option<uuid::Uuid>,
    pub cipher: Option<CipherModel>,
    pub label: Option<LabelModel>,
}

/// The mathematical value of a `HeaderState`.
pub enum HeaderStateModel {
    Absent,
    Corrupt,
    Loaded(HeaderModel),
}

impl View for Cipher {
    type V = CipherModel;

    open spec fn view(&self) -> CipherModel {
        CipherModel { name: self.name@, mode: self.mode@, volume_key_len: self.volume_key_len }
    }
}

impl View for Label {
    type V = LabelModel;

    open spec fn view(&self) -> LabelModel {
        LabelModel { label: self.label@, subsystem: self.subsystem@ }
    }
}

impl View for Header {
    type V = HeaderModel;

    open spec fn view(&self) -> HeaderModel {
        HeaderModel {
            type_: self.type_,
            uuid: self.uuid,
            cipher: match self.cipher {
                Some(c) => Some(c@),
                None => None,
            },
            label: match self.label {
                Some(l) => Some(l@),
                None => None,
            },
        }
    }
}

impl View for HeaderState {
    type V = HeaderStateModel;

    open spec fn view(&self) -> HeaderStateModel {
        match *self {
            HeaderState::Absent => HeaderStateModel::Absent,
            HeaderState::Corrupt => HeaderStateModel::Corrupt,
            HeaderState::Loaded(h) => HeaderStateModel::Loaded(h@),
        }
    }
}

impl HeaderModel {
    /// A header of which only the type is known.
    pub open spec fn bare(type_: Format) -> HeaderModel {
        HeaderModel { type_, uuid: None, cipher: None, label: None }
    }

    /// The format descriptor, where the identifier and the cipher are
    /// known.
    pub open spec fn descriptor(self) -> Option<DescriptorModel> {
        match (self.uuid, self.cipher) {
            (Some(uuid), Some(cipher)) => Some(
                DescriptorModel {
                    type_: self.type_,
                    cipher: cipher.name,
                    mode: cipher.mode,
                    uuid,
                    volume_key_len: cipher.volume_key_len,
                },
            ),
            _ => None,
        }
    }
}

impl HeaderStateModel {
    /// The format descriptor, where a header is loaded and its identifier
    /// and cipher are known.
    pub open spec fn descriptor(self) -> Option<DescriptorModel> {
        match self {
            HeaderStateModel::Loaded(h) => h.descriptor(),
            _ => None,
        }
    }
}

impl Header {
    /// A header of which only the type is known.
    pub fn bare(type_: Format) -> (h: Header)
        ensures
            h@ == HeaderModel::bare(type_),
    {
        Header { type_, uuid: None, cipher: None, label: None }
    }

    /// The format descriptor, where the identifier and the cipher are
    /// known.
    pub fn descriptor(&self) -> (d: Option<FormatDescriptor>)
        ensures
            d is Some <==> self@.descriptor() is Some,
            d matches Some(x) ==> Some(x@) == self@.descriptor(),
    {
        match (&self.uuid, &self.cipher) {
            (Some(uuid), Some(cipher)) => Some(
                FormatDescriptor {
                    type_: self.type_,
                    cipher: cipher.name.clone(),
                    mode: cipher.mode.clone(),
                    uuid: *uuid,
                    volume_key_len: cipher.volume_key_len,
                },
            ),
            _ => None,
        }
    }
}

impl HeaderState {
    /// The format descriptor, where a header is loaded and its identifier
    /// and cipher are known.
    pub fn descriptor(&self) -> (d: Option<FormatDescriptor>)
        ensures
            d is Some <==> self@.descriptor() is Some,
            d matches Some(x) ==> Some(x@) == self@.descriptor(),
    {
        match self {
            HeaderState::Loaded(h) => h.descriptor(),
            _ => None,
        }
    }

    /// The type of the loaded header, if one is loaded.
    pub fn loaded_type(&self) -> (t: Option<Format>)
        ensures
            t == (match self@ {
                HeaderStateModel::Loaded(h) => Some(h.type_),
                _ => None,
            }),
    {
        match self {
            HeaderState::Loaded(h) => Some(h.type_),
            _ => None,
        }
    }
}

} // verus!
