//! Header types and the descriptor of a formatted header.

use vstd::prelude::*;

verus! {

/// `uuid::Uuid`, carried through unread: the library stores the identifier
/// that the caller supplied and hands the same value on.
#[verifier::external_type_specification]
#[verifier::external_body]
pub struct ExUuid(uuid::Uuid);

/// The keyslot number that leaves the choice of the slot to the engine.
pub const ANY_SLOT: i32 = -1;

/// The header types that the engine knows.
#[derive(Clone, Copy, Debug, PartialEq, Eq, Structural)]
pub enum Format {
    /// Plain mapping without a header
    Plain,
    /// LUKS version 1
    Luks1,
    /// LUKS version 2
    Luks2,
    /// Loop-AES compatible mapping
    Loopaes,
    /// Verity
    Verity,
    /// TrueCrypt or VeraCrypt compatible mapping
    Tcrypt,
    /// Integrity
    Integrity,
}

/// The name by which the engine knows a header type.
pub open spec fn format_name(format: Format) -> Seq<char> {
    match format {
        Format::Plain => "PLAIN"@,
        Format::Luks1 => "LUKS1"@,
        Format::Luks2 => "LUKS2"@,
        Format::Loopaes => "LOOPAES"@,
        Format::Verity => "VERITY"@,
        Format::Tcrypt => "TCRYPT"@,
        Format::Integrity => "INTEGRITY"@,
    }
}

/// How many keyslots a header of the given type holds. Only the two LUKS
/// versions have keyslots.
pub open spec fn keyslot_limit(format: Format) -> int {
    match format {
        Format::Luks1 => 8,
        Format::Luks2 => 32,
        _ => 0,
    }
}

/// Whether `keyslot` names a slot of a header of type `format`, or leaves
/// the choice to the engine.
pub open spec fn keyslot_allowed(format: Format, keyslot: int) -> bool {
    keyslot == ANY_SLOT || 0 <= keyslot < keyslot_limit(format)
}

impl Format {
    /// The name by which the engine knows this header type.
    pub fn name(self) -> (name: &'static str)
        ensures
            name@ == format_name(self),
    {
        match self {
            Format::Plain => "PLAIN",
            Format::Luks1 => "LUKS1",
            Format::Luks2 => "LUKS2",
            Format::Loopaes => "LOOPAES",
            Format::Verity => "VERITY",
            Format::Tcrypt => "TCRYPT",
            Format::Integrity => "INTEGRITY",
        }
    }

    /// How many keyslots a header of this type holds.
    pub fn keyslots(self) -> (limit: i32)
        ensures
            limit == keyslot_limit(self),
    {
        match self {
            Format::Luks1 => 8,
            Format::Luks2 => 32,
            _ => 0,
        }
    }

    /// Whether `keyslot` names a slot of a header of this type, or is
    /// `ANY_SLOT`.
    pub fn allows_keyslot(self, keyslot: i32) -> (ok: bool)
        ensures
            ok == keyslot_allowed(self, keyslot as int),
    {
        keyslot == ANY_SLOT || (0 <= keyslot && keyslot < self.keyslots())
    }
}

/// What identifies a formatted header and fixes how its payload is
/// encrypted.
#[derive(Debug, PartialEq)]
pub struct FormatDescriptor {
    /// The header type
    pub type_: Format,
    /// The cipher name
    pub cipher: String,
    /// The cipher mode
    pub mode: String,
    /// The identifier of the header
    pub uuid: uuid::Uuid,
    /// The length of the volume key in bytes
    pub volume_key_len: usize,
}

/// The mathematical value of a `FormatDescriptor`.
pub struct DescriptorModel {
    /// The header type
    pub type_: Format,
    /// The cipher name
    pub cipher: Seq<char>,
    /// The cipher mode
    pub mode: Seq<char>,
    /// The identifier of the header
    pub uuid: uuid::Uuid,
    /// The length of the volume key in bytes
    pub volume_key_len: usize,
}

impl View for FormatDescriptor {
    type V = DescriptorModel;

    open spec fn view(&self) -> DescriptorModel {
        DescriptorModel {
            type_: self.type_,
            cipher: self.cipher@,
            mode: self.mode@,
            uuid: self.uuid,
            volume_key_len: self.volume_key_len,
        }
    }
}

} // verus!
