//! The device handle: the state of one open header session, and the
//! settling of the engine's answers.
//!
//! At most one request is outstanding at a time. The status that settles it
//! is the one that the engine returned for that very call, because no other
//! operation is accepted in between.

use crate::err::{kind_of_status, refusal, status_outcome, ErrorKind, LibcryptErr};
use crate::format::{Format, FormatDescriptor};
use crate::header::{
    Cipher, CipherModel, Header, HeaderModel, HeaderState, HeaderStateModel, Label, LabelModel,
};
use crate::mapping::MappingTable;
use crate::reencrypt::{not_started, Reencryption};
use crate::request::{Request, RequestModel};
use crate::sound::{opened_is_sound, settling_keeps_sound, sound};
use crate::text::{c_text, is_c_text};
use crate::token::{
    token_named, with_reference, without_reference, Token, TokenModel, TokenTable,
};
use crate::Bool;
use vstd::prelude::*;

verus! {

/// The mathematical value of a `CryptDevice`.
pub struct DeviceModel {
    /// The path of the backing storage
    pub path: Seq<char>,
    /// The size of the backing storage in sectors
    pub backing_size: u64,
    /// The request that the engine has not answered yet
    pub outstanding: Option<RequestModel>,
    /// What the context holds of the header
    pub header: HeaderStateModel,
    /// Whether volume keys are loaded through the kernel keyring
    pub keyring: Bool,
    /// The mappings known to be active, each with whether it is suspended
    pub mappings: Map<Seq<char>, bool>,
    /// The reencryption of the device
    pub reencrypt: Reencryption,
    /// The tokens of the header, by number
    pub tokens: Map<int, TokenModel>,
}

/// The handle of the device at `path`, whose storage has `backing_size`
/// sectors, before anything was asked of it.
pub open spec fn opened(path: Seq<char>, backing_size: u64) -> DeviceModel {
    DeviceModel {
        path,
        backing_size,
        outstanding: None,
        header: HeaderStateModel::Absent,
        keyring: Bool::Yes,
        mappings: Map::empty(),
        reencrypt: not_started(),
        tokens: Map::empty(),
    }
}

/// The handle once it knows nothing of the header's tokens and
/// reencryption any more.
pub open spec fn forgetful(d: DeviceModel) -> DeviceModel {
    DeviceModel { reencrypt: not_started(), tokens: Map::empty(), ..d }
}

/// Whether a header of type `type_` is loaded.
pub open spec fn holds_type(d: DeviceModel, type_: Format) -> bool {
    d.header matches HeaderStateModel::Loaded(h) && h.type_ == type_
}

/// The handle after an operation was checked: a request that passed the
/// checks is outstanding, a refusal changes nothing.
pub open spec fn submitted(d: DeviceModel, verdict: Result<RequestModel, LibcryptErr>)
    -> DeviceModel {
    match verdict {
        Ok(request) => DeviceModel { outstanding: Some(request), ..d },
        Err(_) => d,
    }
}

/// What the caller of an operation is told once it was checked.
pub open spec fn accepted(verdict: Result<RequestModel, LibcryptErr>) -> Result<(), LibcryptErr> {
    match verdict {
        Ok(_) => Ok(()),
        Err(e) => Err(e),
    }
}

/// What the engine's success on `request` does to a handle with no request
/// outstanding. `status` is what the engine answered: for a token that was
/// written, the number under which it stands.
pub open spec fn succeeded(d: DeviceModel, request: RequestModel, status: i32) -> DeviceModel {
    match request {
        RequestModel::Format { type_, cipher, mode, uuid, volume_key_len } => DeviceModel {
            header: HeaderStateModel::Loaded(
                HeaderModel {
                    type_,
                    uuid: Some(uuid),
                    cipher: Some(CipherModel { name: cipher, mode, volume_key_len }),
                    label: None,
                },
            ),
            ..forgetful(d)
        },
        RequestModel::Convert { type_ } => match d.header {
            HeaderStateModel::Loaded(h) => if type_ == Format::Luks2 {
                DeviceModel { header: HeaderStateModel::Loaded(HeaderModel { type_, ..h }), ..d }
            } else {
                DeviceModel {
                    header: HeaderStateModel::Loaded(HeaderModel { type_, label: None, ..h }),
                    ..forgetful(d)
                }
            },
            _ => d,
        },
        RequestModel::SetUuid { uuid } => match d.header {
            HeaderStateModel::Loaded(h) => DeviceModel {
                header: HeaderStateModel::Loaded(HeaderModel { uuid: Some(uuid), ..h }),
                ..d
            },
            _ => d,
        },
        RequestModel::SetLabel { label, subsystem_label } => match d.header {
            HeaderStateModel::Loaded(h) => DeviceModel {
                header: HeaderStateModel::Loaded(
                    HeaderModel {
                        label: Some(LabelModel { label, subsystem: subsystem_label }),
                        ..h
                    },
                ),
                ..d
            },
            _ => d,
        },
        RequestModel::VolumeKeyKeyring { enable } => DeviceModel { keyring: enable, ..d },
        RequestModel::Load { type_ } | RequestModel::Repair { type_ } => if holds_type(d, type_) {
            d
        } else {
            DeviceModel {
                header: HeaderStateModel::Loaded(HeaderModel::bare(type_)),
                ..forgetful(d)
            }
        },
        RequestModel::Suspend { name } => DeviceModel {
            mappings: d.mappings.insert(name, true),
            ..d
        },
        RequestModel::ResumeByPassphrase { name, .. }
        | RequestModel::ResumeByKeyfileDeviceOffset { name, .. }
        | RequestModel::ActivateByPassphrase { name, .. }
        | RequestModel::ActivateByKeyfileDeviceOffset { name, .. }
        | RequestModel::ActivateByVolumeKey { name, .. } => DeviceModel {
            mappings: d.mappings.insert(name, false),
            ..d
        },
        RequestModel::Deactivate { name } => DeviceModel { mappings: d.mappings.remove(name), ..d },
        RequestModel::ReencryptInit { params } => DeviceModel {
            reencrypt: Reencryption::persisted(params),
            ..d
        },
        RequestModel::ReencryptChunk { chunk } => DeviceModel {
            reencrypt: d.reencrypt.committed(chunk.len),
            ..d
        },
        RequestModel::TokenSet { body, .. } => if token_named(status as int) {
            DeviceModel {
                tokens: d.tokens.insert(
                    status as int,
                    TokenModel { body, keyslots: Set::empty() },
                ),
                ..d
            }
        } else {
            d
        },
        RequestModel::TokenRemove { token } => DeviceModel {
            tokens: d.tokens.remove(token as int),
            ..d
        },
        RequestModel::TokenAssign { token, keyslot } => DeviceModel {
            tokens: with_reference(d.tokens, token as int, keyslot),
            ..d
        },
        RequestModel::TokenUnassign { token, keyslot } => DeviceModel {
            tokens: without_reference(d.tokens, token as int, keyslot),
            ..d
        },
        _ => d,
    }
}

/// What the engine's failure of kind `kind` on `request` does to a handle
/// with no request outstanding. A failure changes nothing but what it
/// reveals: that the header is missing or damaged, that a name is active
/// or not, that a reencryption stopped.
pub open spec fn failed(d: DeviceModel, request: RequestModel, kind: ErrorKind) -> DeviceModel {
    match request {
        RequestModel::Load { .. } | RequestModel::Repair { .. } => match kind {
            ErrorKind::HeaderNotFound => DeviceModel {
                header: HeaderStateModel::Absent,
                ..forgetful(d)
            },
            ErrorKind::HeaderCorrupt => DeviceModel {
                header: HeaderStateModel::Corrupt,
                ..forgetful(d)
            },
            _ => d,
        },
        RequestModel::ActivateByPassphrase { name, .. }
        | RequestModel::ActivateByKeyfileDeviceOffset { name, .. }
        | RequestModel::ActivateByVolumeKey { name, .. } => {
            if kind == ErrorKind::AlreadyActive && !d.mappings.contains_key(name) {
                DeviceModel { mappings: d.mappings.insert(name, false), ..d }
            } else {
                d
            }
        },
        RequestModel::Deactivate { name }
        | RequestModel::Resize { name, .. }
        | RequestModel::Suspend { name }
        | RequestModel::ResumeByPassphrase { name, .. }
        | RequestModel::ResumeByKeyfileDeviceOffset { name, .. } => {
            if kind == ErrorKind::NotActive {
                DeviceModel { mappings: d.mappings.remove(name), ..d }
            } else {
                d
            }
        },
        RequestModel::ReencryptChunk { .. } => DeviceModel {
            reencrypt: d.reencrypt.stopped(),
            ..d
        },
        _ => d,
    }
}

/// The handle after the engine answered the outstanding request with
/// `status`. Where nothing is outstanding, nothing changes.
pub open spec fn settled(d: DeviceModel, status: i32) -> DeviceModel {
    match d.outstanding {
        Some(request) => {
            let idle = DeviceModel { outstanding: None, ..d };
            if status < 0 {
                failed(idle, request, kind_of_status(status as int))
            } else {
                succeeded(idle, request, status)
            }
        },
        None => d,
    }
}

/// What the caller is told when the engine answered the outstanding request
/// with `status`: the status read as a result, or a refusal where nothing
/// is outstanding.
pub open spec fn answer(d: DeviceModel, status: i32) -> Result<i32, LibcryptErr> {
    match d.outstanding {
        Some(_) => status_outcome(status),
        None => Err(refusal(ErrorKind::InvalidArgument)),
    }
}

/// The handle of one device: the owner of everything that the library
/// knows of the device's header session.
#[derive(Debug)]
pub struct CryptDevice {
    path: String,
    backing_size: u64,
    outstanding: Option<Request>,
    header: HeaderState,
    keyring: Bool,
    mappings: MappingTable,
    reencrypt: Reencryption,
    tokens: TokenTable,
}

impl View for CryptDevice {
    type V = DeviceModel;

    closed spec fn view(&self) -> DeviceModel {
        DeviceModel {
            path: self.path@,
            backing_size: self.backing_size,
            outstanding: match self.outstanding {
                Some(request) => Some(request@),
                None => None,
            },
            header: self.header@,
            keyring: self.keyring,
            mappings: self.mappings@,
            reencrypt: self.reencrypt,
            tokens: self.tokens@,
        }
    }
}

impl CryptDevice {
    /// Opens the handle of the device at `path`, whose backing storage has
    /// `backing_size` sectors. The path must be able to cross to the
    /// engine.
    pub fn init(path: &str, backing_size: u64) -> (r: Result<CryptDevice, LibcryptErr>)
        ensures
            c_text(path@) ==> r is Ok && r->Ok_0@ == opened(path@, backing_size),
            !c_text(path@) ==> r is Err && r->Err_0 == refusal(ErrorKind::InvalidArgument),
            r matches Ok(device) ==> sound(device@),
    {
        proof {
            if c_text(path@) {
                opened_is_sound(path@, backing_size);
            }
        }
        if !is_c_text(path) {
            return Err(LibcryptErr::refused(ErrorKind::InvalidArgument));
        }
        Ok(CryptDevice::open(path, backing_size))
    }

    fn open(path: &str, backing_size: u64) -> (device: CryptDevice)
        ensures
            device@ == opened(path@, backing_size),
    {
        CryptDevice {
            path: path.to_owned(),
            backing_size,
            outstanding: None,
            header: HeaderState::Absent,
            keyring: Bool::Yes,
            mappings: MappingTable::new(),
            reencrypt: Reencryption::new(),
            tokens: TokenTable::new(),
        }
    }

    /// The path of the backing storage.
    pub fn path(&self) -> (path: &str)
        ensures
            path@ == self@.path,
    {
        self.path.as_str()
    }

    /// The size of the backing storage in sectors.
    pub fn backing_size(&self) -> (size: u64)
        ensures
            size == self@.backing_size,
    {
        self.backing_size
    }

    /// Whether a request waits for the engine's answer.
    pub fn is_busy(&self) -> (busy: bool)
        ensures
            busy == self@.outstanding is Some,
    {
        self.outstanding.is_some()
    }

    /// The request that waits for the engine's answer.
    pub fn outstanding(&self) -> (request: Option<&Request>)
        ensures
            request is Some <==> self@.outstanding is Some,
            request matches Some(q) ==> self@.outstanding == Some(q@),
    {
        match &self.outstanding {
            Some(request) => Some(request),
            None => None,
        }
    }

    /// What the context holds of the header.
    pub fn header(&self) -> (header: &HeaderState)
        ensures
            header@ == self@.header,
    {
        &self.header
    }

    /// The format descriptor of the loaded header, as far as it is known.
    pub fn descriptor(&self) -> (d: Option<FormatDescriptor>)
        ensures
            d is Some <==> self@.header.descriptor() is Some,
            d matches Some(x) ==> Some(x@) == self@.header.descriptor(),
    {
        self.header.descriptor()
    }

    /// Whether volume keys are loaded through the kernel keyring.
    pub fn keyring(&self) -> (enabled: Bool)
        ensures
            enabled == self@.keyring,
    {
        self.keyring
    }

    /// Whether the mapping `name` is known to be active, and if so whether
    /// it is suspended.
    pub fn mapping(&self, name: &str) -> (found: Option<bool>)
        ensures
            found == (if self@.mappings.contains_key(name@) {
                Some(self@.mappings[name@])
            } else {
                None
            }),
    {
        self.mappings.lookup(name)
    }

    /// The reencryption of the device.
    pub fn reencryption(&self) -> (r: Reencryption)
        ensures
            r == self@.reencrypt,
    {
        self.reencrypt
    }

    /// Makes `request` the outstanding request.
    pub(crate) fn submit(&mut self, request: Request)
        ensures
            final(self)@ == (DeviceModel { outstanding: Some(request@), ..old(self)@ }),
    {
        self.outstanding = Some(request);
    }

    /// Replaces the reencryption of the device.
    pub(crate) fn set_reencryption(&mut self, reencrypt: Reencryption)
        ensures
            final(self)@ == (DeviceModel { reencrypt, ..old(self)@ }),
    {
        self.reencrypt = reencrypt;
    }

    /// Records what the engine reports of the mapping `name`: active and
    /// suspended or not, or not active.
    pub(crate) fn note_mapping(&mut self, name: &str, state: Option<bool>)
        ensures
            final(self)@ == (DeviceModel {
                mappings: match state {
                    Some(suspended) => old(self)@.mappings.insert(name@, suspended),
                    None => old(self)@.mappings.remove(name@),
                },
                ..old(self)@
            }),
    {
        match state {
            Some(suspended) => self.mappings.insert(name, suspended),
            None => self.mappings.remove(name),
        }
    }

    /// The token with the number `token`, if the handle knows one.
    pub fn token(&self, token: i32) -> (found: Option<&Token>)
        ensures
            found is Some <==> self@.tokens.contains_key(token as int),
            found matches Some(t) ==> t@ == self@.tokens[token as int],
    {
        self.tokens.get(token)
    }

    /// The numbers of the tokens that the handle knows, in rising order.
    pub fn token_numbers(&self) -> (found: Vec<i32>)
        ensures
            forall|token: i32| found@.contains(token) <==> self@.tokens.contains_key(token as int),
            forall|i: int, j: int| 0 <= i < j < found@.len() ==> found@[i] < found@[j],
    {
        self.tokens.numbers()
    }

    /// Records the identifier and the cipher of the loaded header as the
    /// engine reports them. Without a loaded header nothing changes.
    pub(crate) fn note_header(&mut self, uuid: uuid::Uuid, cipher: Cipher)
        ensures
            final(self)@ == (match old(self)@.header {
                HeaderStateModel::Loaded(h) => DeviceModel {
                    header: HeaderStateModel::Loaded(
                        HeaderModel { uuid: Some(uuid), cipher: Some(cipher@), ..h },
                    ),
                    ..old(self)@
                },
                _ => old(self)@,
            }),
    {
        match &mut self.header {
            HeaderState::Loaded(h) => {
                h.uuid = Some(uuid);
                h.cipher = Some(cipher);
            },
            _ => {},
        }
    }

    /// Records a token as the engine reports it.
    pub(crate) fn note_token(&mut self, token: i32, value: Token)
        requires
            token_named(token as int),
        ensures
            final(self)@ == (DeviceModel {
                tokens: old(self)@.tokens.insert(token as int, value@),
                ..old(self)@
            }),
    {
        self.tokens.put(token, value);
    }

    /// Forgets what was known of the header's tokens and reencryption.
    fn forget(&mut self)
        ensures
            final(self)@ == forgetful(old(self)@),
    {
        self.reencrypt = Reencryption::new();
        self.tokens.clear();
    }

    fn succeed(&mut self, request: Request, status: i32)
        requires
            old(self)@.outstanding is None,
        ensures
            final(self)@ == succeeded(old(self)@, request@, status),
    {
        match request {
            Request::Format { type_, cipher, mode, uuid, volume_key_len } => {
                self.header = HeaderState::Loaded(
                    Header {
                        type_,
                        uuid: Some(uuid),
                        cipher: Some(Cipher { name: cipher, mode, volume_key_len }),
                        label: None,
                    },
                );
                self.forget();
            },
            Request::Convert { type_ } => {
                match &mut self.header {
                    HeaderState::Loaded(h) => {
                        h.type_ = type_;
                        if type_ != Format::Luks2 {
                            h.label = None;
                            self.forget();
                        }
                    },
                    _ => {},
                }
            },
            Request::SetUuid { uuid } => {
                match &mut self.header {
                    HeaderState::Loaded(h) => {
                        h.uuid = Some(uuid);
                    },
                    _ => {},
                }
            },
            Request::SetLabel { label, subsystem_label } => {
                match &mut self.header {
                    HeaderState::Loaded(h) => {
                        h.label = Some(Label { label, subsystem: subsystem_label });
                    },
                    _ => {},
                }
            },
            Request::VolumeKeyKeyring { enable } => {
                self.keyring = enable;
            },
            Request::Load { type_ } | Request::Repair { type_ } => {
                let known = match &self.header {
                    HeaderState::Loaded(h) => h.type_ == type_,
                    _ => false,
                };
                if !known {
                    self.header = HeaderState::Loaded(Header::bare(type_));
                    self.forget();
                }
            },
            Request::Suspend { name } => {
                self.mappings.insert(name.as_str(), true);
            },
            Request::ResumeByPassphrase { name, .. }
            | Request::ResumeByKeyfileDeviceOffset { name, .. }
            | Request::ActivateByPassphrase { name, .. }
            | Request::ActivateByKeyfileDeviceOffset { name, .. }
            | Request::ActivateByVolumeKey { name, .. } => {
                self.mappings.insert(name.as_str(), false);
            },
            Request::Deactivate { name } => {
                self.mappings.remove(name.as_str());
            },
            Request::ReencryptInit { params } => {
                self.reencrypt = Reencryption::persist(&params);
            },
            Request::ReencryptChunk { chunk } => {
                let mut reencrypt = self.reencrypt;
                reencrypt.commit(chunk.len);
                self.reencrypt = reencrypt;
            },
            Request::TokenSet { body, .. } => {
                if 0 <= status && status < crate::token::TOKEN_LIMIT {
                    self.tokens.put(status, Token::new(body));
                }
            },
            Request::TokenRemove { token } => {
                self.tokens.remove(token);
            },
            Request::TokenAssign { token, keyslot } => {
                self.tokens.assign(token, keyslot);
            },
            Request::TokenUnassign { token, keyslot } => {
                self.tokens.unassign(token, keyslot);
            },
            _ => {},
        }
    }

    fn fail(&mut self, request: Request, kind: ErrorKind)
        requires
            old(self)@.outstanding is None,
        ensures
            final(self)@ == failed(old(self)@, request@, kind),
    {
        match request {
            Request::Load { .. } | Request::Repair { .. } => {
                match kind {
                    ErrorKind::HeaderNotFound => {
                        self.header = HeaderState::Absent;
                        self.forget();
                    },
                    ErrorKind::HeaderCorrupt => {
                        self.header = HeaderState::Corrupt;
                        self.forget();
                    },
                    _ => {},
                }
            },
            Request::ActivateByPassphrase { name, .. }
            | Request::ActivateByKeyfileDeviceOffset { name, .. }
            | Request::ActivateByVolumeKey { name, .. } => {
                let known = self.mappings.lookup(name.as_str()).is_some();
                if kind == ErrorKind::AlreadyActive && !known {
                    self.mappings.insert(name.as_str(), false);
                }
            },
            Request::Deactivate { name }
            | Request::Resize { name, .. }
            | Request::Suspend { name }
            | Request::ResumeByPassphrase { name, .. }
            | Request::ResumeByKeyfileDeviceOffset { name, .. } => {
                if kind == ErrorKind::NotActive {
                    self.mappings.remove(name.as_str());
                }
            },
            Request::ReencryptChunk { .. } => {
                let mut reencrypt = self.reencrypt;
                reencrypt.stop();
                self.reencrypt = reencrypt;
            },
            _ => {},
        }
    }

    /// Settles the outstanding request with the status that the engine
    /// returned for it. A negative status is read as an error and reveals
    /// at most what the failure shows; any other status is success, takes
    /// effect on the handle and is handed back. Without an outstanding
    /// request the call is refused as an invalid argument.
    pub fn complete(&mut self, status: i32) -> (r: Result<i32, LibcryptErr>)
        ensures
            final(self)@ == settled(old(self)@, status),
            r == answer(old(self)@, status),
            sound(old(self)@) ==> sound(final(self)@),
    {
        proof {
            if sound(old(self)@) {
                settling_keeps_sound(old(self)@, status);
            }
        }
        match self.outstanding.take() {
            Some(request) => {
                if status < 0 {
                    let e = LibcryptErr::from_status(status);
                    self.fail(request, e.kind);
                    Err(e)
                } else {
                    self.succeed(request, status);
                    Ok(status)
                }
            },
            None => Err(LibcryptErr::refused(ErrorKind::InvalidArgument)),
        }
    }
}

} // verus!
