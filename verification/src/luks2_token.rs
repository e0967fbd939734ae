//! The token store of a LUKS2 header.
//!
//! A token is written whole or not at all: what a number held before is
//! gone once the engine has written the new token, references included. A
//! reference to a keyslot is accepted for every keyslot number of a LUKS2
//! header, whether such a keyslot exists or not, and reading references
//! never fails.

use crate::context::loaded_header;
use crate::device::{accepted, settled, submitted, CryptDevice, DeviceModel};
use crate::err::{refusal, ErrorKind, LibcryptErr};
use crate::format::{keyslot_limit, Format};
use crate::header::HeaderState;
use crate::request::{Request, RequestModel};
use crate::sound::sound;
use crate::token::{token_named, with_reference, Token, TokenModel, ANY_TOKEN, TOKEN_LIMIT};
use vstd::prelude::*;

verus! {

/// What stands against a token operation, if anything: the handle must be
/// free, and a LUKS2 header must be loaded.
pub open spec fn token_refusal(d: DeviceModel) -> Option<LibcryptErr> {
    if d.outstanding is Some {
        Some(refusal(ErrorKind::DeviceBusy))
    } else {
        match loaded_header(d) {
            Err(e) => Some(e),
            Ok(h) => if h.type_ != Format::Luks2 {
                Some(refusal(ErrorKind::Unsupported))
            } else {
                None
            },
        }
    }
}

/// Whether a token operation whose numbers are in order, or not, is
/// accepted with the request `request`.
pub open spec fn token_verdict(d: DeviceModel, in_order: bool, request: RequestModel) -> Result<
    RequestModel,
    LibcryptErr,
> {
    match token_refusal(d) {
        Some(e) => Err(e),
        None => if in_order {
            Ok(request)
        } else {
            Err(refusal(ErrorKind::InvalidArgument))
        },
    }
}

/// Whether `keyslot` is a keyslot number of a LUKS2 header.
pub open spec fn reference_named(keyslot: i32) -> bool {
    0 <= keyslot < keyslot_limit(Format::Luks2)
}

/// What the caller of `record` is told.
pub open spec fn record_result(d: DeviceModel, token: i32) -> Result<(), LibcryptErr> {
    match token_refusal(d) {
        Some(e) => Err(e),
        None => if token_named(token as int) {
            Ok(())
        } else {
            Err(refusal(ErrorKind::InvalidArgument))
        },
    }
}

/// The handle after `record`: it knows the token as the engine reports it.
pub open spec fn recorded(d: DeviceModel, token: i32, value: TokenModel) -> DeviceModel {
    if record_result(d, token) is Ok {
        DeviceModel { tokens: d.tokens.insert(token as int, value), ..d }
    } else {
        d
    }
}

/// Handle for LUKS2 token operations
pub struct CryptLuks2Token<'a> {
    /// The device that this handle borrows for itself alone
    pub reference: &'a mut CryptDevice,
}

impl CryptDevice {
    /// Get a token handle
    pub fn token_handle(&mut self) -> (handle: CryptLuks2Token<'_>)
        ensures
            handle.device() == old(self)@,
            *final(handle.reference) == *final(self),
    {
        CryptLuks2Token::new(self)
    }
}

impl<'a> CryptLuks2Token<'a> {
    /// The device as it stands.
    pub open spec fn device(&self) -> DeviceModel {
        (*self.reference)@
    }

    /// Borrows the device for token operations.
    pub fn new(reference: &'a mut CryptDevice) -> (tokens: Self)
        ensures
            tokens.device() == old(reference)@,
            *final(tokens.reference) == *final(reference),
    {
        CryptLuks2Token { reference }
    }

    fn check(&self) -> (r: Option<LibcryptErr>)
        ensures
            r == token_refusal(self.device()),
    {
        if self.reference.is_busy() {
            return Some(LibcryptErr::refused(ErrorKind::DeviceBusy));
        }
        match self.reference.header() {
            HeaderState::Loaded(h) => {
                if h.type_ != Format::Luks2 {
                    Some(LibcryptErr::refused(ErrorKind::Unsupported))
                } else {
                    None
                }
            },
            HeaderState::Absent => Some(LibcryptErr::refused(ErrorKind::HeaderNotFound)),
            HeaderState::Corrupt => Some(LibcryptErr::refused(ErrorKind::HeaderCorrupt)),
        }
    }

    /// Get contents of a token in JSON format
    ///
    /// Answers from what the handle knows: the token that was written or
    /// recorded last under this number.
    pub fn json_get(&self, token: i32) -> (found: Option<&Token>)
        ensures
            found is Some <==> self.device().tokens.contains_key(token as int),
            found matches Some(t) ==> t@ == self.device().tokens[token as int],
    {
        self.reference.token(token)
    }

    /// The numbers of the tokens that the handle knows, in rising order.
    pub fn numbers(&self) -> (found: Vec<i32>)
        ensures
            forall|token: i32|
                found@.contains(token) <==> self.device().tokens.contains_key(token as int),
            forall|i: int, j: int| 0 <= i < j < found@.len() ==> found@[i] < found@[j],
    {
        self.reference.token_numbers()
    }

    /// Whether the token `token` refers to `keyslot`. A token that is not
    /// there refers to nothing.
    pub fn is_assigned(&self, token: i32, keyslot: i32) -> (assigned: bool)
        ensures
            assigned == (self.device().tokens.contains_key(token as int)
                && self.device().tokens[token as int].keyslots.contains(keyslot)),
    {
        match self.reference.token(token) {
            Some(t) => t.refers_to(keyslot),
            None => false,
        }
    }

    /// Set contents of a token in JSON format
    ///
    /// `token` is the number of the token to write, or `ANY_TOKEN`. The
    /// number under which the token stands is the value that
    /// `CryptDevice::complete` hands back for this request.
    pub fn json_set(&mut self, token: i32, body: serde_json::Value) -> (r: Result<(), LibcryptErr>)
        ensures
            r == accepted(
                token_verdict(
                    old(self).device(),
                    token == ANY_TOKEN || token_named(token as int),
                    RequestModel::TokenSet { token, body },
                ),
            ),
            final(self).device() == submitted(
                old(self).device(),
                token_verdict(
                    old(self).device(),
                    token == ANY_TOKEN || token_named(token as int),
                    RequestModel::TokenSet { token, body },
                ),
            ),
            sound(old(self).device()) ==> sound(final(self).device()),
            *final(final(self).reference) == *final(old(self).reference),
    {
        match self.check() {
            Some(e) => Err(e),
            None => {
                if token == ANY_TOKEN || (0 <= token && token < TOKEN_LIMIT) {
                    self.reference.submit(Request::TokenSet { token, body });
                    Ok(())
                } else {
                    Err(LibcryptErr::refused(ErrorKind::InvalidArgument))
                }
            },
        }
    }

    /// Takes the token `token` away.
    pub fn remove(&mut self, token: i32) -> (r: Result<(), LibcryptErr>)
        ensures
            r == accepted(
                token_verdict(
                    old(self).device(),
                    token_named(token as int),
                    RequestModel::TokenRemove { token },
                ),
            ),
            final(self).device() == submitted(
                old(self).device(),
                token_verdict(
                    old(self).device(),
                    token_named(token as int),
                    RequestModel::TokenRemove { token },
                ),
            ),
            sound(old(self).device()) ==> sound(final(self).device()),
            *final(final(self).reference) == *final(old(self).reference),
    {
        match self.check() {
            Some(e) => Err(e),
            None => {
                if 0 <= token && token < TOKEN_LIMIT {
                    self.reference.submit(Request::TokenRemove { token });
                    Ok(())
                } else {
                    Err(LibcryptErr::refused(ErrorKind::InvalidArgument))
                }
            },
        }
    }

    /// Assign a token to a keyslot
    ///
    /// Whether the keyslot exists is not asked.
    pub fn assign_keyslot(&mut self, token: i32, keyslot: i32) -> (r: Result<(), LibcryptErr>)
        ensures
            r == accepted(
                token_verdict(
                    old(self).device(),
                    token_named(token as int) && reference_named(keyslot),
                    RequestModel::TokenAssign { token, keyslot },
                ),
            ),
            final(self).device() == submitted(
                old(self).device(),
                token_verdict(
                    old(self).device(),
                    token_named(token as int) && reference_named(keyslot),
                    RequestModel::TokenAssign { token, keyslot },
                ),
            ),
            sound(old(self).device()) ==> sound(final(self).device()),
            *final(final(self).reference) == *final(old(self).reference),
    {
        match self.check() {
            Some(e) => Err(e),
            None => {
                if 0 <= token && token < TOKEN_LIMIT && 0 <= keyslot && keyslot
                    < Format::Luks2.keyslots() {
                    self.reference.submit(Request::TokenAssign { token, keyslot });
                    Ok(())
                } else {
                    Err(LibcryptErr::refused(ErrorKind::InvalidArgument))
                }
            },
        }
    }

    /// Unassign a token from a keyslot
    ///
    /// Where the token does not refer to the keyslot, the request changes
    /// nothing and is no error.
    pub fn unassign_keyslot(&mut self, token: i32, keyslot: i32) -> (r: Result<(), LibcryptErr>)
        ensures
            r == accepted(
                token_verdict(
                    old(self).device(),
                    token_named(token as int) && reference_named(keyslot),
                    RequestModel::TokenUnassign { token, keyslot },
                ),
            ),
            final(self).device() == submitted(
                old(self).device(),
                token_verdict(
                    old(self).device(),
                    token_named(token as int) && reference_named(keyslot),
                    RequestModel::TokenUnassign { token, keyslot },
                ),
            ),
            sound(old(self).device()) ==> sound(final(self).device()),
            *final(final(self).reference) == *final(old(self).reference),
    {
        match self.check() {
            Some(e) => Err(e),
            None => {
                if 0 <= token && token < TOKEN_LIMIT && 0 <= keyslot && keyslot
                    < Format::Luks2.keyslots() {
                    self.reference.submit(Request::TokenUnassign { token, keyslot });
                    Ok(())
                } else {
                    Err(LibcryptErr::refused(ErrorKind::InvalidArgument))
                }
            },
        }
    }

    /// Records a token as the engine reports it from the header, so that a
    /// session which did not write the token can read it.
    pub fn record(&mut self, token: i32, value: Token) -> (r: Result<(), LibcryptErr>)
        ensures
            r == record_result(old(self).device(), token),
            final(self).device() == recorded(old(self).device(), token, value@),
            sound(old(self).device()) ==> sound(final(self).device()),
            *final(final(self).reference) == *final(old(self).reference),
    {
        match self.check() {
            Some(e) => Err(e),
            None => {
                if 0 <= token && token < TOKEN_LIMIT {
                    self.reference.note_token(token, value);
                    Ok(())
                } else {
                    Err(LibcryptErr::refused(ErrorKind::InvalidArgument))
                }
            },
        }
    }
}

/// The last write to a token stands, and stands alone.
///
/// Take a handle that knows any tokens with any references, write the
/// token `token`, let the engine report that it stands under `token`, and
/// do the same again with another document. The token then holds the
/// second document and no reference; nothing of the first write and
/// nothing of what was there before is left in it. Every other token is
/// as it was.
pub proof fn last_token_write_wins(
    d: DeviceModel,
    token: i32,
    first: serde_json::Value,
    second: serde_json::Value,
    other: int,
)
    requires
        token_refusal(d) is None,
        token_named(token as int),
        other != token,
    ensures
        ({
            let once = settled(
                submitted(
                    d,
                    token_verdict(d, true, RequestModel::TokenSet { token, body: first }),
                ),
                token,
            );
            let twice = settled(
                submitted(
                    once,
                    token_verdict(once, true, RequestModel::TokenSet { token, body: second }),
                ),
                token,
            );
            &&& twice.tokens.contains_key(token as int)
            &&& twice.tokens[token as int] == (TokenModel { body: second, keyslots: Set::empty() })
            &&& twice.tokens.contains_key(other) == d.tokens.contains_key(other)
            &&& d.tokens.contains_key(other) ==> twice.tokens[other] == d.tokens[other]
        }),
{
}

/// A reference to a keyslot that does not exist is kept like any other.
///
/// Whatever the handle knows of keyslots, a reference from a token that
/// is there to any keyslot number of a LUKS2 header is accepted, and once
/// the engine has written it the token refers to that number.
pub proof fn dangling_reference_is_kept(d: DeviceModel, token: i32, keyslot: i32, status: i32)
    requires
        token_refusal(d) is None,
        d.tokens.contains_key(token as int),
        token_named(token as int),
        reference_named(keyslot),
        status >= 0,
    ensures
        ({
            let verdict = token_verdict(d, true, RequestModel::TokenAssign { token, keyslot });
            let assigned = settled(submitted(d, verdict), status);
            &&& verdict is Ok
            &&& assigned.tokens == with_reference(d.tokens, token as int, keyslot)
            &&& assigned.tokens[token as int].keyslots.contains(keyslot)
            &&& assigned.tokens[token as int].body == d.tokens[token as int].body
        }),
{
}

} // verus!
