//! What holds of every device handle, whatever was asked of it and
//! whatever the engine answered.

use crate::activate::{
    activate_by_keyfile_verdict, activate_by_passphrase_verdict, activate_by_volume_key_verdict,
    deactivate_verdict,
};
use crate::context::{
    convert_verdict, described, format_verdict, free_verdict, is_luks, resize_verdict,
    resume_by_keyfile_verdict, resume_by_passphrase_verdict, set_label_verdict, set_uuid_verdict,
    suspend_verdict,
};
use crate::device::{holds_type, opened, settled, submitted, DeviceModel};
use crate::format::Format;
use crate::header::{HeaderModel, HeaderStateModel};
use crate::keyslot::{
    add_by_volume_key_verdict, change_by_passphrase_verdict, keyslot_verdict,
    named_keyslot_verdict,
};
use crate::luks2_reencrypt::{adopted, initialized, resumed, stepped};
use crate::luks2_token::{recorded, token_verdict};
use crate::reencrypt::{CryptParamsReencrypt, ReencryptPhase, Reencryption};
use crate::request::RequestModel;
use crate::runtime::observed;
use crate::text::c_text;
use crate::token::{token_named, TokenModel};
use crate::Interrupt;
use vstd::prelude::*;

verus! {

/// Whether what is known of a header is in order: every text can cross to
/// the engine, the volume key is not empty, and only a LUKS2 header has
/// labels.
pub open spec fn header_sound(h: HeaderModel) -> bool {
    &&& h.cipher matches Some(c) ==> c_text(c.name) && c_text(c.mode) && c.volume_key_len > 0
    &&& h.label matches Some(l) ==> c_text(l.label) && c_text(l.subsystem) && h.type_
        == Format::Luks2
}

/// Whether a request fits the handle on which it is outstanding.
pub open spec fn request_sound(d: DeviceModel, request: RequestModel) -> bool {
    match request {
        RequestModel::Format { cipher, mode, volume_key_len, .. } => c_text(cipher) && c_text(mode)
            && volume_key_len > 0,
        RequestModel::Convert { type_ } => is_luks(type_),
        RequestModel::SetLabel { label, subsystem_label } => c_text(label) && c_text(
            subsystem_label,
        ) && holds_type(d, Format::Luks2),
        RequestModel::Resize { name, new_size } => c_text(name) && new_size <= d.backing_size,
        RequestModel::Suspend { name }
        | RequestModel::ResumeByPassphrase { name, .. }
        | RequestModel::ResumeByKeyfileDeviceOffset { name, .. }
        | RequestModel::ActivateByPassphrase { name, .. }
        | RequestModel::ActivateByKeyfileDeviceOffset { name, .. }
        | RequestModel::ActivateByVolumeKey { name, .. }
        | RequestModel::Deactivate { name } => c_text(name),
        RequestModel::ReencryptInit { params } => params.chunk > 0 && d.reencrypt.phase
            == ReencryptPhase::NotStarted && holds_type(d, Format::Luks2),
        RequestModel::ReencryptChunk { chunk } => d.reencrypt.phase == ReencryptPhase::Running
            && d.reencrypt.offset < d.reencrypt.length && chunk == d.reencrypt.next_chunk()
            && holds_type(d, Format::Luks2),
        RequestModel::TokenSet { .. }
        | RequestModel::TokenRemove { .. }
        | RequestModel::TokenAssign { .. }
        | RequestModel::TokenUnassign { .. } => holds_type(d, Format::Luks2),
        _ => true,
    }
}

/// What holds of every device handle.
///
/// The reencryption is sound, and one is known only of a loaded LUKS2
/// header. So are tokens, and each stands under a token number. Every
/// name and text that the handle keeps can cross to the engine. The
/// outstanding request fits the handle.
pub open spec fn sound(d: DeviceModel) -> bool {
    &&& c_text(d.path)
    &&& d.reencrypt.wf()
    &&& d.reencrypt.phase != ReencryptPhase::NotStarted ==> holds_type(d, Format::Luks2)
    &&& forall|token: int| #[trigger]
        d.tokens.contains_key(token) ==> token_named(token) && holds_type(d, Format::Luks2)
    &&& forall|name: Seq<char>| #[trigger] d.mappings.contains_key(name) ==> c_text(name)
    &&& d.header matches HeaderStateModel::Loaded(h) ==> header_sound(h)
    &&& d.outstanding matches Some(request) ==> request_sound(d, request)
}

/// A freshly opened handle is sound.
pub proof fn opened_is_sound(path: Seq<char>, backing_size: u64)
    requires
        c_text(path),
    ensures
        sound(opened(path, backing_size)),
{
}

/// Settling the outstanding request keeps the handle sound, whatever the
/// engine answered.
pub proof fn settling_keeps_sound(d: DeviceModel, status: i32)
    requires
        sound(d),
    ensures
        sound(settled(d, status)),
        settled(d, status).outstanding is None,
        settled(d, status).backing_size == d.backing_size,
        settled(d, status).path == d.path,
{
    let e = settled(d, status);
    match d.outstanding {
        Some(RequestModel::ReencryptChunk { chunk }) => {
            assert(chunk.len == d.reencrypt.next_len());
        },
        _ => {},
    }
    assert forall|token: int| #[trigger] e.tokens.contains_key(token) implies token_named(token)
        && holds_type(e, Format::Luks2) by {
        if d.tokens.contains_key(token) {
        }
    }
    assert forall|name: Seq<char>| #[trigger] e.mappings.contains_key(name) implies c_text(
        name,
    ) by {
        if d.mappings.contains_key(name) {
        }
    }
}

/// The operations of the cryptographic context keep the handle sound.
pub proof fn context_keeps_sound(
    d: DeviceModel,
    type_: Format,
    text: Seq<char>,
    other_text: Seq<char>,
    uuid: uuid::Uuid,
    len: usize,
    keyslot: i32,
    size: u64,
    request: RequestModel,
)
    requires
        sound(d),
        request is VolumeKeyKeyring || request is Load || request is Repair,
    ensures
        sound(submitted(d, format_verdict(d, type_, text, other_text, uuid, len))),
        sound(submitted(d, convert_verdict(d, type_))),
        sound(submitted(d, set_uuid_verdict(d, uuid))),
        sound(submitted(d, set_label_verdict(d, text, other_text))),
        sound(submitted(d, free_verdict(d, request))),
        sound(submitted(d, resize_verdict(d, text, size))),
        sound(submitted(d, suspend_verdict(d, text))),
        sound(submitted(d, resume_by_passphrase_verdict(d, text, keyslot, len))),
        sound(submitted(d, resume_by_keyfile_verdict(d, text, keyslot, other_text, len, size))),
        sound(described(d, text, other_text, uuid, len)),
{
}

/// Activation, deactivation and status queries keep the handle sound.
pub proof fn activation_keeps_sound(
    d: DeviceModel,
    name: Seq<char>,
    keyslot: i32,
    len: usize,
    flags: u32,
    code: i32,
    size: u64,
    suspended: bool,
)
    requires
        sound(d),
    ensures
        sound(submitted(d, activate_by_passphrase_verdict(d, name, keyslot, len, flags))),
        sound(submitted(d, activate_by_keyfile_verdict(d, name, keyslot, name, len, size, flags))),
        sound(submitted(d, activate_by_volume_key_verdict(d, name, len, flags))),
        sound(submitted(d, deactivate_verdict(d, name))),
        sound(observed(d, name, code, size, suspended)),
{
    let e = observed(d, name, code, size, suspended);
    assert forall|n: Seq<char>| #[trigger] e.mappings.contains_key(n) implies c_text(n) by {
        if d.mappings.contains_key(n) {
        }
    }
}

/// The keyslot operations keep the handle sound.
pub proof fn keyslots_keep_sound(
    d: DeviceModel,
    keyslot: i32,
    other_keyslot: i32,
    len: usize,
    other_len: usize,
    request: RequestModel,
)
    requires
        sound(d),
        request is KeyslotAddByPassphrase || request is KeyslotDestroy || request is KeyslotStatus
            || request is VolumeKeyGet,
    ensures
        sound(submitted(d, keyslot_verdict(d, keyslot, request))),
        sound(submitted(d, named_keyslot_verdict(d, keyslot, request))),
        sound(submitted(d, add_by_volume_key_verdict(d, keyslot, len, other_len))),
        sound(
            submitted(d, change_by_passphrase_verdict(d, keyslot, other_keyslot, len, other_len)),
        ),
{
}

/// The token operations keep the handle sound.
pub proof fn tokens_keep_sound(
    d: DeviceModel,
    token: i32,
    value: TokenModel,
    in_order: bool,
    request: RequestModel,
)
    requires
        sound(d),
        request is TokenSet || request is TokenRemove || request is TokenAssign
            || request is TokenUnassign,
    ensures
        sound(submitted(d, token_verdict(d, in_order, request))),
        sound(recorded(d, token, value)),
{
    let e = recorded(d, token, value);
    assert forall|t: int| #[trigger] e.tokens.contains_key(t) implies token_named(t) && holds_type(
        e,
        Format::Luks2,
    ) by {
        if d.tokens.contains_key(t) {
        }
    }
}

/// The reencryption operations keep the handle sound.
pub proof fn reencryption_keeps_sound(
    d: DeviceModel,
    params: CryptParamsReencrypt,
    interrupt: Interrupt,
    progress: Reencryption,
)
    requires
        sound(d),
    ensures
        sound(initialized(d, params)),
        sound(stepped(d, interrupt)),
        sound(resumed(d)),
        sound(adopted(d, progress)),
{
}

/// The committed offset of a reencryption never goes back.
///
/// Whatever request is settled with whatever status, and whichever
/// reencryption operation is called: as long as a reencryption is known
/// afterwards, its offset is at least what it was before.
pub proof fn offset_never_goes_back(
    d: DeviceModel,
    status: i32,
    params: CryptParamsReencrypt,
    interrupt: Interrupt,
)
    requires
        sound(d),
    ensures
        settled(d, status).reencrypt.phase != ReencryptPhase::NotStarted ==> settled(
            d,
            status,
        ).reencrypt.offset >= d.reencrypt.offset,
        initialized(d, params).reencrypt == d.reencrypt,
        stepped(d, interrupt).reencrypt.offset == d.reencrypt.offset,
        resumed(d).reencrypt.offset == d.reencrypt.offset,
{
}

/// A repair is asked for by `repair` and by nothing else.
///
/// No other operation of the library ever makes a repair the outstanding
/// request, and settling a request never leaves one outstanding: a damaged
/// header is mended only when the caller says so.
pub proof fn nothing_repairs_by_itself(
    d: DeviceModel,
    type_: Format,
    text: Seq<char>,
    other_text: Seq<char>,
    uuid: uuid::Uuid,
    len: usize,
    keyslot: i32,
    size: u64,
    flags: u32,
    status: i32,
    params: CryptParamsReencrypt,
    interrupt: Interrupt,
)
    requires
        !(d.outstanding matches Some(request) && request is Repair),
    ensures
        !asks_repair(submitted(d, format_verdict(d, type_, text, other_text, uuid, len))),
        !asks_repair(submitted(d, convert_verdict(d, type_))),
        !asks_repair(submitted(d, set_uuid_verdict(d, uuid))),
        !asks_repair(submitted(d, set_label_verdict(d, text, other_text))),
        !asks_repair(submitted(d, free_verdict(d, RequestModel::Load { type_ }))),
        !asks_repair(submitted(d, resize_verdict(d, text, size))),
        !asks_repair(submitted(d, suspend_verdict(d, text))),
        !asks_repair(submitted(d, resume_by_passphrase_verdict(d, text, keyslot, len))),
        !asks_repair(
            submitted(d, resume_by_keyfile_verdict(d, text, keyslot, other_text, len, size)),
        ),
        !asks_repair(submitted(d, activate_by_passphrase_verdict(d, text, keyslot, len, flags))),
        !asks_repair(
            submitted(
                d,
                activate_by_keyfile_verdict(d, text, keyslot, other_text, len, size, flags),
            ),
        ),
        !asks_repair(submitted(d, activate_by_volume_key_verdict(d, text, len, flags))),
        !asks_repair(submitted(d, deactivate_verdict(d, text))),
        !asks_repair(submitted(d, add_by_volume_key_verdict(d, keyslot, len, len))),
        !asks_repair(submitted(d, change_by_passphrase_verdict(d, keyslot, keyslot, len, len))),
        !asks_repair(initialized(d, params)),
        !asks_repair(stepped(d, interrupt)),
        !asks_repair(resumed(d)),
        !asks_repair(observed(d, text, keyslot, size, true)),
        !asks_repair(settled(d, status)),
        settled(submitted(d, free_verdict(d, RequestModel::Load { type_ })), status).outstanding
            is None,
{
}

/// Whether a repair is the outstanding request.
pub open spec fn asks_repair(d: DeviceModel) -> bool {
    d.outstanding matches Some(request) && request is Repair
}

/// A handle with an outstanding request accepts no other operation.
///
/// While the engine's answer to one request is awaited, every operation
/// that would need the engine is refused as busy and changes nothing. The
/// status that settles a request is therefore the status of that request.
pub proof fn one_call_at_a_time(
    d: DeviceModel,
    type_: Format,
    text: Seq<char>,
    other_text: Seq<char>,
    uuid: uuid::Uuid,
    len: usize,
    keyslot: i32,
    size: u64,
    flags: u32,
    request: RequestModel,
    params: CryptParamsReencrypt,
    interrupt: Interrupt,
)
    requires
        d.outstanding is Some,
    ensures
        format_verdict(d, type_, text, other_text, uuid, len) == busy(),
        convert_verdict(d, type_) == busy(),
        set_uuid_verdict(d, uuid) == busy(),
        set_label_verdict(d, text, other_text) == busy(),
        free_verdict(d, request) == busy(),
        resize_verdict(d, text, size) == busy(),
        suspend_verdict(d, text) == busy(),
        resume_by_passphrase_verdict(d, text, keyslot, len) == busy(),
        resume_by_keyfile_verdict(d, text, keyslot, other_text, len, size) == busy(),
        activate_by_passphrase_verdict(d, text, keyslot, len, flags) == busy(),
        activate_by_keyfile_verdict(d, text, keyslot, other_text, len, size, flags) == busy(),
        activate_by_volume_key_verdict(d, text, len, flags) == busy(),
        deactivate_verdict(d, text) == busy(),
        keyslot_verdict(d, keyslot, request) == busy(),
        named_keyslot_verdict(d, keyslot, request) == busy(),
        add_by_volume_key_verdict(d, keyslot, len, len) == busy(),
        change_by_passphrase_verdict(d, keyslot, keyslot, len, len) == busy(),
        token_verdict(d, true, request) == busy(),
        submitted(d, busy()) == d,
        initialized(d, params) == d,
        stepped(d, interrupt) == d,
        resumed(d) == d,
        observed(d, text, keyslot, size, true) == d,
{
}

/// The refusal of a handle that awaits the engine's answer.
pub open spec fn busy() -> Result<RequestModel, crate::err::LibcryptErr> {
    Err(crate::err::refusal(crate::err::ErrorKind::DeviceBusy))
}

} // verus!
