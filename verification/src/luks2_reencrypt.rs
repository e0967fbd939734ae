//! Setting up, walking and resuming the reencryption of a LUKS2 device.
//!
//! The walk is the caller's loop: at each chunk boundary it asks `step`
//! what to do, lets the engine convert the chunk that `step` names, and
//! settles the request with `CryptDevice::complete`. The offset moves only
//! when the engine has committed a chunk, so a walk that stops, for whatever
//! reason, loses at most the chunk that was under way.

use crate::context::loaded_header;
use crate::device::{settled, CryptDevice, DeviceModel};
use crate::err::{refusal, ErrorKind, LibcryptErr};
use crate::format::Format;
use crate::header::HeaderState;
use crate::reencrypt::{
    advanced, walking, CryptParamsReencrypt, ReencryptPhase, ReencryptSetup, ReencryptStep,
    Reencryption,
};
use crate::request::{Request, RequestModel};
use crate::sound::sound;
use crate::Interrupt;
use vstd::prelude::*;

verus! {

/// What stands against a reencryption operation before the controller is
/// asked, if anything: the handle must be free, and a LUKS2 header must be
/// loaded.
pub open spec fn reencrypt_refusal(d: DeviceModel) -> Option<LibcryptErr> {
    if d.outstanding is Some {
        Some(refusal(ErrorKind::DeviceBusy))
    } else {
        match loaded_header(d) {
            Err(e) => Some(e),
            Ok(h) => if h.type_ != Format::Luks2 {
                Some(refusal(ErrorKind::Unsupported))
            } else {
                None
            },
        }
    }
}

/// What `initialize` comes to.
pub open spec fn initialize_setup(d: DeviceModel, params: CryptParamsReencrypt) -> ReencryptSetup {
    match reencrypt_refusal(d) {
        Some(e) => ReencryptSetup::Refuse(e.kind),
        None => d.reencrypt.setup(params),
    }
}

/// What the caller of `initialize` is told.
pub open spec fn initialize_result(d: DeviceModel, params: CryptParamsReencrypt) -> Result<
    (),
    LibcryptErr,
> {
    match initialize_setup(d, params) {
        ReencryptSetup::Refuse(kind) => Err(refusal(kind)),
        _ => Ok(()),
    }
}

/// The handle after `initialize`: a new reencryption waits for the engine
/// to persist it; one that is set up already, and a refusal, change
/// nothing.
pub open spec fn initialized(d: DeviceModel, params: CryptParamsReencrypt) -> DeviceModel {
    match initialize_setup(d, params) {
        ReencryptSetup::Persist => DeviceModel {
            outstanding: Some(RequestModel::ReencryptInit { params }),
            ..d
        },
        _ => d,
    }
}

/// What the caller of `step` is told.
pub open spec fn step_result(d: DeviceModel, interrupt: Interrupt) -> Result<
    ReencryptStep,
    LibcryptErr,
> {
    match reencrypt_refusal(d) {
        Some(e) => Err(e),
        None => d.reencrypt.decision(interrupt),
    }
}

/// The handle after `step`: the controller has moved, and the chunk that
/// it named, if any, waits for the engine.
pub open spec fn stepped(d: DeviceModel, interrupt: Interrupt) -> DeviceModel {
    match reencrypt_refusal(d) {
        Some(_) => d,
        None => DeviceModel {
            reencrypt: d.reencrypt.decided(interrupt),
            outstanding: match d.reencrypt.decision(interrupt) {
                Ok(ReencryptStep::Convert(chunk)) => Some(RequestModel::ReencryptChunk { chunk }),
                _ => None,
            },
            ..d
        },
    }
}

/// What the caller of `resume` is told: the offset from which the walk
/// goes on, or why it cannot.
pub open spec fn resume_result(d: DeviceModel) -> Result<u64, LibcryptErr> {
    match reencrypt_refusal(d) {
        Some(e) => Err(e),
        None => d.reencrypt.resumption(),
    }
}

/// The handle after `resume`.
pub open spec fn resumed(d: DeviceModel) -> DeviceModel {
    match reencrypt_refusal(d) {
        Some(_) => d,
        None => DeviceModel { reencrypt: d.reencrypt.resumed(), ..d },
    }
}

/// What the caller of `adopt` is told.
pub open spec fn adopt_result(d: DeviceModel, progress: Reencryption) -> Result<(), LibcryptErr> {
    match reencrypt_refusal(d) {
        Some(e) => Err(e),
        None => if d.reencrypt.adoptable(progress) {
            Ok(())
        } else {
            Err(refusal(ErrorKind::InvalidArgument))
        },
    }
}

/// The handle after `adopt`.
pub open spec fn adopted(d: DeviceModel, progress: Reencryption) -> DeviceModel {
    match reencrypt_refusal(d) {
        Some(_) => d,
        None => DeviceModel { reencrypt: d.reencrypt.adopted(progress), ..d },
    }
}

/// Handle for reencryption operations
pub struct CryptLuks2Reencrypt<'a> {
    /// The device that this handle borrows for itself alone
    pub reference: &'a mut CryptDevice,
}

impl CryptDevice {
    /// Get a reencryption handle
    pub fn reencrypt_handle(&mut self) -> (handle: CryptLuks2Reencrypt<'_>)
        ensures
            handle.device() == old(self)@,
            *final(handle.reference) == *final(self),
    {
        CryptLuks2Reencrypt::new(self)
    }
}

impl<'a> CryptLuks2Reencrypt<'a> {
    /// The device as it stands.
    pub open spec fn device(&self) -> DeviceModel {
        (*self.reference)@
    }

    /// Borrows the device for reencryption.
    pub fn new(reference: &'a mut CryptDevice) -> (reencrypt: Self)
        ensures
            reencrypt.device() == old(reference)@,
            *final(reencrypt.reference) == *final(reference),
    {
        CryptLuks2Reencrypt { reference }
    }

    fn check(&self) -> (r: Option<LibcryptErr>)
        ensures
            r == reencrypt_refusal(self.device()),
    {
        if self.reference.is_busy() {
            return Some(LibcryptErr::refused(ErrorKind::DeviceBusy));
        }
        match self.reference.header() {
            HeaderState::Loaded(h) => {
                if h.type_ != Format::Luks2 {
                    Some(LibcryptErr::refused(ErrorKind::Unsupported))
                } else {
                    None
                }
            },
            HeaderState::Absent => Some(LibcryptErr::refused(ErrorKind::HeaderNotFound)),
            HeaderState::Corrupt => Some(LibcryptErr::refused(ErrorKind::HeaderCorrupt)),
        }
    }

    /// Sets up a reencryption. A new one becomes a request to persist its
    /// progress at offset 0. Where the same reencryption is set up already
    /// and has not run to its end, nothing is asked and its offset stays.
    pub fn initialize(&mut self, params: &CryptParamsReencrypt) -> (r: Result<(), LibcryptErr>)
        ensures
            r == initialize_result(old(self).device(), *params),
            final(self).device() == initialized(old(self).device(), *params),
            sound(old(self).device()) ==> sound(final(self).device()),
            *final(final(self).reference) == *final(old(self).reference),
    {
        match self.check() {
            Some(e) => Err(e),
            None => match self.reference.reencryption().set_up(params) {
                ReencryptSetup::Refuse(kind) => Err(LibcryptErr::refused(kind)),
                ReencryptSetup::Keep => Ok(()),
                ReencryptSetup::Persist => {
                    self.reference.submit(Request::ReencryptInit { params: *params });
                    Ok(())
                },
            },
        }
    }

    /// Decides at a chunk boundary how the walk goes on. `interrupt` says
    /// whether a stop is requested; it is looked at here and nowhere else,
    /// so a chunk that is under way is never cut.
    pub fn step(&mut self, interrupt: Interrupt) -> (r: Result<ReencryptStep, LibcryptErr>)
        ensures
            r == step_result(old(self).device(), interrupt),
            final(self).device() == stepped(old(self).device(), interrupt),
            sound(old(self).device()) ==> sound(final(self).device()),
            *final(final(self).reference) == *final(old(self).reference),
    {
        match self.check() {
            Some(e) => Err(e),
            None => {
                let mut reencrypt = self.reference.reencryption();
                let decision = reencrypt.step(interrupt);
                self.reference.set_reencryption(reencrypt);
                match decision {
                    Ok(ReencryptStep::Convert(chunk)) => {
                        self.reference.submit(Request::ReencryptChunk { chunk });
                    },
                    _ => {},
                }
                decision
            },
        }
    }

    /// Takes up a walk that was set up or interrupted, and says from which
    /// offset it goes on. Fails where no reencryption was ever started.
    pub fn resume(&mut self) -> (r: Result<u64, LibcryptErr>)
        ensures
            r == resume_result(old(self).device()),
            final(self).device() == resumed(old(self).device()),
            sound(old(self).device()) ==> sound(final(self).device()),
            *final(final(self).reference) == *final(old(self).reference),
    {
        match self.check() {
            Some(e) => Err(e),
            None => {
                let mut reencrypt = self.reference.reencryption();
                let offset = reencrypt.resume();
                self.reference.set_reencryption(reencrypt);
                offset
            },
        }
    }

    /// Takes over the progress that the header persists, in a session that
    /// has set up no reencryption itself. The walk then waits to be
    /// resumed.
    pub fn adopt(&mut self, progress: &Reencryption) -> (r: Result<(), LibcryptErr>)
        ensures
            r == adopt_result(old(self).device(), *progress),
            final(self).device() == adopted(old(self).device(), *progress),
            sound(old(self).device()) ==> sound(final(self).device()),
            *final(final(self).reference) == *final(old(self).reference),
    {
        match self.check() {
            Some(e) => Err(e),
            None => {
                let mut reencrypt = self.reference.reencryption();
                let taken = reencrypt.adopt(progress);
                self.reference.set_reencryption(reencrypt);
                if taken {
                    Ok(())
                } else {
                    Err(LibcryptErr::refused(ErrorKind::InvalidArgument))
                }
            },
        }
    }
}

/// Setting up the same reencryption twice leaves the offset where it was.
///
/// Take a free handle with a sound reencryption, call `initialize` and
/// settle what it asked with any status, then call `initialize` again with
/// the same parameters and settle that with any status too. The persisted
/// offset after the second call is the offset after the first. Where the
/// first call succeeded, the second asks nothing of the engine and changes
/// nothing at all.
pub proof fn initialize_twice_keeps_the_offset(
    d: DeviceModel,
    params: CryptParamsReencrypt,
    first_status: i32,
    second_status: i32,
)
    requires
        d.outstanding is None,
        d.reencrypt.wf(),
    ensures
        ({
            let once = settled(initialized(d, params), first_status);
            let twice = settled(initialized(once, params), second_status);
            &&& twice.reencrypt.offset == once.reencrypt.offset
            &&& initialize_result(d, params) is Ok && first_status >= 0 ==> {
                &&& initialize_result(once, params) is Ok
                &&& initialized(once, params) == once
                &&& once.reencrypt.phase != ReencryptPhase::NotStarted
            }
        }),
{
}

/// One round of the caller's loop is one round of the controller.
///
/// On a handle whose walk has work left, `step` without a stop request
/// names the next chunk and makes it the outstanding request. When the
/// engine reports success, the reencryption is what one uninterrupted
/// round makes of it; when it reports a failure, nothing is committed and
/// the walk waits to be resumed at the same offset.
pub proof fn a_round_commits_one_chunk(d: DeviceModel, status: i32)
    requires
        reencrypt_refusal(d) is None,
        d.reencrypt.wf(),
        walking(d.reencrypt),
        d.reencrypt.offset < d.reencrypt.length,
    ensures
        step_result(d, Interrupt::No) == Ok::<ReencryptStep, LibcryptErr>(
            ReencryptStep::Convert(d.reencrypt.next_chunk()),
        ),
        stepped(d, Interrupt::No).outstanding == Some(
            RequestModel::ReencryptChunk { chunk: d.reencrypt.next_chunk() },
        ),
        status >= 0 ==> settled(stepped(d, Interrupt::No), status).reencrypt == advanced(
            d.reencrypt,
            1,
        ),
        status < 0 ==> settled(stepped(d, Interrupt::No), status).reencrypt == (Reencryption {
            phase: ReencryptPhase::Interrupted,
            ..d.reencrypt
        }),
{
    let chunk = d.reencrypt.next_chunk();
    let next = d.reencrypt.decided(Interrupt::No).committed(chunk.len);
    assert(advanced(next, 0) == next);
    assert(advanced(d.reencrypt, 1) == next) by {
        reveal_with_fuel(advanced, 2);
    }
}

/// A walk that is stopped on request goes on where it stopped.
///
/// On a handle whose walk is under way with work left, a stop request at
/// the boundary is answered with `Interrupted`, asks nothing of the
/// engine and moves no offset. `resume` then answers with the committed
/// offset, and the handle is again what it was before the stop: the next
/// `step` names the chunk that it would have named.
pub proof fn resume_goes_on_where_the_walk_stopped(d: DeviceModel)
    requires
        reencrypt_refusal(d) is None,
        d.reencrypt.wf(),
        d.reencrypt.phase == ReencryptPhase::Running,
        d.reencrypt.offset < d.reencrypt.length,
    ensures
        step_result(d, Interrupt::Yes) == Ok::<ReencryptStep, LibcryptErr>(
            ReencryptStep::Interrupted,
        ),
        stepped(d, Interrupt::Yes).outstanding is None,
        stepped(d, Interrupt::Yes).reencrypt.offset == d.reencrypt.offset,
        resume_result(stepped(d, Interrupt::Yes)) == Ok::<u64, LibcryptErr>(d.reencrypt.offset),
        resumed(stepped(d, Interrupt::Yes)) == d,
{
}

} // verus!
