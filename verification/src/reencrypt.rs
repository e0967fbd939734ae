//! The progress of a reencryption, as a state machine of its own.
//!
//! A reencryption walks over the payload chunk by chunk. The offset counts
//! the bytes that are converted and committed; it only grows, and it is all
//! that a later run needs to go on where this one stopped.

use crate::err::{refusal, ErrorKind, LibcryptErr};
use crate::Interrupt;
use vstd::prelude::*;

verus! {

/// In which direction the payload is walked.
#[derive(Clone, Copy, Debug, PartialEq, Eq, Structural)]
pub enum CryptReencryptDirectionInfo {
    /// From the first byte to the last
    Forward,
    /// From the last byte to the first
    Backward,
}

/// What the walk does to the payload.
#[derive(Clone, Copy, Debug, PartialEq, Eq, Structural)]
pub enum CryptReencryptModeInfo {
    /// Encrypted data under one key becomes encrypted data under another
    Reencrypt,
    /// Plain data becomes encrypted data
    Encrypt,
    /// Encrypted data becomes plain data
    Decrypt,
}

/// Where a reencryption stands.
#[derive(Clone, Copy, Debug, PartialEq, Eq, Structural)]
pub enum ReencryptPhase {
    /// No reencryption was set up.
    NotStarted,
    /// The progress is persisted; no chunk was asked for yet.
    Initialized,
    /// Chunks are being converted.
    Running,
    /// The whole payload is converted. Nothing leaves this phase.
    Completed,
    /// The walk was stopped between two chunks and can be resumed.
    Interrupted,
}

/// What a caller asks for when it sets up a reencryption.
#[derive(Clone, Copy, Debug, PartialEq, Eq, Structural)]
pub struct CryptParamsReencrypt {
    /// The direction of the walk
    pub direction: CryptReencryptDirectionInfo,
    /// What the walk does
    pub mode: CryptReencryptModeInfo,
    /// The length of the payload in bytes
    pub length: u64,
    /// The most bytes that one chunk converts
    pub chunk: u64,
}

/// One chunk of the payload: `len` bytes that begin at byte `start`.
#[derive(Clone, Copy, Debug, PartialEq, Eq, Structural)]
pub struct Chunk {
    /// The first byte of the chunk
    pub start: u64,
    /// The number of bytes in the chunk
    pub len: u64,
}

/// The reencryption of one device: its phase and its persisted progress.
#[derive(Clone, Copy, Debug, PartialEq, Eq, Structural)]
pub struct Reencryption {
    /// Where the reencryption stands
    pub phase: ReencryptPhase,
    /// The direction of the walk
    pub direction: CryptReencryptDirectionInfo,
    /// What the walk does
    pub mode: CryptReencryptModeInfo,
    /// How many bytes are converted and committed
    pub offset: u64,
    /// The length of the payload in bytes
    pub length: u64,
    /// The most bytes that one chunk converts
    pub chunk: u64,
}

/// What the controller decides at a chunk boundary.
#[derive(Clone, Copy, Debug, PartialEq, Eq, Structural)]
pub enum ReencryptStep {
    /// The engine is to convert this chunk next.
    Convert(Chunk),
    /// The whole payload is converted.
    Completed,
    /// The walk stopped on request; it is no failure.
    Interrupted,
}

/// What setting up a reencryption comes to.
#[derive(Clone, Copy, Debug, PartialEq, Eq, Structural)]
pub enum ReencryptSetup {
    /// The engine is to persist a new reencryption at offset 0.
    Persist,
    /// The same reencryption is set up already; its progress stays.
    Keep,
    /// The parameters or the phase do not allow it.
    Refuse(ErrorKind),
}

/// The reencryption before anything was set up.
pub open spec fn not_started() -> Reencryption {
    Reencryption {
        phase: ReencryptPhase::NotStarted,
        direction: CryptReencryptDirectionInfo::Forward,
        mode: CryptReencryptModeInfo::Reencrypt,
        offset: 0,
        length: 0,
        chunk: 0,
    }
}

impl Reencryption {
    /// What every reencryption that the library builds satisfies. The
    /// offset never passes the end; chunks are not empty once a
    /// reencryption is set up; a completed one has converted everything.
    pub open spec fn wf(self) -> bool {
        &&& self.offset <= self.length
        &&& self.phase == ReencryptPhase::NotStarted ==> self.offset == 0
        &&& self.phase != ReencryptPhase::NotStarted ==> self.chunk > 0
        &&& self.phase == ReencryptPhase::Completed ==> self.offset == self.length
    }

    /// How many bytes the next chunk holds: a full chunk, or what is left.
    pub open spec fn next_len(self) -> int {
        if self.length - self.offset < self.chunk {
            self.length - self.offset
        } else {
            self.chunk as int
        }
    }

    /// The chunk of `len` bytes that follows the committed offset. A
    /// backward walk counts its offset from the end of the payload.
    pub open spec fn chunk_at(self, offset: int, len: int) -> Chunk {
        match self.direction {
            CryptReencryptDirectionInfo::Forward => Chunk { start: offset as u64, len: len as u64 },
            CryptReencryptDirectionInfo::Backward => Chunk {
                start: (self.length - offset - len) as u64,
                len: len as u64,
            },
        }
    }

    /// The chunk that is converted next.
    pub open spec fn next_chunk(self) -> Chunk {
        self.chunk_at(self.offset as int, self.next_len())
    }

    /// What setting up with `params` comes to in this phase.
    pub open spec fn setup(self, params: CryptParamsReencrypt) -> ReencryptSetup {
        if params.chunk == 0 {
            ReencryptSetup::Refuse(ErrorKind::InvalidArgument)
        } else {
            match self.phase {
                ReencryptPhase::NotStarted => ReencryptSetup::Persist,
                ReencryptPhase::Initialized | ReencryptPhase::Interrupted => {
                    if params.direction == self.direction && params.mode == self.mode
                        && params.length == self.length {
                        ReencryptSetup::Keep
                    } else {
                        ReencryptSetup::Refuse(ErrorKind::InvalidArgument)
                    }
                },
                ReencryptPhase::Running => ReencryptSetup::Refuse(ErrorKind::DeviceBusy),
                ReencryptPhase::Completed => ReencryptSetup::Refuse(ErrorKind::InvalidArgument),
            }
        }
    }

    /// The reencryption once the engine has persisted `params` at offset 0.
    pub open spec fn persisted(params: CryptParamsReencrypt) -> Reencryption {
        Reencryption {
            phase: ReencryptPhase::Initialized,
            direction: params.direction,
            mode: params.mode,
            offset: 0,
            length: params.length,
            chunk: params.chunk,
        }
    }

    /// What the controller decides at a chunk boundary, given whether a
    /// stop is requested. Work that is finished is reported as completed
    /// even when a stop is requested.
    pub open spec fn decision(self, interrupt: Interrupt) -> Result<ReencryptStep, LibcryptErr> {
        match self.phase {
            ReencryptPhase::Initialized | ReencryptPhase::Running => {
                if self.offset >= self.length {
                    Ok(ReencryptStep::Completed)
                } else if interrupt == Interrupt::Yes {
                    Ok(ReencryptStep::Interrupted)
                } else {
                    Ok(ReencryptStep::Convert(self.next_chunk()))
                }
            },
            ReencryptPhase::Completed => Ok(ReencryptStep::Completed),
            _ => Err(refusal(ErrorKind::InvalidArgument)),
        }
    }

    /// The reencryption after the decision at a chunk boundary.
    pub open spec fn decided(self, interrupt: Interrupt) -> Reencryption {
        match self.decision(interrupt) {
            Ok(ReencryptStep::Convert(_)) => Reencryption {
                phase: ReencryptPhase::Running,
                ..self
            },
            Ok(ReencryptStep::Completed) => Reencryption {
                phase: ReencryptPhase::Completed,
                ..self
            },
            Ok(ReencryptStep::Interrupted) => Reencryption {
                phase: ReencryptPhase::Interrupted,
                ..self
            },
            Err(_) => self,
        }
    }

    /// The reencryption after the engine has converted and committed a
    /// chunk of `len` bytes. A length that does not fit what is left
    /// commits nothing.
    pub open spec fn committed(self, len: u64) -> Reencryption {
        if self.phase == ReencryptPhase::Running && 0 < len <= self.length - self.offset {
            Reencryption {
                phase: if self.offset + len == self.length {
                    ReencryptPhase::Completed
                } else {
                    ReencryptPhase::Running
                },
                offset: (self.offset + len) as u64,
                ..self
            }
        } else {
            self
        }
    }

    /// The reencryption after the engine failed on a chunk: nothing is
    /// committed, and the walk can be resumed.
    pub open spec fn stopped(self) -> Reencryption {
        if self.phase == ReencryptPhase::Running {
            Reencryption { phase: ReencryptPhase::Interrupted, ..self }
        } else {
            self
        }
    }

    /// Whether the walk can be taken up again: only one that was set up
    /// and is neither under way nor completed.
    pub open spec fn resumption(self) -> Result<u64, LibcryptErr> {
        match self.phase {
            ReencryptPhase::Initialized | ReencryptPhase::Interrupted => Ok(self.offset),
            ReencryptPhase::Running => Err(refusal(ErrorKind::DeviceBusy)),
            _ => Err(refusal(ErrorKind::InvalidArgument)),
        }
    }

    /// The reencryption after it was taken up again.
    pub open spec fn resumed(self) -> Reencryption {
        if self.resumption() is Ok {
            Reencryption { phase: ReencryptPhase::Running, ..self }
        } else {
            self
        }
    }

    /// Whether a persisted progress can be taken over: its chunks are not
    /// empty and its offset does not pass the end.
    pub open spec fn adoptable(self, progress: Reencryption) -> bool {
        &&& self.phase == ReencryptPhase::NotStarted
        &&& progress.chunk > 0
        &&& progress.offset <= progress.length
    }

    /// The reencryption after it took over a persisted progress. It waits
    /// to be resumed, unless everything is converted already.
    pub open spec fn adopted(self, progress: Reencryption) -> Reencryption {
        if self.adoptable(progress) {
            Reencryption {
                phase: if progress.offset == progress.length {
                    ReencryptPhase::Completed
                } else {
                    ReencryptPhase::Interrupted
                },
                ..progress
            }
        } else {
            self
        }
    }

    /// What a crash of the process leaves of the reencryption: the
    /// persisted progress, with a walk that was under way now stopped.
    pub open spec fn after_crash(self) -> Reencryption {
        self.stopped()
    }

    /// The reencryption before anything was set up.
    pub fn new() -> (r: Reencryption)
        ensures
            r == not_started(),
            r.wf(),
    {
        Reencryption {
            phase: ReencryptPhase::NotStarted,
            direction: CryptReencryptDirectionInfo::Forward,
            mode: CryptReencryptModeInfo::Reencrypt,
            offset: 0,
            length: 0,
            chunk: 0,
        }
    }

    /// What setting up with `params` comes to in this phase.
    pub fn set_up(&self, params: &CryptParamsReencrypt) -> (r: ReencryptSetup)
        ensures
            r == self.setup(*params),
    {
        if params.chunk == 0 {
            ReencryptSetup::Refuse(ErrorKind::InvalidArgument)
        } else {
            match self.phase {
                ReencryptPhase::NotStarted => ReencryptSetup::Persist,
                ReencryptPhase::Initialized | ReencryptPhase::Interrupted => {
                    if params.direction == self.direction && params.mode == self.mode
                        && params.length == self.length {
                        ReencryptSetup::Keep
                    } else {
                        ReencryptSetup::Refuse(ErrorKind::InvalidArgument)
                    }
                },
                ReencryptPhase::Running => ReencryptSetup::Refuse(ErrorKind::DeviceBusy),
                ReencryptPhase::Completed => ReencryptSetup::Refuse(ErrorKind::InvalidArgument),
            }
        }
    }

    /// The reencryption once the engine has persisted `params` at offset 0.
    pub fn persist(params: &CryptParamsReencrypt) -> (r: Reencryption)
        ensures
            r == Reencryption::persisted(*params),
            params.chunk > 0 ==> r.wf(),
    {
        Reencryption {
            phase: ReencryptPhase::Initialized,
            direction: params.direction,
            mode: params.mode,
            offset: 0,
            length: params.length,
            chunk: params.chunk,
        }
    }

    /// Decides at a chunk boundary how the walk goes on, given whether a
    /// stop is requested, and moves to the phase that the decision brings.
    pub fn step(&mut self, interrupt: Interrupt) -> (r: Result<ReencryptStep, LibcryptErr>)
        ensures
            r == old(self).decision(interrupt),
            *final(self) == old(self).decided(interrupt),
            old(self).wf() ==> final(self).wf(),
    {
        match self.phase {
            ReencryptPhase::Initialized | ReencryptPhase::Running => {
                if self.offset >= self.length {
                    self.phase = ReencryptPhase::Completed;
                    Ok(ReencryptStep::Completed)
                } else if interrupt == Interrupt::Yes {
                    self.phase = ReencryptPhase::Interrupted;
                    Ok(ReencryptStep::Interrupted)
                } else {
                    let left: u64 = self.length - self.offset;
                    let len: u64 = if left < self.chunk {
                        left
                    } else {
                        self.chunk
                    };
                    let start: u64 = match self.direction {
                        CryptReencryptDirectionInfo::Forward => self.offset,
                        CryptReencryptDirectionInfo::Backward => left - len,
                    };
                    self.phase = ReencryptPhase::Running;
                    Ok(ReencryptStep::Convert(Chunk { start, len }))
                }
            },
            ReencryptPhase::Completed => Ok(ReencryptStep::Completed),
            _ => Err(LibcryptErr::refused(ErrorKind::InvalidArgument)),
        }
    }

    /// Records that the engine has converted and committed a chunk of
    /// `len` bytes.
    pub fn commit(&mut self, len: u64)
        ensures
            *final(self) == old(self).committed(len),
            old(self).wf() ==> final(self).wf(),
    {
        if self.phase == ReencryptPhase::Running && self.offset <= self.length && 0 < len && len
            <= self.length - self.offset {
            self.offset = self.offset + len;
            if self.offset == self.length {
                self.phase = ReencryptPhase::Completed;
            }
        }
    }

    /// Records that the engine failed on a chunk.
    pub fn stop(&mut self)
        ensures
            *final(self) == old(self).stopped(),
            old(self).wf() ==> final(self).wf(),
    {
        if self.phase == ReencryptPhase::Running {
            self.phase = ReencryptPhase::Interrupted;
        }
    }

    /// Takes the walk up again and says from which offset it goes on.
    pub fn resume(&mut self) -> (r: Result<u64, LibcryptErr>)
        ensures
            r == old(self).resumption(),
            *final(self) == old(self).resumed(),
            old(self).wf() ==> final(self).wf(),
    {
        match self.phase {
            ReencryptPhase::Initialized | ReencryptPhase::Interrupted => {
                self.phase = ReencryptPhase::Running;
                Ok(self.offset)
            },
            ReencryptPhase::Running => Err(LibcryptErr::refused(ErrorKind::DeviceBusy)),
            _ => Err(LibcryptErr::refused(ErrorKind::InvalidArgument)),
        }
    }

    /// Takes over the progress that a header persists, where nothing was
    /// set up in this session. Says whether it did.
    pub fn adopt(&mut self, progress: &Reencryption) -> (taken: bool)
        ensures
            taken == old(self).adoptable(*progress),
            *final(self) == old(self).adopted(*progress),
            old(self).wf() ==> final(self).wf(),
    {
        if self.phase == ReencryptPhase::NotStarted && progress.chunk > 0 && progress.offset
            <= progress.length {
            self.phase = if progress.offset == progress.length {
                ReencryptPhase::Completed
            } else {
                ReencryptPhase::Interrupted
            };
            self.direction = progress.direction;
            self.mode = progress.mode;
            self.offset = progress.offset;
            self.length = progress.length;
            self.chunk = progress.chunk;
            true
        } else {
            false
        }
    }
}

/// The chunks that a walk which is never interrupted hands to the engine
/// from the committed offset `offset` on, in order.
pub open spec fn chunks_from(r: Reencryption, offset: int) -> Seq<Chunk>
    decreases r.length - offset,
{
    if 0 <= offset < r.length && r.chunk > 0 {
        let len = if r.length - offset < r.chunk {
            r.length - offset
        } else {
            r.chunk as int
        };
        seq![r.chunk_at(offset, len)] + chunks_from(r, offset + len)
    } else {
        Seq::empty()
    }
}

/// The reencryption after `rounds` rounds in which no stop was requested
/// and the engine committed the chunk that the controller named.
pub open spec fn advanced(r: Reencryption, rounds: nat) -> Reencryption
    decreases rounds,
{
    if rounds == 0 {
        r
    } else {
        match r.decision(Interrupt::No) {
            Ok(ReencryptStep::Convert(chunk)) => advanced(
                r.decided(Interrupt::No).committed(chunk.len),
                (rounds - 1) as nat,
            ),
            _ => r.decided(Interrupt::No),
        }
    }
}

/// The payload after the engine converted one chunk of it. What the engine
/// makes of the bytes of a chunk is `cipher`; the bytes around the chunk
/// stay.
pub open spec fn converted_chunk(
    payload: Seq<u8>,
    chunk: Chunk,
    cipher: spec_fn(Chunk, Seq<u8>) -> Seq<u8>,
) -> Seq<u8> {
    payload.subrange(0, chunk.start as int) + cipher(
        chunk,
        payload.subrange(chunk.start as int, chunk.start + chunk.len),
    ) + payload.subrange(chunk.start + chunk.len, payload.len() as int)
}

/// The payload after the engine converted the given chunks in order.
pub open spec fn converted(
    payload: Seq<u8>,
    chunks: Seq<Chunk>,
    cipher: spec_fn(Chunk, Seq<u8>) -> Seq<u8>,
) -> Seq<u8>
    decreases chunks.len(),
{
    if chunks.len() == 0 {
        payload
    } else {
        converted(converted_chunk(payload, chunks[0], cipher), chunks.drop_first(), cipher)
    }
}

/// Whether a walk is under way or about to begin.
pub open spec fn walking(r: Reencryption) -> bool {
    r.phase == ReencryptPhase::Initialized || r.phase == ReencryptPhase::Running
}

/// The controller names the chunks of `chunks_from`, one after the other.
///
/// After `rounds` uninterrupted rounds the progress is sound, the
/// parameters of the walk are the same, and the chunks still to come are
/// the chunks of the whole walk without the first `rounds`.
pub proof fn advance_follows_the_chunks(r: Reencryption, rounds: nat)
    requires
        r.wf(),
        walking(r),
        rounds <= chunks_from(r, r.offset as int).len(),
    ensures
        advanced(r, rounds).wf(),
        advanced(r, rounds).direction == r.direction,
        advanced(r, rounds).mode == r.mode,
        advanced(r, rounds).length == r.length,
        advanced(r, rounds).chunk == r.chunk,
        r.offset <= advanced(r, rounds).offset,
        rounds > 0 ==> !walking(advanced(r, rounds)) || advanced(r, rounds).phase
            == ReencryptPhase::Running,
        rounds < chunks_from(r, r.offset as int).len() ==> walking(advanced(r, rounds))
            && advanced(r, rounds).offset < r.length,
        chunks_from(r, r.offset as int).skip(rounds as int) == chunks_from(
            advanced(r, rounds),
            advanced(r, rounds).offset as int,
        ),
    decreases rounds,
{
    let all = chunks_from(r, r.offset as int);
    if rounds == 0 {
        assert(all.skip(0) == all);
    } else {
        let chunk = r.next_chunk();
        let next = r.decided(Interrupt::No).committed(chunk.len);
        assert(r.offset < r.length);
        assert(r.decision(Interrupt::No) == Ok::<ReencryptStep, LibcryptErr>(
            ReencryptStep::Convert(chunk),
        ));
        assert(chunk.len == r.next_len());
        assert(next.offset == r.offset + r.next_len());
        same_parameters_same_chunks(r, next, next.offset as int);
        assert(all == seq![chunk] + chunks_from(r, r.offset + r.next_len()));
        assert(all.skip(1) == chunks_from(next, next.offset as int));
        if next.phase == ReencryptPhase::Completed {
            assert(chunks_from(next, next.offset as int).len() == 0);
            assert(rounds == 1);
            assert(advanced(next, 0) == next);
        } else {
            advance_follows_the_chunks(next, (rounds - 1) as nat);
        }
        assert(all.skip(rounds as int) == all.skip(1).skip(rounds - 1));
    }
}

/// The chunks of a walk depend on its direction, its length and its chunk
/// size alone.
pub proof fn same_parameters_same_chunks(r: Reencryption, s: Reencryption, offset: int)
    requires
        r.direction == s.direction,
        r.length == s.length,
        r.chunk == s.chunk,
    ensures
        chunks_from(r, offset) == chunks_from(s, offset),
    decreases r.length - offset,
{
    if 0 <= offset < r.length && r.chunk > 0 {
        let len = if r.length - offset < r.chunk {
            r.length - offset
        } else {
            r.chunk as int
        };
        same_parameters_same_chunks(r, s, offset + len);
    }
}

/// Converting one run of chunks and then another converts their
/// concatenation.
pub proof fn converting_in_two_parts(
    payload: Seq<u8>,
    first: Seq<Chunk>,
    second: Seq<Chunk>,
    cipher: spec_fn(Chunk, Seq<u8>) -> Seq<u8>,
)
    ensures
        converted(converted(payload, first, cipher), second, cipher) == converted(
            payload,
            first + second,
            cipher,
        ),
    decreases first.len(),
{
    if first.len() == 0 {
        assert(first + second == second);
    } else {
        assert((first + second)[0] == first[0]);
        assert((first + second).drop_first() == first.drop_first() + second);
        converting_in_two_parts(
            converted_chunk(payload, first[0], cipher),
            first.drop_first(),
            second,
            cipher,
        );
    }
}

/// A walk that is interrupted and resumed goes on from the committed
/// offset and converts what an uninterrupted walk converts.
///
/// Take a sound walk and let `rounds` chunks be committed, with work still
/// left. Let the walk then stop, on request at the next boundary or by a
/// crash of the process, and be resumed. The resumed walk is under way at
/// exactly the committed offset; the chunks that it still names are the
/// chunks of the uninterrupted walk that were not committed yet; and the
/// payload that results from both parts is, byte for byte, the payload of
/// the uninterrupted walk, whatever the engine's cipher does to a chunk.
pub proof fn interrupted_walk_converts_the_same(
    r: Reencryption,
    rounds: nat,
    payload: Seq<u8>,
    cipher: spec_fn(Chunk, Seq<u8>) -> Seq<u8>,
)
    requires
        r.wf(),
        walking(r),
        rounds < chunks_from(r, r.offset as int).len(),
    ensures
        ({
            let committed = advanced(r, rounds);
            let on_request = committed.decided(Interrupt::Yes).resumed();
            let after_crash = committed.after_crash().resumed();
            let whole = chunks_from(r, r.offset as int);
            &&& committed.decision(Interrupt::Yes) == Ok::<ReencryptStep, LibcryptErr>(
                ReencryptStep::Interrupted,
            )
            &&& committed.decided(Interrupt::Yes).resumption() == Ok::<u64, LibcryptErr>(
                committed.offset,
            )
            &&& on_request.phase == ReencryptPhase::Running
            &&& on_request.offset == committed.offset
            &&& after_crash.phase == ReencryptPhase::Running
            &&& after_crash.offset == committed.offset
            &&& on_request.decision(Interrupt::No) == committed.decision(Interrupt::No)
            &&& chunks_from(on_request, on_request.offset as int) == whole.skip(rounds as int)
            &&& chunks_from(after_crash, after_crash.offset as int) == whole.skip(rounds as int)
            &&& converted(
                converted(payload, whole.take(rounds as int), cipher),
                chunks_from(on_request, on_request.offset as int),
                cipher,
            ) == converted(payload, whole, cipher)
        }),
{
    let committed = advanced(r, rounds);
    let on_request = committed.decided(Interrupt::Yes).resumed();
    let after_crash = committed.after_crash().resumed();
    let whole = chunks_from(r, r.offset as int);
    advance_follows_the_chunks(r, rounds);
    same_parameters_same_chunks(committed, on_request, committed.offset as int);
    same_parameters_same_chunks(committed, after_crash, committed.offset as int);
    converting_in_two_parts(payload, whole.take(rounds as int), whole.skip(rounds as int), cipher);
    assert(whole.take(rounds as int) + whole.skip(rounds as int) == whole);
}

/// Nothing leaves the completed phase.
///
/// Whatever is asked of a completed reencryption, it stays as it is: a
/// step reports it completed, and it cannot be set up, resumed, stopped,
/// moved on or replaced by a persisted progress.
pub proof fn completed_is_terminal(
    r: Reencryption,
    interrupt: Interrupt,
    params: CryptParamsReencrypt,
    len: u64,
    progress: Reencryption,
)
    requires
        r.phase == ReencryptPhase::Completed,
    ensures
        r.decision(interrupt) == Ok::<ReencryptStep, LibcryptErr>(ReencryptStep::Completed),
        r.decided(interrupt) == r,
        r.setup(params) is Refuse,
        r.resumption() is Err,
        r.resumed() == r,
        r.committed(len) == r,
        r.stopped() == r,
        r.adopted(progress) == r,
{
}

/// An interrupted walk is taken up again by `resume` and by nothing else.
///
/// An interrupted reencryption refuses a step, commits nothing and keeps
/// its offset when it is set up again; `resume` alone brings it back
/// under way, at the offset where it stood.
pub proof fn only_resume_leaves_an_interruption(
    r: Reencryption,
    interrupt: Interrupt,
    len: u64,
    progress: Reencryption,
)
    requires
        r.phase == ReencryptPhase::Interrupted,
    ensures
        r.decision(interrupt) is Err,
        r.decided(interrupt) == r,
        r.committed(len) == r,
        r.stopped() == r,
        r.adopted(progress) == r,
        r.resumption() == Ok::<u64, LibcryptErr>(r.offset),
        r.resumed() == (Reencryption { phase: ReencryptPhase::Running, ..r }),
{
}

} // verus!
