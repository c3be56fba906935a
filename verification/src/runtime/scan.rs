//! The scanners of the three modes, and the values that pass between a scan
//! and the caller's match callback.

use vstd::prelude::*;

use libc::{c_int, c_uint};

use crate::common::database::DatabaseRef;
use crate::common::mode::{Block, Streaming, Vectored};
use crate::constants::{HsError, HS_SCAN_TERMINATED, HS_SUCCESS};
use crate::errors::{Error, ErrorKind, Operation};
use crate::runtime::call::{call_view, CallModel, ScanCall};
use crate::runtime::scratch::ScratchRef;
use crate::runtime::stream::{feed_result, StreamRef};

verus! {

/// The answer of a match callback: whether matching should continue on the
/// target data.
#[derive(Clone, Copy, Debug, PartialEq, Eq, Structural)]
pub enum Matching {
    /// The matching should continue.
    Continue,
    /// The matching should cease.
    Terminate,
}

impl Default for Matching {
    fn default() -> (matching: Matching)
        ensures
            matching == Matching::Continue,
    {
        Matching::Continue
    }
}

impl Matching {
    /// The integer that tells the engine of the answer: zero to go on, one to
    /// stop.
    pub open spec fn code_of(self) -> c_int {
        match self {
            Matching::Continue => 0,
            Matching::Terminate => 1,
        }
    }

    /// The integer that is handed back to the engine for this answer.
    pub fn code(self) -> (code: c_int)
        ensures
            code == self.code_of(),
    {
        match self {
            Matching::Continue => 0,
            Matching::Terminate => 1,
        }
    }
}

/// One match, as the engine reports it.
#[derive(Clone, Copy, Debug, PartialEq, Eq, Structural)]
pub struct MatchEvent {
    /// The identifier of the pattern that matched.
    pub id: u32,
    /// The offset of the first byte of the match in the logical input.
    pub from: u64,
    /// The offset after the last byte of the match in the logical input.
    pub to: u64,
    /// A word whose meaning belongs to the engine. The runtime hands it on.
    pub flags: u32,
}

/// How a scan ended when it did not fail.
#[derive(Clone, Copy, Debug, PartialEq, Eq, Structural)]
pub enum ScanOutcome {
    /// The engine exhausted the input.
    Completed,
    /// The callback asked for an early stop. This is no failure.
    Terminated,
}

impl ScanOutcome {
    /// What the status code of a scan means. `halted` says whether the
    /// callback asked for a stop during the call.
    ///
    /// A scan that the callback stopped ends as `Terminated`, whether the
    /// engine reports the stop by `HS_SCAN_TERMINATED` or returns
    /// `HS_SUCCESS`. Every other code is a failure.
    pub open spec fn of(operation: Operation, status: HsError, halted: bool) -> Result<
        ScanOutcome,
        Error,
    > {
        if status == HS_SUCCESS {
            Ok(
                if halted {
                    ScanOutcome::Terminated
                } else {
                    ScanOutcome::Completed
                },
            )
        } else if status == HS_SCAN_TERMINATED {
            Ok(ScanOutcome::Terminated)
        } else {
            Err(Error::from_status(operation, status))
        }
    }

    /// Turns the status code that the engine returned from a scan into the
    /// scan's outcome.
    pub fn from_status(operation: Operation, status: HsError, halted: bool) -> (result: Result<
        ScanOutcome,
        Error,
    >)
        ensures
            result == ScanOutcome::of(operation, status, halted),
    {
        if status == HS_SUCCESS {
            if halted {
                Ok(ScanOutcome::Terminated)
            } else {
                Ok(ScanOutcome::Completed)
            }
        } else if status == HS_SCAN_TERMINATED {
            Ok(ScanOutcome::Terminated)
        } else {
            Err(Error::backend(operation, status))
        }
    }
}

/// The length of a buffer as the engine takes it. The engine counts bytes in
/// 32 bits, so a length that 32 bits cannot hold has none.
pub open spec fn wire_length(len: nat) -> Option<c_uint> {
    if len <= u32::MAX {
        Some(len as c_uint)
    } else {
        None
    }
}

/// Converts a length to the 32 bits that the engine takes, if they hold it.
pub fn to_wire_length(len: usize) -> (wire: Option<c_uint>)
    ensures
        wire == wire_length(len as nat),
{
    if len <= u32::MAX as usize {
        Some(len as c_uint)
    } else {
        None
    }
}

/// Whether the engine can be told of a list of buffers: of how many there
/// are, and of the length of each.
pub open spec fn fits(data: Seq<Seq<u8>>) -> bool {
    &&& data.len() <= u32::MAX
    &&& forall|i: int| 0 <= i < data.len() ==> (#[trigger] data[i]).len() <= u32::MAX
}

/// The lengths of a list of buffers: one per buffer, in the order of the
/// buffers.
pub open spec fn lengths_of(data: Seq<Seq<u8>>) -> Seq<c_uint> {
    Seq::new(data.len(), |i: int| data[i].len() as c_uint)
}

/// The logical input that a list of buffers makes up: the buffers one after
/// the other. Match offsets count bytes of this sequence.
pub open spec fn logical_input(data: Seq<Seq<u8>>) -> Seq<u8>
    decreases data.len(),
{
    if data.len() == 0 {
        Seq::empty()
    } else {
        logical_input(data.drop_last()) + data.last()
    }
}

/// The contents of a list of buffers.
pub open spec fn contents(data: Seq<&[u8]>) -> Seq<Seq<u8>> {
    Seq::new(data.len(), |i: int| data[i]@)
}

/// The error of a scan whose buffers the engine cannot be told of.
pub open spec fn too_long(operation: Operation) -> Error {
    Error::local(ErrorKind::InvalidArgument, operation)
}

/// What beginning a call of `operation` on `buffers` gives: the call, if the
/// engine can be told of the buffers, else an error and no call.
pub open spec fn call_result(operation: Operation, buffers: Seq<Seq<u8>>, muted: bool) -> Result<
    CallModel,
    Error,
> {
    if fits(buffers) {
        Ok(CallModel::start(operation, buffers, muted))
    } else {
        Err(too_long(operation))
    }
}

/// What a call of `operation` on the one buffer `data` gives: the call, or an
/// error and no call if the buffer has more than `u32::MAX` bytes.
pub open spec fn single_result(operation: Operation, data: Seq<u8>) -> Result<CallModel, Error> {
    if data.len() <= u32::MAX {
        Ok(CallModel::start(operation, seq![data], false))
    } else {
        Err(too_long(operation))
    }
}

/// What a block scan of `data` prepares: a call on the one buffer, which
/// holds all of `data`, or an error if `data` has more than `u32::MAX` bytes.
pub open spec fn block_result(data: Seq<u8>) -> Result<CallModel, Error> {
    single_result(Operation::Scan, data)
}

/// The engine can be told of one buffer exactly when it can be told of the
/// buffer's length.
pub proof fn lemma_single_fits(operation: Operation, data: Seq<u8>)
    ensures
        fits(seq![data]) <==> data.len() <= u32::MAX,
        call_result(operation, seq![data], false) == single_result(operation, data),
{
    let one = seq![data];
    assert(one[0] == data);
}

/// What a vectored scan of `data` prepares: a call on the buffers in their
/// order, or an error if there are more than `u32::MAX` buffers or one of
/// them has more than `u32::MAX` bytes.
pub open spec fn vectored_result(data: Seq<Seq<u8>>) -> Result<CallModel, Error> {
    call_result(Operation::ScanVector, data, false)
}

/// The logical input of one buffer is the buffer.
pub proof fn lemma_logical_input_of_one(data: Seq<u8>)
    ensures
        logical_input(seq![data]) == data,
{
    let one = seq![data];
    assert(one.drop_last() =~= Seq::<Seq<u8>>::empty());
    assert(logical_input(one.drop_last()) =~= Seq::<u8>::empty());
    assert(logical_input(one) =~= data);
}

/// A vectored scan presents the engine with the concatenation of its buffers,
/// and so does a block scan of one buffer that holds the concatenation:
/// wherever both scans are prepared, they read the same logical input, byte
/// for byte, and an offset means the same in both.
pub proof fn lemma_vectored_presents_concatenation(data: Seq<Seq<u8>>)
    ensures
        vectored_result(data) matches Ok(vectored) ==> vectored.input() == logical_input(data),
        block_result(logical_input(data)) matches Ok(block) ==> block.input() == logical_input(
            data,
        ),
{
    lemma_logical_input_of_one(logical_input(data));
}

impl DatabaseRef<Block> {
    /// The block (non-streaming) regular expression scanner.
    ///
    /// Prepares the scan of one contiguous buffer. The whole of `data` goes
    /// to the engine in one call, as the one buffer of the returned call.
    /// Each match comes back through the call, which hands it to
    /// `on_match_event` and holds `scratch` until it is finished.
    ///
    /// The engine counts bytes in 32 bits. A buffer of more than `u32::MAX`
    /// bytes cannot be handed over whole, so it is refused with
    /// `InvalidArgument`, and no call is prepared.
    pub fn scan<'a, F>(
        &self,
        data: &'a [u8],
        scratch: &'a mut ScratchRef,
        on_match_event: F,
    ) -> (result: Result<ScanCall<'a, F>, Error>) where F: FnMut(u32, u64, u64, u32) -> Matching
        ensures
            call_view(result) == block_result(data@),
            result matches Ok(call) ==> call.callback() == Some(on_match_event),
            *final(scratch) == *old(scratch),
    {
        let mut buffers: Vec<&'a [u8]> = Vec::new();
        buffers.push(data);
        proof {
            assert(contents(buffers@) =~= seq![data@]);
            lemma_single_fits(Operation::Scan, data@);
        }
        ScanCall::begin(Operation::Scan, buffers, Some(on_match_event), scratch)
    }
}

impl DatabaseRef<Vectored> {
    /// The vectored regular expression scanner.
    ///
    /// Prepares the scan of an ordered list of buffers, which the engine
    /// matches as one logical input without the buffers being copied
    /// together: a match may span a boundary, and offsets count from the
    /// start of the first buffer. The returned call names the buffers in the
    /// order given, each with its length, and hands each match to
    /// `on_match_event`.
    ///
    /// The engine counts buffers and bytes in 32 bits. More than `u32::MAX`
    /// buffers, or a buffer of more than `u32::MAX` bytes, cannot be handed
    /// over whole: the scan is refused with `InvalidArgument`, and no call is
    /// prepared.
    pub fn scan<'a, F>(
        &self,
        data: &'a [&'a [u8]],
        scratch: &'a mut ScratchRef,
        on_match_event: F,
    ) -> (result: Result<ScanCall<'a, F>, Error>) where F: FnMut(u32, u64, u64, u32) -> Matching
        ensures
            call_view(result) == vectored_result(contents(data@)),
            result matches Ok(call) ==> call.callback() == Some(on_match_event),
            *final(scratch) == *old(scratch),
    {
        let mut buffers: Vec<&'a [u8]> = Vec::new();
        let mut i: usize = 0;
        while i < data.len()
            invariant
                i <= data.len(),
                buffers@ == data@.take(i as int),
            decreases data.len() - i,
        {
            buffers.push(data[i]);
            assert(data@.take(i as int).push(data@[i as int]) =~= data@.take(i + 1));
            i += 1;
        }
        assert(data@.take(data@.len() as int) =~= data@);
        ScanCall::begin(Operation::ScanVector, buffers, Some(on_match_event), scratch)
    }
}

/// The size of the buffer into which a streaming scan reads its source, and
/// so the longest chunk that it feeds.
pub const SCAN_BUF_SIZE: usize = 4096;

/// What the embedding program reports to a streaming scan after it has done
/// what the scan asked for.
#[derive(Clone, Copy, Debug, PartialEq, Eq)]
pub enum StreamEvent {
    /// The session was asked for, with this result.
    Opened(Result<(), Error>),
    /// The source was read: `Some(n)` when `n` bytes arrived in the buffer,
    /// `None` when the read failed.
    Read(Option<usize>),
    /// The chunk was fed to the session, with this result.
    Fed(Result<ScanOutcome, Error>),
    /// The session was closed, with this result.
    Closed(Result<ScanOutcome, Error>),
}

/// What a streaming scan asks the embedding program to do next.
#[derive(Clone, Copy, Debug, PartialEq, Eq)]
pub enum StreamAction {
    /// Ask the engine for a session on the database.
    Open,
    /// Read up to `capacity` bytes from the source into the buffer.
    Read { capacity: usize },
    /// Feed the first `len` bytes of the buffer to the session.
    Feed { len: usize },
    /// Close the session. With `report` set the caller's callback receives
    /// the matches found at the end of the data; without it the session is
    /// only released.
    Close { report: bool },
    /// The scan is over, with this result.
    Return(Result<ScanOutcome, Error>),
}

/// A streaming scan of a whole source: a session is opened, the source is
/// read in chunks of at most [`SCAN_BUF_SIZE`] bytes, each chunk is fed in
/// turn, and the session is closed when the source is exhausted.
///
/// The value is the state of that scan between two actions of the embedding
/// program. It adds nothing to the session's own state: it only says which
/// report is awaited.
#[derive(Clone, Copy, Debug, PartialEq, Eq)]
pub enum StreamScan {
    /// The session has been asked for.
    Opening,
    /// The session is open and the source is being read.
    Reading,
    /// The session is open and a chunk is being fed.
    Feeding,
    /// The session is being closed. `settled` is the result of the scan if a
    /// chunk has already decided it: the chunk failed, or the callback
    /// stopped it.
    Closing { settled: Option<Result<ScanOutcome, Error>> },
    /// The scan has returned.
    Done,
}

impl StreamScan {
    /// Whether the scan has a session that is open and not yet being closed.
    pub open spec fn live(self) -> bool {
        self is Reading || self is Feeding
    }

    /// The error that a scan answers to a report that it did not await.
    pub open spec fn unexpected() -> Error {
        Error::local(ErrorKind::InvalidState, Operation::ScanStream)
    }

    /// The result with which a scan returns once its session is closed: what
    /// a chunk has settled, if any has, else what closing gave.
    pub open spec fn verdict(
        settled: Option<Result<ScanOutcome, Error>>,
        closed: Result<ScanOutcome, Error>,
    ) -> Result<ScanOutcome, Error> {
        match settled {
            Some(result) => result,
            None => closed,
        }
    }

    /// The scan after `event`, and what it asks for next.
    ///
    /// - A session that fails to open ends the scan with the error of the
    ///   opening. One that opens is read from.
    /// - A read of no bytes, or a read that fails, ends the data: the session
    ///   is closed, with the callback, and the scan returns what closing
    ///   gave. A read of some bytes has them fed.
    /// - A chunk that the engine exhausted is followed by the next read.
    /// - A chunk that the callback stopped ends the scan: nothing more is
    ///   read or fed, the session is released without the callback, so that
    ///   no further match is delivered, and the scan returns `Terminated`.
    /// - A chunk that failed has the session released, without the callback,
    ///   and its error returned.
    /// - A report that was not awaited is answered with `InvalidState`, after
    ///   the session is released if one is open.
    pub open spec fn step_of(self, event: StreamEvent) -> (StreamScan, StreamAction) {
        match (self, event) {
            (StreamScan::Opening, StreamEvent::Opened(Ok(_))) => (
                StreamScan::Reading,
                StreamAction::Read { capacity: SCAN_BUF_SIZE },
            ),
            (StreamScan::Opening, StreamEvent::Opened(Err(error))) => (
                StreamScan::Done,
                StreamAction::Return(Err(error)),
            ),
            (StreamScan::Reading, StreamEvent::Read(Some(len))) => if len == 0 {
                (StreamScan::Closing { settled: None }, StreamAction::Close { report: true })
            } else {
                (StreamScan::Feeding, StreamAction::Feed { len })
            },
            (StreamScan::Reading, StreamEvent::Read(None)) => (
                StreamScan::Closing { settled: None },
                StreamAction::Close { report: true },
            ),
            (StreamScan::Feeding, StreamEvent::Fed(Ok(ScanOutcome::Completed))) => (
                StreamScan::Reading,
                StreamAction::Read { capacity: SCAN_BUF_SIZE },
            ),
            (StreamScan::Feeding, StreamEvent::Fed(fed)) => (
                StreamScan::Closing { settled: Some(fed) },
                StreamAction::Close { report: false },
            ),
            (StreamScan::Closing { settled }, StreamEvent::Closed(closed)) => (
                StreamScan::Done,
                StreamAction::Return(StreamScan::verdict(settled, closed)),
            ),
            (StreamScan::Reading, _) | (StreamScan::Feeding, _) => (
                StreamScan::Closing { settled: Some(Err(StreamScan::unexpected())) },
                StreamAction::Close { report: false },
            ),
            _ => (StreamScan::Done, StreamAction::Return(Err(StreamScan::unexpected()))),
        }
    }

    /// Takes the report of the action asked for last and says what to do
    /// next.
    pub fn step(self, event: StreamEvent) -> (next: (StreamScan, StreamAction))
        ensures
            next == self.step_of(event),
    {
        match self {
            StreamScan::Opening => match event {
                StreamEvent::Opened(Ok(_)) => (
                    StreamScan::Reading,
                    StreamAction::Read { capacity: SCAN_BUF_SIZE },
                ),
                StreamEvent::Opened(Err(error)) => (StreamScan::Done, StreamAction::Return(Err(error))),
                _ => (StreamScan::Done, StreamAction::Return(Err(StreamScan::refusal()))),
            },
            StreamScan::Reading => match event {
                StreamEvent::Read(Some(len)) => {
                    if len == 0 {
                        (
                            StreamScan::Closing { settled: None },
                            StreamAction::Close { report: true },
                        )
                    } else {
                        (StreamScan::Feeding, StreamAction::Feed { len })
                    }
                },
                StreamEvent::Read(None) => (
                    StreamScan::Closing { settled: None },
                    StreamAction::Close { report: true },
                ),
                _ => (
                    StreamScan::Closing { settled: Some(Err(StreamScan::refusal())) },
                    StreamAction::Close { report: false },
                ),
            },
            StreamScan::Feeding => match event {
                StreamEvent::Fed(Ok(ScanOutcome::Completed)) => (
                    StreamScan::Reading,
                    StreamAction::Read { capacity: SCAN_BUF_SIZE },
                ),
                StreamEvent::Fed(fed) => (
                    StreamScan::Closing { settled: Some(fed) },
                    StreamAction::Close { report: false },
                ),
                _ => (
                    StreamScan::Closing { settled: Some(Err(StreamScan::refusal())) },
                    StreamAction::Close { report: false },
                ),
            },
            StreamScan::Closing { settled } => match event {
                StreamEvent::Closed(closed) => {
                    let verdict = match settled {
                        Some(result) => result,
                        None => closed,
                    };
                    (StreamScan::Done, StreamAction::Return(verdict))
                },
                _ => (StreamScan::Done, StreamAction::Return(Err(StreamScan::refusal()))),
            },
            StreamScan::Done => (StreamScan::Done, StreamAction::Return(Err(StreamScan::refusal()))),
        }
    }

    /// The error for a report that was not awaited.
    fn refusal() -> (error: Error)
        ensures
            error == StreamScan::unexpected(),
    {
        Error::invalid_state(Operation::ScanStream)
    }
}

/// A streaming scan opens one session and releases it before it returns.
///
/// No step asks for a second session. While the session is open, a step leads
/// either on to the next read or chunk or into closing, and it asks for the
/// session to be closed exactly when it leads into closing. The scan returns
/// only from a state without an open session, and then it is done for good.
pub proof fn lemma_scan_releases_session(state: StreamScan, event: StreamEvent)
    ensures
        !(state.step_of(event).1 is Open),
        state.live() ==> state.step_of(event).0.live() || state.step_of(event).0 is Closing,
        state.step_of(event).1 is Close <==> state.live() && state.step_of(event).0 is Closing,
        state.step_of(event).1 is Return ==> !state.live(),
        state.step_of(event).1 is Return <==> state.step_of(event).0 is Done,
{
}

/// When the callback stops a chunk, the streaming scan as a whole stops: it
/// asks for nothing more to be read or fed, has the session released without
/// the callback, so that no match reaches the callback any more, and returns
/// `Terminated`, whatever the release gave.
pub proof fn lemma_stopped_chunk_ends_the_scan(closed: Result<ScanOutcome, Error>)
    ensures
        StreamScan::Feeding.step_of(StreamEvent::Fed(Ok(ScanOutcome::Terminated))) == (
            StreamScan::Closing { settled: Some(Ok(ScanOutcome::Terminated)) },
            StreamAction::Close { report: false },
        ),
        (StreamScan::Closing { settled: Some(Ok(ScanOutcome::Terminated)) }).step_of(
            StreamEvent::Closed(closed),
        ) == (StreamScan::Done, StreamAction::Return(Ok(ScanOutcome::Terminated))),
{
}

impl DatabaseRef<Streaming> {
    /// Pattern matching takes place for stream-mode pattern databases.
    ///
    /// Begins the scan of a whole source through a session of its own. The
    /// result is the scan's first state and its first request, which is to
    /// open the session; [`StreamScan::step`] leads on from there.
    pub fn scan(&self) -> (start: (StreamScan, StreamAction))
        ensures
            start == (StreamScan::Opening, StreamAction::Open),
    {
        (StreamScan::Opening, StreamAction::Open)
    }
}

impl StreamRef {
    /// Write data to be scanned to the opened stream.
    ///
    /// Prepares the scan of one chunk. The engine goes on from the state in
    /// which the chunk before left the session, and reports offsets that
    /// count from the start of the first chunk. The returned call hands each
    /// match to `on_match_event`. It holds the session and `scratch` until it
    /// is finished, so the chunks of one session follow one another strictly.
    ///
    /// On a closed session this fails with `InvalidState`. On an open session
    /// a chunk of more than `u32::MAX` bytes, which the engine cannot be told
    /// of, fails with `InvalidArgument`. Either way no call is prepared and
    /// the session stays as it was.
    pub fn scan<'a, F>(
        &'a mut self,
        data: &'a [u8],
        scratch: &'a mut ScratchRef,
        on_match_event: F,
    ) -> (result: Result<ScanCall<'a, F>, Error>) where F: FnMut(u32, u64, u64, u32) -> Matching
        ensures
            (final(self)@, call_view(result)) == feed_result(old(self)@, data@),
            result matches Ok(call) ==> call.callback() == Some(on_match_event),
            *final(scratch) == *old(scratch),
    {
        if !self.is_open() {
            return Err(Error::invalid_state(Operation::ScanStream));
        }
        let mut buffers: Vec<&'a [u8]> = Vec::new();
        buffers.push(data);
        proof {
            assert(contents(buffers@) =~= seq![data@]);
            lemma_single_fits(Operation::ScanStream, data@);
        }
        let result = ScanCall::begin(Operation::ScanStream, buffers, Some(on_match_event), scratch);
        if result.is_ok() {
            self.take_in(Ghost(data@));
        }
        result
    }
}

} // verus!
