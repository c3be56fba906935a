//! Streaming sessions.
//!
//! A session is opened on a streaming database, fed any number of chunks and
//! closed once. The engine carries its matching state from one chunk to the
//! next, so a match may begin in one chunk and end in a later one. Closing
//! tells the engine that the data has ended, which is when it reports the
//! matches that depend on the end of the data.

use vstd::prelude::*;

use libc::c_uint;

use crate::common::database::DatabaseRef;
use crate::common::mode::Streaming;
use crate::constants::{HsError, HS_SUCCESS};
use crate::errors::{Error, ErrorKind, Operation};
use crate::runtime::call::{call_view, CallModel, Delivery, ScanCall};
use crate::runtime::scan::{
    block_result, contents, lemma_logical_input_of_one, logical_input, single_result, MatchEvent,
    Matching,
};
use crate::runtime::scratch::ScratchRef;

verus! {

/// The state of a streaming session.
#[derive(Clone, Copy, Debug, PartialEq, Eq, Structural)]
pub enum StreamState {
    /// The session takes chunks.
    Open,
    /// The session has been closed. There is no way back.
    Closed,
}

/// The mathematical state of a streaming session.
pub struct StreamModel {
    /// Whether the session is open or closed.
    pub state: StreamState,
    /// The logical input of the session: the bytes that the engine was given
    /// through it so far, in the order of the chunks. Match offsets count
    /// bytes of this sequence.
    pub input: Seq<u8>,
}

/// A streaming session, borrowed.
pub struct StreamRef {
    state: StreamState,
    input: Ghost<Seq<u8>>,
}

/// A streaming session, owned.
pub struct Stream {
    inner: StreamRef,
}

impl View for StreamRef {
    type V = StreamModel;

    closed spec fn view(&self) -> StreamModel {
        StreamModel { state: self.state, input: self.input@ }
    }
}

impl View for Stream {
    type V = StreamModel;

    closed spec fn view(&self) -> StreamModel {
        self.inner@
    }
}

/// What feeding the chunk `data` to a session gives, and the session
/// afterwards.
///
/// - A closed session stays as it is, and gives `InvalidState` and no call.
/// - An open session refuses a chunk of more than `u32::MAX` bytes, of which
///   the engine cannot be told: it stays as it is, and gives
///   `InvalidArgument` and no call.
/// - An open session takes any other chunk, whole, into its logical input
///   and gives a call on it.
pub open spec fn feed_result(session: StreamModel, data: Seq<u8>) -> (
    StreamModel,
    Result<CallModel, Error>,
) {
    match session.state {
        StreamState::Open => if data.len() <= u32::MAX {
            (
                StreamModel { input: session.input + data, ..session },
                single_result(Operation::ScanStream, data),
            )
        } else {
            (session, single_result(Operation::ScanStream, data))
        },
        StreamState::Closed => (
            session,
            Err(Error::local(ErrorKind::InvalidState, Operation::ScanStream)),
        ),
    }
}

/// What closing a session gives, and the session afterwards. An open session
/// gives a call without a buffer, which is muted unless `report` is set. A
/// closed one gives an error and no call. The session is closed afterwards
/// either way.
pub open spec fn close_result(session: StreamModel, report: bool) -> (
    StreamModel,
    Result<CallModel, Error>,
) {
    match session.state {
        StreamState::Open => (
            StreamModel { state: StreamState::Closed, ..session },
            Ok(CallModel::start(Operation::CloseStream, Seq::<Seq<u8>>::empty(), !report)),
        ),
        StreamState::Closed => (
            session,
            Err(Error::local(ErrorKind::InvalidState, Operation::CloseStream)),
        ),
    }
}

/// What the engine's answer to the opening of a session means: an open
/// session without input on success, else the error of the status code.
pub open spec fn open_result(status: HsError) -> Result<StreamModel, Error> {
    if status == HS_SUCCESS {
        Ok(StreamModel { state: StreamState::Open, input: Seq::empty() })
    } else {
        Err(Error::from_status(Operation::OpenStream, status))
    }
}

/// The chunks among `chunks` that an open session takes, in order: those of
/// at most `u32::MAX` bytes.
pub open spec fn accepted(chunks: Seq<Seq<u8>>) -> Seq<Seq<u8>>
    decreases chunks.len(),
{
    if chunks.len() == 0 {
        Seq::empty()
    } else if chunks.last().len() <= u32::MAX {
        accepted(chunks.drop_last()).push(chunks.last())
    } else {
        accepted(chunks.drop_last())
    }
}

/// The session after the chunks of `chunks` were fed to it in order.
pub open spec fn fed(session: StreamModel, chunks: Seq<Seq<u8>>) -> StreamModel
    decreases chunks.len(),
{
    if chunks.len() == 0 {
        session
    } else {
        feed_result(fed(session, chunks.drop_last()), chunks.last()).0
    }
}

impl StreamRef {
    /// The state of the session.
    pub fn state(&self) -> (state: StreamState)
        ensures
            state == self@.state,
    {
        self.state
    }

    /// Whether the session still takes chunks.
    pub fn is_open(&self) -> (open: bool)
        ensures
            open == (self@.state == StreamState::Open),
    {
        self.state == StreamState::Open
    }

    /// Records that `bytes` were handed to the engine through the session.
    pub(crate) fn take_in(&mut self, bytes: Ghost<Seq<u8>>)
        ensures
            final(self)@ == (StreamModel { input: old(self)@.input + bytes@, ..old(self)@ }),
    {
        self.input = Ghost(self.input@ + bytes@);
    }

    /// Closes the session.
    ///
    /// On an open session this prepares the closing call and marks the session
    /// closed at once, so that whatever the engine answers the session is
    /// released exactly once. With a callback, the matches that the engine
    /// finds at the end of the data go to it; without one the engine is given
    /// no callback and these matches are lost.
    ///
    /// On a closed session this fails with `InvalidState` and prepares no
    /// call, so the engine is never asked to release a session twice.
    pub fn close<'a, F>(
        &'a mut self,
        scratch: &'a mut ScratchRef,
        on_match_event: Option<F>,
    ) -> (result: Result<ScanCall<'a, F>, Error>) where F: FnMut(u32, u64, u64, u32) -> Matching
        ensures
            (final(self)@, call_view(result)) == close_result(old(self)@, on_match_event is Some),
            result matches Ok(call) ==> call.callback() == on_match_event,
            *final(scratch) == *old(scratch),
    {
        match self.state {
            StreamState::Open => {
                self.state = StreamState::Closed;
                let buffers: Vec<&'a [u8]> = Vec::new();
                assert(contents(buffers@) =~= Seq::<Seq<u8>>::empty());
                ScanCall::begin(Operation::CloseStream, buffers, on_match_event, scratch)
            },
            StreamState::Closed => Err(Error::invalid_state(Operation::CloseStream)),
        }
    }
}

impl std::ops::Deref for Stream {
    type Target = StreamRef;

    fn deref(&self) -> (stream: &StreamRef)
        ensures
            stream@ == self@,
    {
        &self.inner
    }
}

impl std::ops::DerefMut for Stream {
    fn deref_mut(&mut self) -> (stream: &mut StreamRef)
        ensures
            stream@ == old(self)@,
            final(self)@ == final(stream)@,
    {
        &mut self.inner
    }
}

impl DatabaseRef<Streaming> {
    /// Opens a streaming session on the database, from the status code that
    /// the engine returned when it was asked for one.
    pub fn open_stream(&self, status: HsError) -> (result: Result<Stream, Error>)
        ensures
            open_result(status) == (match result {
                Ok(stream) => Ok::<StreamModel, Error>(stream@),
                Err(error) => Err::<StreamModel, Error>(error),
            }),
    {
        if status == HS_SUCCESS {
            Ok(Stream { inner: StreamRef { state: StreamState::Open, input: Ghost(Seq::empty()) } })
        } else {
            Err(Error::backend(Operation::OpenStream, status))
        }
    }
}

/// A closed session stays closed and takes nothing more: after `close`,
/// whatever the state before, a feed fails with `InvalidState`, and so does a
/// second `close`. Neither prepares a call, so nothing reaches the engine for
/// a session that it has already released, and neither changes the session.
pub proof fn lemma_closed_session_refuses(
    session: StreamModel,
    report: bool,
    data: Seq<u8>,
    again: bool,
)
    ensures
        close_result(session, report).0.state == StreamState::Closed,
        feed_result(close_result(session, report).0, data) == (
            close_result(session, report).0,
            Err::<CallModel, Error>(Error::local(ErrorKind::InvalidState, Operation::ScanStream)),
        ),
        close_result(close_result(session, report).0, again) == (
            close_result(session, report).0,
            Err::<CallModel, Error>(Error::local(ErrorKind::InvalidState, Operation::CloseStream)),
        ),
{
}

/// Only `close` tells the engine that the data has ended. A chunk, whatever
/// it holds, and be it empty, leaves the session open, and where it is taken
/// it is scanned as a chunk. Closing an open session is a call of its own kind, without a
/// buffer, and it listens exactly when a callback was given: a match that the
/// engine then finds at the end of the data is delivered, as the first match
/// of that call.
pub proof fn lemma_end_of_data_is_told_by_close(
    session: StreamModel,
    data: Seq<u8>,
    report: bool,
    event: MatchEvent,
    answer: Matching,
)
    requires
        session.state == StreamState::Open,
    ensures
        feed_result(session, data).0.state == StreamState::Open,
        feed_result(session, data).1 is Ok <==> data.len() <= u32::MAX,
        feed_result(session, data).1 matches Ok(call) ==> call.operation == Operation::ScanStream,
        close_result(session, report).0.state == StreamState::Closed,
        close_result(session, report).1 matches Ok(call) && call.operation
            == Operation::CloseStream && call.buffers.len() == 0 && call.listening() == report,
        report ==> close_result(session, report).1->Ok_0.on_match(event, answer).0.delivered
            == seq![Delivery { event, decision: answer }],
        !report ==> close_result(session, report).1->Ok_0.on_match(event, answer).0.delivered
            == Seq::<Delivery>::empty(),
{
    let call = close_result(session, report).1->Ok_0;
    assert(call.delivered.push(Delivery { event, decision: answer }) =~= seq![
        Delivery { event, decision: answer },
    ]);
}

/// The logical input of a list of buffers with one more at its end is that
/// of the list, followed by the one.
pub proof fn lemma_logical_input_push(data: Seq<Seq<u8>>, last: Seq<u8>)
    ensures
        logical_input(data.push(last)) == logical_input(data) + last,
{
    assert(data.push(last).drop_last() =~= data);
}

/// Chunks fed to an open session make up one logical input, whatever the
/// places at which the data was cut: after the chunks were fed in order, the
/// session is still open, and its input is what it was before, followed by
/// the chunks that it took, whole, one after the other. It takes every chunk
/// of at most `u32::MAX` bytes. For a session that was just opened, the
/// input is that of a block scan of the same bytes in one buffer, wherever
/// that scan is prepared.
pub proof fn lemma_chunks_present_concatenation(session: StreamModel, chunks: Seq<Seq<u8>>)
    requires
        session.state == StreamState::Open,
    ensures
        fed(session, chunks).state == StreamState::Open,
        fed(session, chunks).input == session.input + logical_input(accepted(chunks)),
        (forall|i: int| 0 <= i < chunks.len() ==> (#[trigger] chunks[i]).len() <= u32::MAX)
            ==> accepted(chunks) == chunks,
        session.input.len() == 0 ==> (block_result(logical_input(accepted(chunks))) matches Ok(
            block,
        ) ==> block.input() == fed(session, chunks).input),
    decreases chunks.len(),
{
    if chunks.len() > 0 {
        let head = chunks.drop_last();
        lemma_chunks_present_concatenation(session, head);
        lemma_logical_input_push(accepted(head), chunks.last());
        assert(fed(session, chunks).input =~= session.input + logical_input(accepted(chunks)));
        if forall|i: int| 0 <= i < chunks.len() ==> (#[trigger] chunks[i]).len() <= u32::MAX {
            assert(forall|i: int| 0 <= i < head.len() ==> (#[trigger] head[i]) == chunks[i]);
            assert(chunks.last() == chunks[chunks.len() - 1]);
            assert(accepted(chunks) =~= chunks);
        }
    } else {
        assert(fed(session, chunks).input =~= session.input + logical_input(accepted(chunks)));
        assert(accepted(chunks) =~= chunks);
    }
    if session.input.len() == 0 {
        lemma_logical_input_of_one(logical_input(accepted(chunks)));
        assert(session.input + logical_input(accepted(chunks)) =~= logical_input(
            accepted(chunks),
        ));
    }
}

/// Two ways of cutting the same bytes into chunks leave a session with the
/// same logical input: where the chunks that the session takes of the one
/// cut hold, one after the other, the bytes that those of the other cut hold,
/// the session's input after the one equals its input after the other, and
/// offsets count from the start of the stream in both.
pub proof fn lemma_cuts_agree(session: StreamModel, one: Seq<Seq<u8>>, other: Seq<Seq<u8>>)
    requires
        session.state == StreamState::Open,
        logical_input(accepted(one)) == logical_input(accepted(other)),
    ensures
        fed(session, one).input == fed(session, other).input,
        fed(session, one).state == fed(session, other).state,
{
    lemma_chunks_present_concatenation(session, one);
    lemma_chunks_present_concatenation(session, other);
}

} // verus!
