//! A scan in flight: the values handed to the engine, the path of each
//! reported match to the caller's callback, and the result.

use vstd::prelude::*;

use std::marker::PhantomData;

use libc::{c_int, c_uint};

use crate::constants::{HsError, HS_SCAN_TERMINATED, HS_SUCCESS};
use crate::errors::{Error, ErrorKind, Operation};
use crate::runtime::scan::{
    call_result, contents, fits, lengths_of, logical_input, to_wire_length, MatchEvent, Matching,
    ScanOutcome,
};
use crate::runtime::scratch::ScratchRef;

verus! {

/// One match that reached the callback, with the callback's answer.
pub struct Delivery {
    /// The match as the engine reported it.
    pub event: MatchEvent,
    /// What the callback answered.
    pub decision: Matching,
}

/// The mathematical state of a scan in flight.
pub struct CallModel {
    /// The operation that the call belongs to.
    pub operation: Operation,
    /// The contents of the buffers handed to the engine, in order.
    pub buffers: Seq<Seq<u8>>,
    /// Whether the call was made without a callback.
    pub muted: bool,
    /// Whether the callback has asked for the scan to stop.
    pub halted: bool,
    /// The matches that reached the callback so far, oldest first.
    pub delivered: Seq<Delivery>,
}

impl CallModel {
    /// A call that has just begun: nothing is delivered, nothing halted.
    pub open spec fn start(operation: Operation, buffers: Seq<Seq<u8>>, muted: bool) -> CallModel {
        CallModel { operation, buffers, muted, halted: false, delivered: Seq::empty() }
    }

    /// The length of each buffer as the engine is told of it, in order.
    pub open spec fn lengths(self) -> Seq<c_uint> {
        lengths_of(self.buffers)
    }

    /// The bytes that the engine reads in the call: the buffers, whole, one
    /// after the other. Match offsets count bytes of this sequence.
    pub open spec fn input(self) -> Seq<u8> {
        logical_input(self.buffers)
    }

    /// Whether a match that the engine reports now reaches the callback.
    pub open spec fn listening(self) -> bool {
        !self.muted && !self.halted
    }

    /// The call after the engine has reported `event`, and the integer that
    /// goes back to the engine. `answer` is what the callback says of the
    /// event; it counts only while the call is listening.
    ///
    /// A listening call delivers the event, records the answer and hands its
    /// code to the engine. A halted call delivers nothing and tells the engine
    /// to stop again. A muted call delivers nothing and lets the engine go on.
    pub open spec fn on_match(self, event: MatchEvent, answer: Matching) -> (CallModel, c_int) {
        if self.halted {
            (self, Matching::Terminate.code_of())
        } else if self.muted {
            (self, Matching::Continue.code_of())
        } else {
            (
                CallModel {
                    halted: answer == Matching::Terminate,
                    delivered: self.delivered.push(Delivery { event, decision: answer }),
                    ..self
                },
                answer.code_of(),
            )
        }
    }

    /// The result of the call once the engine has returned `status`.
    pub open spec fn finish(self, status: HsError) -> Result<ScanOutcome, Error> {
        ScanOutcome::of(self.operation, status, self.halted)
    }

    /// The answer that the callback gave to the match delivered last.
    pub open spec fn last_decision(self) -> Matching {
        self.delivered.last().decision
    }

    /// The call after the engine has reported `events` one after the other,
    /// where `answers` holds what the callback says of each.
    pub open spec fn on_matches(self, events: Seq<MatchEvent>, answers: Seq<Matching>) -> CallModel
        decreases events.len(),
    {
        if events.len() == 0 {
            self
        } else {
            self.on_matches(events.drop_last(), answers.drop_last()).on_match(
                events.last(),
                answers.last(),
            ).0
        }
    }
}

/// When the callback answers `Terminate` to a match, the engine is told to
/// stop, and no later match of the same call reaches the callback: whatever
/// the engine still reports, and whatever the callback would say of it, the
/// record of deliveries ends with the match that was answered `Terminate`, and
/// the engine is told to stop each time. When the engine then returns, having
/// stopped (`HS_SCAN_TERMINATED`) or not (`HS_SUCCESS`), the call ends as
/// `Terminated`, which is no error.
pub proof fn lemma_terminate_stops_delivery(
    call: CallModel,
    first: MatchEvent,
    later: Seq<MatchEvent>,
    answers: Seq<Matching>,
)
    requires
        call.listening(),
    ensures
        call.on_match(first, Matching::Terminate).1 != 0,
        call.on_match(first, Matching::Terminate).0.delivered == call.delivered.push(
            Delivery { event: first, decision: Matching::Terminate },
        ),
        call.on_match(first, Matching::Terminate).0.on_matches(later, answers) == call.on_match(
            first,
            Matching::Terminate,
        ).0,
        forall|event: MatchEvent, answer: Matching|
            (#[trigger] call.on_match(first, Matching::Terminate).0.on_match(event, answer)).1
                != 0,
        call.on_match(first, Matching::Terminate).0.on_matches(later, answers).finish(
            HS_SCAN_TERMINATED,
        ) == Ok::<ScanOutcome, Error>(ScanOutcome::Terminated),
        call.on_match(first, Matching::Terminate).0.on_matches(later, answers).finish(HS_SUCCESS)
            == Ok::<ScanOutcome, Error>(ScanOutcome::Terminated),
    decreases later.len(),
{
    if later.len() > 0 {
        lemma_terminate_stops_delivery(call, first, later.drop_last(), answers.drop_last());
    }
}

/// While the callback answers `Continue`, every match that the engine reports
/// is delivered, once, unchanged and in the order of the reports, and the
/// engine is told to go on.
pub proof fn lemma_continue_delivers_all(call: CallModel, events: Seq<MatchEvent>)
    requires
        call.listening(),
    ensures
        call.on_matches(events, Seq::new(events.len(), |i: int| Matching::Continue)).delivered
            == call.delivered + Seq::new(
            events.len(),
            |i: int| Delivery { event: events[i], decision: Matching::Continue },
        ),
        call.on_matches(events, Seq::new(events.len(), |i: int| Matching::Continue)).listening(),
        call.on_matches(events, Seq::new(events.len(), |i: int| Matching::Continue)).finish(
            HS_SUCCESS,
        ) == Ok::<ScanOutcome, Error>(ScanOutcome::Completed),
    decreases events.len(),
{
    let answers = Seq::new(events.len(), |i: int| Matching::Continue);
    if events.len() > 0 {
        let head = events.drop_last();
        lemma_continue_delivers_all(call, head);
        assert(answers.drop_last() =~= Seq::new(head.len(), |i: int| Matching::Continue));
        assert(call.on_matches(events, answers).delivered =~= call.delivered + Seq::new(
            events.len(),
            |i: int| Delivery { event: events[i], decision: Matching::Continue },
        ));
    } else {
        assert(call.delivered =~= call.delivered + Seq::new(
            events.len(),
            |i: int| Delivery { event: events[i], decision: Matching::Continue },
        ));
    }
}

/// One step of two calls that are in flight at the same time: the engine
/// reports `event` to the first call or to the second, and `answer` is what
/// that call's callback says of it.
pub struct Report {
    /// Whether the report goes to the first of the two calls.
    pub first: bool,
    /// The match that the engine reports.
    pub event: MatchEvent,
    /// What the callback says of it.
    pub answer: Matching,
}

/// Two calls after the reports of `steps`, each of which goes to one of the
/// two, in the order in which they arrive.
pub open spec fn interleaved(a: CallModel, b: CallModel, steps: Seq<Report>) -> (
    CallModel,
    CallModel,
)
    decreases steps.len(),
{
    if steps.len() == 0 {
        (a, b)
    } else {
        let before = interleaved(a, b, steps.drop_last());
        let step = steps.last();
        if step.first {
            (before.0.on_match(step.event, step.answer).0, before.1)
        } else {
            (before.0, before.1.on_match(step.event, step.answer).0)
        }
    }
}

/// The matches among `steps` that go to one of the two calls, in order.
pub open spec fn events_for(steps: Seq<Report>, first: bool) -> Seq<MatchEvent>
    decreases steps.len(),
{
    if steps.len() == 0 {
        Seq::empty()
    } else if steps.last().first == first {
        events_for(steps.drop_last(), first).push(steps.last().event)
    } else {
        events_for(steps.drop_last(), first)
    }
}

/// The answers among `steps` that belong to one of the two calls, in order.
pub open spec fn answers_for(steps: Seq<Report>, first: bool) -> Seq<Matching>
    decreases steps.len(),
{
    if steps.len() == 0 {
        Seq::empty()
    } else if steps.last().first == first {
        answers_for(steps.drop_last(), first).push(steps.last().answer)
    } else {
        answers_for(steps.drop_last(), first)
    }
}

/// Two calls that run at the same time, each on a scratch space of its own,
/// do not touch one another: however their reports interleave, each call
/// ends in the state that its own reports alone would have led it to, and so
/// with the deliveries and the result of a scan that ran by itself.
pub proof fn lemma_interleaved_calls_are_independent(
    a: CallModel,
    b: CallModel,
    steps: Seq<Report>,
)
    ensures
        interleaved(a, b, steps).0 == a.on_matches(
            events_for(steps, true),
            answers_for(steps, true),
        ),
        interleaved(a, b, steps).1 == b.on_matches(
            events_for(steps, false),
            answers_for(steps, false),
        ),
    decreases steps.len(),
{
    if steps.len() > 0 {
        let head = steps.drop_last();
        let step = steps.last();
        lemma_interleaved_calls_are_independent(a, b, head);
        let events = events_for(head, step.first);
        let answers = answers_for(head, step.first);
        assert(events.push(step.event).drop_last() =~= events);
        assert(answers.push(step.answer).drop_last() =~= answers);
    }
}

/// The buffers of a call together with their lengths as the engine takes
/// them, each length beside its buffer.
struct Request<'a> {
    buffers: Vec<&'a [u8]>,
    lengths: Vec<c_uint>,
}

impl<'a> View for Request<'a> {
    type V = Seq<Seq<u8>>;

    closed spec fn view(&self) -> Seq<Seq<u8>> {
        contents(self.buffers@)
    }
}

impl<'a> Request<'a> {
    /// The engine can be told of the buffers, and the lengths that are kept
    /// are theirs.
    #[verifier::type_invariant]
    spec fn lengths_match(&self) -> bool {
        &&& fits(contents(self.buffers@))
        &&& self.lengths@ == lengths_of(contents(self.buffers@))
    }

    /// Measures `buffers`. There is a request exactly when the engine can be
    /// told of how many buffers there are and of the length of each.
    fn new(buffers: Vec<&'a [u8]>) -> (request: Option<Request<'a>>)
        ensures
            request is Some <==> fits(contents(buffers@)),
            request matches Some(measured) ==> measured@ == contents(buffers@),
    {
        if to_wire_length(buffers.len()).is_none() {
            return None;
        }
        let mut lengths: Vec<c_uint> = Vec::new();
        let mut i: usize = 0;
        while i < buffers.len()
            invariant
                i <= buffers.len(),
                buffers.len() <= u32::MAX,
                lengths@.len() == i,
                forall|j: int|
                    0 <= j < i ==> (#[trigger] buffers@[j])@.len() <= u32::MAX && lengths@[j]
                        == buffers@[j]@.len(),
            decreases buffers.len() - i,
        {
            match to_wire_length(buffers[i].len()) {
                Some(length) => {
                    lengths.push(length);
                },
                None => {
                    assert(contents(buffers@)[i as int].len() > u32::MAX);
                    return None;
                },
            }
            i += 1;
        }
        assert(lengths@ =~= lengths_of(contents(buffers@)));
        assert(fits(contents(buffers@))) by {
            assert forall|j: int| 0 <= j < contents(buffers@).len() implies (
            #[trigger] contents(buffers@)[j]).len() <= u32::MAX by {
                assert(buffers@[j]@.len() <= u32::MAX);
            }
        }
        Some(Request { buffers, lengths })
    }

    /// The buffers, in order.
    fn buffers(&self) -> (buffers: &[&'a [u8]])
        ensures
            contents(buffers@) == self@,
            fits(self@),
    {
        proof {
            use_type_invariant(self);
        }
        self.buffers.as_slice()
    }

    /// The length of each buffer, in the order of the buffers.
    fn lengths(&self) -> (lengths: &[c_uint])
        ensures
            lengths@ == lengths_of(self@),
            fits(self@),
    {
        proof {
            use_type_invariant(self);
        }
        self.lengths.as_slice()
    }
}

/// What a [`ScanCall`] or an error is in the model.
pub open spec fn call_view<'a, F>(result: Result<ScanCall<'a, F>, Error>) -> Result<
    CallModel,
    Error,
> {
    match result {
        Ok(call) => Ok(call@),
        Err(error) => Err(error),
    }
}

/// A scan in flight.
///
/// A scanner returns this value when it has prepared the call. It names all
/// that goes to the engine: the [`buffers`](ScanCall::buffers), their
/// [`lengths`](ScanCall::lengths) and [`count`](ScanCall::count), and the
/// [`flags`](ScanCall::flags). The embedding program hands these to the
/// engine, passes each match that the engine reports through
/// [`on_match`](ScanCall::on_match), and ends the call with
/// [`finish`](ScanCall::finish). For as long as the value lives it holds the
/// caller's callback, the shared borrow of the buffers and the exclusive
/// borrow of the scratch space that the scanner was given.
pub struct ScanCall<'a, F> {
    operation: Operation,
    request: Request<'a>,
    callback: Option<F>,
    halted: bool,
    delivered: Ghost<Seq<Delivery>>,
    hold: PhantomData<&'a mut ScratchRef>,
}

impl<'a, F> View for ScanCall<'a, F> {
    type V = CallModel;

    closed spec fn view(&self) -> CallModel {
        CallModel {
            operation: self.operation,
            buffers: self.request@,
            muted: self.callback is None,
            halted: self.halted,
            delivered: self.delivered@,
        }
    }
}

impl<'a, F> ScanCall<'a, F> {
    /// The callback that the call was made with, if any.
    pub closed spec fn callback(&self) -> Option<F> {
        self.callback
    }

    /// Begins a call of `operation` on `buffers`, holding `scratch` until the
    /// call ends. Buffers that the engine cannot be told of are refused with
    /// `InvalidArgument`.
    pub(crate) fn begin(
        operation: Operation,
        buffers: Vec<&'a [u8]>,
        callback: Option<F>,
        scratch: &'a mut ScratchRef,
    ) -> (result: Result<ScanCall<'a, F>, Error>)
        ensures
            call_view(result) == call_result(operation, contents(buffers@), callback is None),
            result matches Ok(call) ==> call.callback() == callback,
            *final(scratch) == *old(scratch),
    {
        match Request::new(buffers) {
            Some(request) => Ok(
                ScanCall {
                    operation,
                    request,
                    callback,
                    halted: false,
                    delivered: Ghost(Seq::empty()),
                    hold: PhantomData,
                },
            ),
            None => Err(Error { kind: ErrorKind::InvalidArgument, operation, code: None }),
        }
    }

    /// The operation that the call belongs to.
    pub fn operation(&self) -> (operation: Operation)
        ensures
            operation == self@.operation,
    {
        self.operation
    }

    /// The buffers that go to the engine, in order: the one buffer of a block
    /// scan or of a chunk, the buffers of a vectored scan, none for the
    /// closing of a session.
    pub fn buffers(&self) -> (buffers: &[&'a [u8]])
        ensures
            contents(buffers@) == self@.buffers,
            fits(self@.buffers),
    {
        self.request.buffers()
    }

    /// The length of each buffer, in the order of the buffers, as the engine
    /// takes them.
    pub fn lengths(&self) -> (lengths: &[c_uint])
        ensures
            lengths@ == self@.lengths(),
    {
        self.request.lengths()
    }

    /// The length of the one buffer of a block scan or of a chunk; zero for a
    /// call without a buffer.
    pub fn length(&self) -> (length: c_uint)
        ensures
            length == (if self@.buffers.len() > 0 {
                self@.buffers[0].len()
            } else {
                0
            }),
    {
        let lengths = self.request.lengths();
        if lengths.len() > 0 {
            lengths[0]
        } else {
            0
        }
    }

    /// The number of buffers.
    pub fn count(&self) -> (count: c_uint)
        ensures
            count == self@.buffers.len(),
    {
        self.request.lengths().len() as c_uint
    }

    /// The flags word handed to the engine. It is reserved and always zero.
    pub fn flags(&self) -> (flags: c_uint)
        ensures
            flags == 0,
    {
        0
    }

    /// Whether the engine is to be given a callback at all.
    pub fn wants_matches(&self) -> (wanted: bool)
        ensures
            wanted == !self@.muted,
    {
        self.callback.is_some()
    }

    /// Whether the callback has asked for the scan to stop.
    pub fn is_halted(&self) -> (halted: bool)
        ensures
            halted == self@.halted,
    {
        self.halted
    }

    /// Ends the call with the status code that the engine returned.
    pub fn finish(self, status: HsError) -> (result: Result<ScanOutcome, Error>)
        ensures
            result == self@.finish(status),
    {
        ScanOutcome::from_status(self.operation, status, self.halted)
    }
}

impl<'a, F> ScanCall<'a, F> where F: FnMut(u32, u64, u64, u32) -> Matching {
    /// Takes one match from the engine and returns the integer that the
    /// engine expects back: zero to go on, non-zero to stop.
    ///
    /// While the call is listening, the match goes to the callback with its
    /// four values unchanged, and the callback's answer decides. Once the
    /// callback has answered `Terminate`, no later match of this call reaches
    /// it.
    pub fn on_match(&mut self, id: u32, from: u64, to: u64, flags: u32) -> (code: c_int)
        requires
            old(self)@.listening() ==> call_requires(
                old(self).callback().unwrap(),
                (id, from, to, flags),
            ),
        ensures
            (final(self)@, code) == old(self)@.on_match(
                MatchEvent { id, from, to, flags },
                final(self)@.last_decision(),
            ),
            old(self)@.listening() ==> call_ensures(
                old(self).callback().unwrap(),
                (id, from, to, flags),
                final(self)@.last_decision(),
            ),
            final(self).callback() == old(self).callback(),
    {
        if self.halted {
            return Matching::Terminate.code();
        }
        match &mut self.callback {
            None => Matching::Continue.code(),
            Some(on_match_event) => {
                let decision = on_match_event(id, from, to, flags);
                let ghost event = MatchEvent { id, from, to, flags };
                self.delivered = Ghost(self.delivered@.push(Delivery { event, decision }));
                match decision {
                    Matching::Continue => {},
                    Matching::Terminate => {
                        self.halted = true;
                    },
                }
                decision.code()
            },
        }
    }
}

} // verus!
