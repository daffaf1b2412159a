//! The packet stream: what the consumer pulls from.
//!
//! Building a stream over a live session first configures and activates that
//! session, in a fixed order. After that the stream is a machine of three
//! states. A demand in `Idle` starts a dispatch cycle, the outcome of a cycle
//! either goes to the consumer as a batch or ends the stream, and in `Ended`
//! every demand is answered with the end of the sequence.

use crate::config::{Config, ConfigView};
use crate::errors::Error;
use crate::packet::Packet;
use crate::packet_future::{resolve, FuturePoll, PacketFuture, PacketFutureView};
use crate::packet_iterator::{ItemView, PacketIterator, PacketIteratorItem, PacketIteratorView};
use vstd::prelude::*;

verus! {

/// One call that configures the session of a live capture.
#[derive(Clone, Debug, PartialEq, Eq)]
pub enum SessionCommand {
    /// Capture at most this many bytes of each packet.
    SetSnapshotLength(u32),
    /// Make native calls return at once when nothing is ready.
    SetNonBlocking,
    /// Capture every packet that the interface sees.
    SetPromiscuous,
    /// Let a native read wait at most this many milliseconds.
    SetTimeout(u64),
    /// Size the capture buffer of the session, in bytes.
    SetBufferSize(u32),
    /// Start capturing.
    Activate,
    /// Compile this filter expression for the session.
    CompileFilter(String),
    /// Bind the filter that was compiled last to the session.
    ApplyFilter,
}

impl SessionCommand {
    /// The failure that construction reports when this command is refused
    /// with `diagnostic`.
    pub open spec fn failure_spec(self, diagnostic: String) -> Error {
        match self {
            SessionCommand::CompileFilter(filter) => Error::FilterCompile { filter, msg: diagnostic },
            SessionCommand::ApplyFilter => Error::FilterApply { msg: diagnostic },
            _ => Error::SessionConfig { msg: diagnostic },
        }
    }

    /// The failure that construction reports when this command is refused
    /// with `diagnostic`.
    pub fn failure(&self, diagnostic: String) -> (e: Error)
        ensures
            e == self.failure_spec(diagnostic),
    {
        match self {
            SessionCommand::CompileFilter(filter) => Error::FilterCompile {
                filter: filter.clone(),
                msg: diagnostic,
            },
            SessionCommand::ApplyFilter => Error::FilterApply { msg: diagnostic },
            _ => Error::SessionConfig { msg: diagnostic },
        }
    }
}

/// The commands that ready a session for `config`, in the order in which they
/// are given. The replay of a file needs none. A live capture is given its
/// snapshot length, made non-blocking and promiscuous, given its timeout and
/// its buffer size, and activated; a filter, if there is one, is compiled and
/// applied after that.
pub open spec fn activation_plan_spec(config: ConfigView, live_capture: bool) -> Seq<SessionCommand> {
    if !live_capture {
        Seq::empty()
    } else {
        let settings = seq![
            SessionCommand::SetSnapshotLength(config.snaplen),
            SessionCommand::SetNonBlocking,
            SessionCommand::SetPromiscuous,
            SessionCommand::SetTimeout(config.timeout),
            SessionCommand::SetBufferSize(config.buffer_size),
            SessionCommand::Activate,
        ];
        match config.bpf {
            Some(filter) => settings + seq![
                SessionCommand::CompileFilter(filter),
                SessionCommand::ApplyFilter,
            ],
            None => settings,
        }
    }
}

/// The commands that ready a session for `config`, in order.
pub fn activation_plan(config: &Config, live_capture: bool) -> (plan: Vec<SessionCommand>)
    ensures
        plan@ == activation_plan_spec(config@, live_capture),
{
    let mut plan: Vec<SessionCommand> = Vec::new();
    if live_capture {
        plan.push(SessionCommand::SetSnapshotLength(config.snaplen()));
        plan.push(SessionCommand::SetNonBlocking);
        plan.push(SessionCommand::SetPromiscuous);
        plan.push(SessionCommand::SetTimeout(config.timeout()));
        plan.push(SessionCommand::SetBufferSize(config.buffer_size()));
        plan.push(SessionCommand::Activate);
        match config.bpf() {
            Some(filter) => {
                plan.push(SessionCommand::CompileFilter(filter.clone()));
                plan.push(SessionCommand::ApplyFilter);
            },
            None => {},
        }
    }
    assert(plan@ =~= activation_plan_spec(config@, live_capture));
    plan
}

/// The failure of an activation, looked for from command `from` on: that of
/// the first command whose reply is a refusal. Commands beyond the first
/// refusal were never given, so what stands behind it does not count.
pub open spec fn activation_failure_from(
    plan: Seq<SessionCommand>,
    replies: Seq<Result<(), String>>,
    from: int,
) -> Option<Error>
    decreases plan.len() - from,
{
    if from < 0 || from >= plan.len() || from >= replies.len() {
        None
    } else {
        match replies[from] {
            Err(diagnostic) => Some(plan[from].failure_spec(diagnostic)),
            Ok(_) => activation_failure_from(plan, replies, from + 1),
        }
    }
}

/// The failure of an activation whose commands were answered by `replies`.
pub open spec fn activation_failure(plan: Seq<SessionCommand>, replies: Seq<Result<(), String>>) -> Option<
    Error,
> {
    activation_failure_from(plan, replies, 0)
}

/// The replies answer the plan: every command has its reply, or one of them
/// was refused.
pub open spec fn replies_answer(plan: Seq<SessionCommand>, replies: Seq<Result<(), String>>) -> bool {
    replies.len() >= plan.len() || activation_failure(plan, replies) is Some
}

/// Whether `replies` answer the activation of a session for `config`: every
/// command of the plan has its reply, or one of them was refused.
pub fn activation_answered(config: &Config, live_capture: bool, replies: &Vec<Result<(), String>>) -> (b:
    bool)
    ensures
        b == replies_answer(activation_plan_spec(config@, live_capture), replies@),
{
    let plan = activation_plan(config, live_capture);
    let mut i: usize = 0;
    while i < plan.len() && i < replies.len()
        invariant
            plan@ == activation_plan_spec(config@, live_capture),
            i <= plan.len(),
            i <= replies.len(),
            activation_failure(plan@, replies@) == activation_failure_from(
                plan@,
                replies@,
                i as int,
            ),
        decreases plan.len() - i,
    {
        if replies[i].is_err() {
            return true;
        }
        i += 1;
    }
    replies.len() >= plan.len()
}

/// The first refusal decides. Where the reply to command `at` is a refusal
/// and every command before it was accepted, the failure is that of command
/// `at` with the diagnostic of the refusal.
pub proof fn lemma_first_refusal_decides(
    plan: Seq<SessionCommand>,
    replies: Seq<Result<(), String>>,
    at: int,
)
    requires
        0 <= at < plan.len(),
        at < replies.len(),
        replies[at] is Err,
        forall|i: int| 0 <= i < at ==> replies[i] is Ok,
    ensures
        activation_failure(plan, replies) == Some(plan[at].failure_spec(replies[at]->Err_0)),
{
    lemma_refusal_from(plan, replies, at, 0);
}

proof fn lemma_refusal_from(
    plan: Seq<SessionCommand>,
    replies: Seq<Result<(), String>>,
    at: int,
    from: int,
)
    requires
        0 <= from <= at < plan.len(),
        at < replies.len(),
        replies[at] is Err,
        forall|i: int| from <= i < at ==> replies[i] is Ok,
    ensures
        activation_failure_from(plan, replies, from) == Some(
            plan[at].failure_spec(replies[at]->Err_0),
        ),
    decreases at - from,
{
    if from < at {
        lemma_refusal_from(plan, replies, at, from + 1);
    }
}

/// An activation fails with a failure of construction, never with one that
/// belongs to a running stream.
pub proof fn lemma_activation_fails_at_construction(
    plan: Seq<SessionCommand>,
    replies: Seq<Result<(), String>>,
)
    ensures
        activation_failure(plan, replies) matches Some(e) ==> e.spec_is_construction_failure(),
{
    lemma_construction_failure_from(plan, replies, 0);
}

proof fn lemma_construction_failure_from(
    plan: Seq<SessionCommand>,
    replies: Seq<Result<(), String>>,
    from: int,
)
    ensures
        activation_failure_from(plan, replies, from) matches Some(e)
            ==> e.spec_is_construction_failure(),
    decreases plan.len() - from,
{
    if 0 <= from < plan.len() && from < replies.len() && replies[from] is Ok {
        lemma_construction_failure_from(plan, replies, from + 1);
    }
}

/// An activation fails only if a command was refused: where every reply to
/// a command of the plan is an acceptance, there is no failure.
pub proof fn lemma_no_refusal_no_failure(plan: Seq<SessionCommand>, replies: Seq<Result<(), String>>)
    requires
        forall|i: int| 0 <= i < plan.len() && i < replies.len() ==> replies[i] is Ok,
    ensures
        activation_failure(plan, replies) is None,
{
    lemma_acceptance_from(plan, replies, 0);
}

proof fn lemma_acceptance_from(
    plan: Seq<SessionCommand>,
    replies: Seq<Result<(), String>>,
    from: int,
)
    requires
        0 <= from,
        forall|i: int| from <= i < plan.len() && i < replies.len() ==> replies[i] is Ok,
    ensures
        activation_failure_from(plan, replies, from) is None,
    decreases plan.len() - from,
{
    if from < plan.len() && from < replies.len() {
        lemma_acceptance_from(plan, replies, from + 1);
    }
}

/// A filter that does not compile fails the construction of a stream over a
/// live capture: with the settings and the activation accepted and the
/// compilation refused, the failure names the filter and carries the
/// diagnostic of the refusal, whatever reply should stand behind it. No
/// stream comes to be, so no packet is ever produced. The session has been
/// activated by then, since a filter is compiled for an active session.
pub proof fn lemma_invalid_filter_fails_construction(
    config: ConfigView,
    filter: String,
    replies: Seq<Result<(), String>>,
)
    requires
        config.bpf == Some(filter),
        replies.len() > 6,
        forall|i: int| 0 <= i < 6 ==> replies[i] is Ok,
        replies[6] is Err,
    ensures
        activation_plan_spec(config, true)[5] == SessionCommand::Activate,
        activation_plan_spec(config, true)[6] == SessionCommand::CompileFilter(filter),
        activation_failure(activation_plan_spec(config, true), replies) == Some(
            Error::FilterCompile { filter, msg: replies[6]->Err_0 },
        ),
        replies_answer(activation_plan_spec(config, true), replies),
{
    lemma_first_refusal_decides(activation_plan_spec(config, true), replies, 6);
}

/// Where a stream stands.
pub enum StreamStateView {
    /// No dispatch cycle is wanted yet.
    Idle,
    /// The consumer waits for a batch; `outstanding` says whether a dispatch
    /// cycle is in flight for it.
    Awaiting { outstanding: bool },
    /// The sequence has ended.
    Ended,
}

/// State of a [`PacketStream`].
pub struct StreamView {
    pub config: ConfigView,
    pub live_capture: bool,
    pub state: StreamStateView,
}

/// What the caller does after a demand.
#[derive(Debug)]
pub enum Demand {
    /// Run this engine for one dispatch cycle on the background lane, then
    /// wait for it.
    Schedule(PacketIterator),
    /// A cycle is in flight: wait for it.
    Check,
    /// Tell the consumer that the sequence has ended.
    End,
}

/// A [`Demand`] over the state of its engine.
pub enum DemandView {
    Schedule(PacketIteratorView),
    Check,
    End,
}

impl View for Demand {
    type V = DemandView;

    open spec fn view(&self) -> DemandView {
        match *self {
            Demand::Schedule(engine) => DemandView::Schedule(engine@),
            Demand::Check => DemandView::Check,
            Demand::End => DemandView::End,
        }
    }
}

/// What the consumer is told once a dispatch cycle has finished.
#[derive(Debug, PartialEq, Eq)]
pub enum StreamPoll {
    /// Nothing yet: demand again.
    Pending,
    /// The next item of the sequence, or `None` at its end.
    Ready(Option<Result<Vec<Packet>, Error>>),
}

/// A [`StreamPoll`] with its batch as a sequence.
pub enum StreamPollView {
    Pending,
    Ready(Option<Result<Seq<Packet>, Error>>),
}

impl View for StreamPoll {
    type V = StreamPollView;

    open spec fn view(&self) -> StreamPollView {
        match *self {
            StreamPoll::Pending => StreamPollView::Pending,
            StreamPoll::Ready(None) => StreamPollView::Ready(None),
            StreamPoll::Ready(Some(Err(e))) => StreamPollView::Ready(Some(Err(e))),
            StreamPoll::Ready(Some(Ok(batch))) => StreamPollView::Ready(Some(Ok(batch@))),
        }
    }
}

impl StreamView {
    /// A stream that has not been pulled from.
    pub open spec fn idle(config: ConfigView, live_capture: bool) -> StreamView {
        StreamView { config, live_capture, state: StreamStateView::Idle }
    }

    /// The stream in another state.
    pub open spec fn at(self, state: StreamStateView) -> StreamView {
        StreamView { state, ..self }
    }

    /// The engine that a newly scheduled cycle runs.
    pub open spec fn engine(self) -> PacketIteratorView {
        PacketIteratorView::fresh(self.config.max_packets_read, self.live_capture)
    }

    /// Whether a dispatch cycle is in flight.
    pub open spec fn outstanding(self) -> bool {
        self.state matches StreamStateView::Awaiting { outstanding } && outstanding
    }

    /// A demand for the next item. A cycle is scheduled only when none is in
    /// flight, and never once the sequence has ended.
    pub open spec fn demand(self) -> (StreamView, DemandView) {
        match self.state {
            StreamStateView::Ended => (self, DemandView::End),
            StreamStateView::Awaiting { outstanding: true } => (self, DemandView::Check),
            _ => (
                self.at(StreamStateView::Awaiting { outstanding: true }),
                DemandView::Schedule(self.engine()),
            ),
        }
    }

    /// The outcome of a finished cycle reaches a stream that awaits it. A
    /// batch goes to the consumer and the stream is idle again. The end of
    /// the session ends the sequence, and so does a failure, which is
    /// handed on first. A cycle without packets leaves the consumer waiting.
    ///
    /// An outcome that nothing was waiting for changes nothing: an idle
    /// stream stays pending, an ended one repeats the end.
    pub open spec fn complete(self, item: ItemView) -> (StreamView, StreamPollView) {
        match self.state {
            StreamStateView::Idle => (self, StreamPollView::Pending),
            StreamStateView::Ended => (self, StreamPollView::Ready(None)),
            StreamStateView::Awaiting { .. } => match resolve(item) {
                None => (
                    self.at(StreamStateView::Awaiting { outstanding: false }),
                    StreamPollView::Pending,
                ),
                Some(Ok(Some(batch))) => (
                    self.at(StreamStateView::Idle),
                    StreamPollView::Ready(Some(Ok(batch))),
                ),
                Some(Ok(None)) => (self.at(StreamStateView::Ended), StreamPollView::Ready(None)),
                Some(Err(e)) => (
                    self.at(StreamStateView::Ended),
                    StreamPollView::Ready(Some(Err(e))),
                ),
            },
        }
    }
}

/// One dispatch cycle at a time. A demand schedules a cycle exactly when the
/// sequence has not ended and no cycle is in flight, and after it one is in
/// flight unless the sequence has ended. Until the outcome of that cycle is
/// taken, no demand schedules another.
pub proof fn lemma_one_cycle_at_a_time(stream: StreamView, item: ItemView)
    ensures
        stream.demand().1 is Schedule <==> !(stream.state is Ended) && !stream.outstanding(),
        stream.demand().0.outstanding() <==> !(stream.state is Ended),
        stream.outstanding() ==> stream.demand() == (stream, DemandView::Check),
        !stream.complete(item).0.outstanding(),
{
}

#[derive(Debug)]
enum StreamState {
    Idle,
    Awaiting(PacketFuture),
    Ended,
}

/// A stream of packet batches over one capture session.
#[derive(Debug)]
pub struct PacketStream {
    config: Config,
    live_capture: bool,
    state: StreamState,
}

impl View for PacketStream {
    type V = StreamView;

    closed spec fn view(&self) -> StreamView {
        StreamView {
            config: self.config@,
            live_capture: self.live_capture,
            state: match self.state {
                StreamState::Idle => StreamStateView::Idle,
                StreamState::Awaiting(pending) => StreamStateView::Awaiting {
                    outstanding: pending@.outstanding,
                },
                StreamState::Ended => StreamStateView::Ended,
            },
        }
    }
}

impl PacketStream {
    #[verifier::type_invariant]
    spec fn inv(self) -> bool {
        self.state matches StreamState::Awaiting(pending) ==> {
            &&& pending@.max_packets_read == self.config@.max_packets_read
            &&& pending@.live_capture == self.live_capture
        }
    }

    /// Builds the stream of a session whose activation was answered by
    /// `replies`, one reply for each command of
    /// [`activation_plan`]`(&config, live_capture)` up to the first refusal, a
    /// refusal being the diagnostic of the capture engine.
    ///
    /// The stream is built, idle, when no command was refused. Otherwise the
    /// failure of the first refused command comes back, and no stream.
    pub fn new(config: Config, live_capture: bool, replies: Vec<Result<(), String>>) -> (r: Result<
        PacketStream,
        Error,
    >)
        requires
            replies_answer(activation_plan_spec(config@, live_capture), replies@),
        ensures
            match activation_failure(activation_plan_spec(config@, live_capture), replies@) {
                Some(e) => r == Err::<PacketStream, Error>(e),
                None => r is Ok && r->Ok_0@ == StreamView::idle(config@, live_capture),
            },
            r matches Err(e) ==> e.spec_is_construction_failure(),
    {
        proof {
            lemma_activation_fails_at_construction(
                activation_plan_spec(config@, live_capture),
                replies@,
            );
        }
        let plan = activation_plan(&config, live_capture);
        let mut i: usize = 0;
        while i < plan.len() && i < replies.len()
            invariant
                plan@ == activation_plan_spec(config@, live_capture),
                i <= plan.len(),
                i <= replies.len(),
                activation_failure(plan@, replies@) == activation_failure_from(
                    plan@,
                    replies@,
                    i as int,
                ),
            decreases plan.len() - i,
        {
            match &replies[i] {
                Err(diagnostic) => {
                    return Err(plan[i].failure(diagnostic.clone()));
                },
                Ok(_) => {},
            }
            i += 1;
        }
        Ok(PacketStream::idle(config, live_capture))
    }

    /// The stream of a session that is ready to be read from.
    pub(crate) fn idle(config: Config, live_capture: bool) -> (stream: PacketStream)
        ensures
            stream@ == StreamView::idle(config@, live_capture),
    {
        PacketStream { config, live_capture, state: StreamState::Idle }
    }

    /// The configuration that the stream was built with.
    pub fn config(&self) -> (c: &Config)
        ensures
            c@ == self@.config,
    {
        &self.config
    }

    /// Whether the session is a live capture.
    pub fn is_live_capture(&self) -> (b: bool)
        ensures
            b == self@.live_capture,
    {
        self.live_capture
    }

    /// Whether the sequence has ended.
    pub fn is_ended(&self) -> (b: bool)
        ensures
            b == (self@.state is Ended),
    {
        match self.state {
            StreamState::Ended => true,
            _ => false,
        }
    }

    /// Whether a dispatch cycle is in flight.
    pub fn is_outstanding(&self) -> (b: bool)
        ensures
            b == self@.outstanding(),
    {
        match &self.state {
            StreamState::Awaiting(pending) => pending.is_outstanding(),
            _ => false,
        }
    }

    /// The consumer asks for the next item.
    pub fn demand(&mut self) -> (r: Demand)
        ensures
            final(self)@ == old(self)@.demand().0,
            r@ == old(self)@.demand().1,
    {
        proof {
            use_type_invariant(&*self);
        }
        let mut state = StreamState::Ended;
        core::mem::swap(&mut self.state, &mut state);
        match state {
            StreamState::Ended => Demand::End,
            StreamState::Idle => {
                let mut pending = PacketFuture::new(&self.config, self.live_capture);
                let poll = pending.poll();
                self.state = StreamState::Awaiting(pending);
                match poll {
                    FuturePoll::Schedule(engine) => Demand::Schedule(engine),
                    FuturePoll::Check => Demand::Check,
                }
            },
            StreamState::Awaiting(mut pending) => {
                let poll = pending.poll();
                self.state = StreamState::Awaiting(pending);
                match poll {
                    FuturePoll::Schedule(engine) => Demand::Schedule(engine),
                    FuturePoll::Check => Demand::Check,
                }
            },
        }
    }

    /// A dispatch cycle has finished with `item`. What goes to the consumer
    /// is never an empty batch.
    pub fn complete(&mut self, item: PacketIteratorItem) -> (r: StreamPoll)
        ensures
            final(self)@ == old(self)@.complete(item@).0,
            r@ == old(self)@.complete(item@).1,
            r matches StreamPoll::Ready(Some(Ok(batch))) ==> batch@.len() >= 1,
    {
        proof {
            use_type_invariant(&*self);
        }
        let mut state = StreamState::Ended;
        core::mem::swap(&mut self.state, &mut state);
        match state {
            StreamState::Ended => StreamPoll::Ready(None),
            StreamState::Idle => {
                self.state = StreamState::Idle;
                StreamPoll::Pending
            },
            StreamState::Awaiting(mut pending) => {
                match pending.complete(item) {
                    None => {
                        self.state = StreamState::Awaiting(pending);
                        StreamPoll::Pending
                    },
                    Some(Ok(Some(batch))) => {
                        self.state = StreamState::Idle;
                        StreamPoll::Ready(Some(Ok(batch)))
                    },
                    Some(Ok(None)) => StreamPoll::Ready(None),
                    Some(Err(e)) => StreamPoll::Ready(Some(Err(e))),
                }
            },
        }
    }
}

} // verus!
