//! The agent's capture loop as a state machine.
//!
//! The agent launches the log source, connects to the collector and relays
//! every line the source produces. Whatever fails, it waits a fixed delay
//! and begins again from the launch, with a new source and a new
//! connection; it keeps no line from one attempt to the next.
//!
//! The machine decides; its caller acts. Each [`AgentAction`] names one
//! blocking operation, and the caller reports how it ended as the next
//! [`AgentEvent`].

use vstd::prelude::*;
use vstd::string::*;
use vstd::utf8::*;
use crate::line::{
    encoded, frame_line, framed, lemma_wire_encoding_concat, lemma_wire_encoding_single,
    wire_encoding,
};

verus! {

/// The delay between a failure and the next attempt, in seconds.
pub const RETRY_DELAY_SECS: u64 = 5;

/// Where the capture loop stands.
#[derive(Clone, Copy, Debug, PartialEq, Eq, Structural)]
pub enum AgentState {
    /// Not started yet.
    Idle,
    /// The log source is being launched.
    SpawningSource,
    /// The source runs; the connection to the collector is being opened.
    Connecting,
    /// Lines flow from the source to the collector.
    Streaming,
    /// The attempt failed; the retry delay is running.
    Failed,
    /// A stop was requested. Nothing leads out of this state.
    Stopped,
}

/// What the caller reports to the machine.
#[derive(Clone, Debug, PartialEq, Eq)]
pub enum AgentEvent {
    /// The agent process has started.
    Start,
    /// The log source was launched and its output can be read.
    SourceSpawned,
    /// The log source could not be launched.
    SpawnFailed,
    /// The connection to the collector is open.
    Connected,
    /// The connection could not be opened.
    ConnectFailed,
    /// The source produced this line.
    LineRead(String),
    /// Reading from the source failed.
    ReadFailed,
    /// The source closed its output.
    SourceEnded,
    /// The bytes of the last `Send` are written.
    Sent,
    /// Writing to the connection failed.
    WriteFailed,
    /// The retry delay is over.
    DelayElapsed,
    /// The agent is asked to stop.
    StopRequested,
}

/// An event by its mathematical content.
pub enum AgentEventView {
    Start,
    SourceSpawned,
    SpawnFailed,
    Connected,
    ConnectFailed,
    LineRead(Seq<char>),
    ReadFailed,
    SourceEnded,
    Sent,
    WriteFailed,
    DelayElapsed,
    StopRequested,
}

impl View for AgentEvent {
    type V = AgentEventView;

    open spec fn view(&self) -> AgentEventView {
        match self {
            AgentEvent::Start => AgentEventView::Start,
            AgentEvent::SourceSpawned => AgentEventView::SourceSpawned,
            AgentEvent::SpawnFailed => AgentEventView::SpawnFailed,
            AgentEvent::Connected => AgentEventView::Connected,
            AgentEvent::ConnectFailed => AgentEventView::ConnectFailed,
            AgentEvent::LineRead(text) => AgentEventView::LineRead(text@),
            AgentEvent::ReadFailed => AgentEventView::ReadFailed,
            AgentEvent::SourceEnded => AgentEventView::SourceEnded,
            AgentEvent::Sent => AgentEventView::Sent,
            AgentEvent::WriteFailed => AgentEventView::WriteFailed,
            AgentEvent::DelayElapsed => AgentEventView::DelayElapsed,
            AgentEvent::StopRequested => AgentEventView::StopRequested,
        }
    }
}

/// What the machine asks its caller to do next.
#[derive(Clone, Debug, PartialEq, Eq)]
pub enum AgentAction {
    /// Launch the log source with its output piped.
    SpawnSource,
    /// Open a new connection to `address`.
    Connect { address: String },
    /// Read the next line from the source.
    ReadLine,
    /// Write `bytes` to the connection, all of them.
    Send { bytes: Vec<u8> },
    /// Give up the source and the connection, and wait `secs` seconds.
    Sleep { secs: u64 },
    /// Give up the source and the connection, and return.
    Halt,
}

/// An action by its mathematical content.
pub enum AgentActionView {
    SpawnSource,
    Connect { address: Seq<char> },
    ReadLine,
    Send { bytes: Seq<u8> },
    Sleep { secs: u64 },
    Halt,
}

impl View for AgentAction {
    type V = AgentActionView;

    open spec fn view(&self) -> AgentActionView {
        match self {
            AgentAction::SpawnSource => AgentActionView::SpawnSource,
            AgentAction::Connect { address } => AgentActionView::Connect { address: address@ },
            AgentAction::ReadLine => AgentActionView::ReadLine,
            AgentAction::Send { bytes } => AgentActionView::Send { bytes: bytes@ },
            AgentAction::Sleep { secs } => AgentActionView::Sleep { secs: *secs },
            AgentAction::Halt => AgentActionView::Halt,
        }
    }
}

/// The view of an action that may be absent.
pub open spec fn action_view(action: Option<AgentAction>) -> Option<AgentActionView> {
    match action {
        Some(action) => Some(action@),
        None => None,
    }
}

/// The agent by its mathematical content.
pub struct AgentView {
    /// The address of the collector.
    pub collector: Seq<char>,
    /// The delay after a failure, in seconds.
    pub retry_delay_secs: u64,
    /// Where the capture loop stands.
    pub state: AgentState,
}

/// An event that ends the running attempt in `state` by failure.
pub open spec fn is_failure(state: AgentState, event: AgentEventView) -> bool {
    match state {
        AgentState::SpawningSource => event is SpawnFailed,
        AgentState::Connecting => event is ConnectFailed,
        AgentState::Streaming => event is ReadFailed || event is SourceEnded
            || event is WriteFailed,
        _ => false,
    }
}

/// The state that follows `agent.state` on `event`.
///
/// An event that the state does not wait for changes nothing.
pub open spec fn next_state(agent: AgentView, event: AgentEventView) -> AgentState {
    let state = agent.state;
    if state is Stopped {
        state
    } else if event is StopRequested {
        AgentState::Stopped
    } else if is_failure(state, event) {
        AgentState::Failed
    } else if state is Idle && event is Start {
        AgentState::SpawningSource
    } else if state is SpawningSource && event is SourceSpawned {
        AgentState::Connecting
    } else if state is Connecting && event is Connected {
        AgentState::Streaming
    } else if state is Failed && event is DelayElapsed {
        AgentState::SpawningSource
    } else {
        state
    }
}

/// What the agent asks for on `event`; nothing where the state does not
/// wait for that event.
pub open spec fn next_action(agent: AgentView, event: AgentEventView) -> Option<AgentActionView> {
    let state = agent.state;
    if state is Stopped {
        None
    } else if event is StopRequested {
        Some(AgentActionView::Halt)
    } else if is_failure(state, event) {
        Some(AgentActionView::Sleep { secs: agent.retry_delay_secs })
    } else if state is Idle && event is Start {
        Some(AgentActionView::SpawnSource)
    } else if state is SpawningSource && event is SourceSpawned {
        Some(AgentActionView::Connect { address: agent.collector })
    } else if state is Connecting && event is Connected {
        Some(AgentActionView::ReadLine)
    } else if state is Streaming && event is Sent {
        Some(AgentActionView::ReadLine)
    } else if state is Failed && event is DelayElapsed {
        Some(AgentActionView::SpawnSource)
    } else if state is Streaming {
        match event {
            AgentEventView::LineRead(text) => Some(
                AgentActionView::Send { bytes: framed(encode_utf8(text)) },
            ),
            _ => None,
        }
    } else {
        None
    }
}

/// The agent after `event`.
pub open spec fn after_event(agent: AgentView, event: AgentEventView) -> AgentView {
    AgentView { state: next_state(agent, event), ..agent }
}

/// The capture loop of one agent.
pub struct Agent {
    collector: String,
    retry_delay_secs: u64,
    state: AgentState,
}

impl View for Agent {
    type V = AgentView;

    closed spec fn view(&self) -> AgentView {
        AgentView {
            collector: self.collector@,
            retry_delay_secs: self.retry_delay_secs,
            state: self.state,
        }
    }
}

impl Agent {
    /// An agent for the collector at `collector`, not started yet.
    pub fn new(collector: String, retry_delay_secs: u64) -> (agent: Agent)
        ensures
            agent@ == (AgentView {
                collector: collector@,
                retry_delay_secs,
                state: AgentState::Idle,
            }),
    {
        Agent { collector, retry_delay_secs, state: AgentState::Idle }
    }

    /// Where the capture loop stands.
    pub fn state(&self) -> (state: AgentState)
        ensures
            state == self@.state,
    {
        self.state
    }

    /// The address of the collector.
    pub fn collector(&self) -> (address: &str)
        ensures
            address@ == self@.collector,
    {
        self.collector.as_str()
    }

    /// The delay after a failure, in seconds.
    pub fn retry_delay_secs(&self) -> (secs: u64)
        ensures
            secs == self@.retry_delay_secs,
    {
        self.retry_delay_secs
    }

    /// Takes in what the caller reports and says what to do next.
    pub fn step(&mut self, event: AgentEvent) -> (action: Option<AgentAction>)
        ensures
            final(self)@ == after_event(old(self)@, event@),
            action_view(action) == next_action(old(self)@, event@),
    {
        match self.state {
            AgentState::Stopped => None,
            AgentState::Idle => match event {
                AgentEvent::StopRequested => self.stop(),
                AgentEvent::Start => {
                    self.state = AgentState::SpawningSource;
                    Some(AgentAction::SpawnSource)
                },
                _ => None,
            },
            AgentState::SpawningSource => match event {
                AgentEvent::StopRequested => self.stop(),
                AgentEvent::SpawnFailed => self.fail(),
                AgentEvent::SourceSpawned => {
                    self.state = AgentState::Connecting;
                    Some(AgentAction::Connect { address: self.collector.clone() })
                },
                _ => None,
            },
            AgentState::Connecting => match event {
                AgentEvent::StopRequested => self.stop(),
                AgentEvent::ConnectFailed => self.fail(),
                AgentEvent::Connected => {
                    self.state = AgentState::Streaming;
                    Some(AgentAction::ReadLine)
                },
                _ => None,
            },
            AgentState::Streaming => match event {
                AgentEvent::StopRequested => self.stop(),
                AgentEvent::ReadFailed => self.fail(),
                AgentEvent::SourceEnded => self.fail(),
                AgentEvent::WriteFailed => self.fail(),
                AgentEvent::Sent => Some(AgentAction::ReadLine),
                AgentEvent::LineRead(text) => Some(
                    AgentAction::Send { bytes: frame_line(text.as_str()) },
                ),
                _ => None,
            },
            AgentState::Failed => match event {
                AgentEvent::StopRequested => self.stop(),
                AgentEvent::DelayElapsed => {
                    self.state = AgentState::SpawningSource;
                    Some(AgentAction::SpawnSource)
                },
                _ => None,
            },
        }
    }

    /// Ends the running attempt and starts the retry delay.
    fn fail(&mut self) -> (action: Option<AgentAction>)
        ensures
            final(self)@ == (AgentView { state: AgentState::Failed, ..old(self)@ }),
            action_view(action) == Some(
                AgentActionView::Sleep { secs: old(self)@.retry_delay_secs },
            ),
    {
        self.state = AgentState::Failed;
        Some(AgentAction::Sleep { secs: self.retry_delay_secs })
    }

    /// Ends the capture loop for good.
    fn stop(&mut self) -> (action: Option<AgentAction>)
        ensures
            final(self)@ == (AgentView { state: AgentState::Stopped, ..old(self)@ }),
            action_view(action) == Some(AgentActionView::Halt),
    {
        self.state = AgentState::Stopped;
        Some(AgentAction::Halt)
    }
}

/// The agent after `events`, taken in order.
pub open spec fn after_events(agent: AgentView, events: Seq<AgentEventView>) -> AgentView
    decreases events.len(),
{
    if events.len() == 0 {
        agent
    } else {
        after_event(after_events(agent, events.drop_last()), events.last())
    }
}

/// What the agent asks for on the event at index `at` of `events`.
pub open spec fn action_at(agent: AgentView, events: Seq<AgentEventView>, at: int) -> Option<
    AgentActionView,
> {
    next_action(after_events(agent, events.take(at)), events[at])
}

/// The bytes that the agent has written to the connection on `event`.
pub open spec fn sent_on(agent: AgentView, event: AgentEventView) -> Seq<u8> {
    match next_action(agent, event) {
        Some(AgentActionView::Send { bytes }) => bytes,
        _ => Seq::empty(),
    }
}

/// All bytes that the agent writes to connections over `events`, in order.
pub open spec fn sent_over(agent: AgentView, events: Seq<AgentEventView>) -> Seq<u8>
    decreases events.len(),
{
    if events.len() == 0 {
        Seq::empty()
    } else {
        sent_over(agent, events.drop_last()) + sent_on(
            after_events(agent, events.drop_last()),
            events.last(),
        )
    }
}

/// The events of relaying `texts` over an open connection: each line read,
/// then written.
pub open spec fn relay_events(texts: Seq<Seq<char>>) -> Seq<AgentEventView> {
    Seq::new(
        2 * texts.len(),
        |i: int|
            if i % 2 == 0 {
                AgentEventView::LineRead(texts[i / 2])
            } else {
                AgentEventView::Sent
            },
    )
}

/// One event alone gives what one step gives.
pub proof fn lemma_single_event(agent: AgentView, event: AgentEventView)
    ensures
        after_events(agent, seq![event]) == after_event(agent, event),
        sent_over(agent, seq![event]) == sent_on(agent, event),
{
    let events = seq![event];
    assert(events.drop_last() == Seq::<AgentEventView>::empty());
    assert(events.last() == event);
    assert(after_events(agent, events.drop_last()) == agent);
    assert(sent_over(agent, events.drop_last()) == Seq::<u8>::empty());
}

/// Events taken in two parts give what they give taken as one.
pub proof fn lemma_events_concat(
    agent: AgentView,
    first: Seq<AgentEventView>,
    second: Seq<AgentEventView>,
)
    ensures
        after_events(agent, first + second) == after_events(after_events(agent, first), second),
        sent_over(agent, first + second) == sent_over(agent, first) + sent_over(
            after_events(agent, first),
            second,
        ),
    decreases second.len(),
{
    if second.len() == 0 {
        assert(first + second == first);
    } else {
        lemma_events_concat(agent, first, second.drop_last());
        assert((first + second).drop_last() == first + second.drop_last());
        assert((first + second).last() == second.last());
    }
}

/// Retry cadence, first half: once an attempt has failed, the agent
/// launches no source and opens no connection until it is told that the
/// delay is over.
///
/// `failed_at` is a step at which the agent began to wait; `attempt_at` is a
/// later step at which it launches the source or connects. Between the
/// two, the delay has been reported over.
pub proof fn law_no_attempt_before_delay(
    agent: AgentView,
    events: Seq<AgentEventView>,
    failed_at: int,
    attempt_at: int,
)
    requires
        0 <= failed_at < attempt_at < events.len(),
        action_at(agent, events, failed_at) is Some,
        action_at(agent, events, failed_at)->Some_0 is Sleep,
        action_at(agent, events, attempt_at) is Some,
        action_at(agent, events, attempt_at)->Some_0 is SpawnSource || action_at(
            agent,
            events,
            attempt_at,
        )->Some_0 is Connect,
    ensures
        exists|k: int| failed_at < k <= attempt_at && (#[trigger] events[k]) is DelayElapsed,
        action_at(agent, events, attempt_at)->Some_0 is Connect ==> exists|k: int|
            failed_at < k < attempt_at && (#[trigger] events[k]) is DelayElapsed,
{
    if forall|k: int| failed_at < k < attempt_at ==> !((#[trigger] events[k]) is DelayElapsed) {
        lemma_waits_until_delay(agent, events, failed_at, attempt_at);
        assert(events[attempt_at] is DelayElapsed);
    }
}

/// After a failure the agent stays failed, or is stopped, for as long as the
/// delay is not reported over.
proof fn lemma_waits_until_delay(
    agent: AgentView,
    events: Seq<AgentEventView>,
    failed_at: int,
    until: int,
)
    requires
        0 <= failed_at < until <= events.len(),
        action_at(agent, events, failed_at) is Some,
        action_at(agent, events, failed_at)->Some_0 is Sleep,
        forall|k: int| failed_at < k < until ==> !((#[trigger] events[k]) is DelayElapsed),
    ensures
        after_events(agent, events.take(until)).state is Failed || after_events(
            agent,
            events.take(until),
        ).state is Stopped,
    decreases until - failed_at,
{
    assert(events.take(until).drop_last() == events.take(until - 1));
    assert(events.take(until).last() == events[until - 1]);
    if until == failed_at + 1 {
    } else {
        lemma_waits_until_delay(agent, events, failed_at, until - 1);
    }
}

/// Retry cadence, second half: a failed connect starts the fixed delay,
/// and when the delay is over the agent begins again: it launches a new
/// source and then opens a new connection to the same collector.
pub proof fn law_attempt_after_delay(agent: AgentView)
    requires
        agent.state is Connecting,
    ensures
        ({
            let failed = after_event(agent, AgentEventView::ConnectFailed);
            let woken = after_event(failed, AgentEventView::DelayElapsed);
            let spawned = after_event(woken, AgentEventView::SourceSpawned);
            &&& next_action(agent, AgentEventView::ConnectFailed) == Some(
                AgentActionView::Sleep { secs: agent.retry_delay_secs },
            )
            &&& failed.state is Failed
            &&& next_action(failed, AgentEventView::DelayElapsed) == Some(
                AgentActionView::SpawnSource,
            )
            &&& next_action(woken, AgentEventView::SourceSpawned) == Some(
                AgentActionView::Connect { address: agent.collector },
            )
            &&& spawned.state is Connecting
        }),
{
}

/// The agent never ends its loop by itself: only a request to stop leads
/// to the stopped state, and every failure leads to the retry delay.
pub proof fn law_self_healing(agent: AgentView, event: AgentEventView)
    requires
        !(agent.state is Stopped),
    ensures
        next_state(agent, event) is Stopped <==> event is StopRequested,
        is_failure(agent.state, event) ==> next_state(agent, event) is Failed && next_action(
            agent,
            event,
        ) == Some(AgentActionView::Sleep { secs: agent.retry_delay_secs }),
{
}

/// Relaying: over an open connection the agent writes the lines it reads,
/// each followed by one line feed, in the order read, and nothing else.
pub proof fn law_relay(agent: AgentView, texts: Seq<Seq<char>>)
    requires
        agent.state is Streaming,
    ensures
        sent_over(agent, relay_events(texts)) == wire_encoding(encoded(texts)),
        after_events(agent, relay_events(texts)) == agent,
    decreases texts.len(),
{
    let events = relay_events(texts);
    if texts.len() == 0 {
        assert(encoded(texts) == Seq::<Seq<u8>>::empty());
    } else {
        let before = texts.drop_last();
        let read = AgentEventView::LineRead(texts.last());
        let last = seq![read] + seq![AgentEventView::Sent];
        law_relay(agent, before);
        assert(events == relay_events(before) + last);
        lemma_events_concat(agent, relay_events(before), last);
        lemma_events_concat(agent, seq![read], seq![AgentEventView::Sent]);
        lemma_single_event(agent, read);
        lemma_single_event(agent, AgentEventView::Sent);
        assert(after_event(agent, read) == agent);
        assert(sent_over(agent, last) == framed(encode_utf8(texts.last())));
        assert(after_events(agent, last) == agent);
        assert(encoded(texts) == encoded(before) + seq![encode_utf8(texts.last())]);
        lemma_wire_encoding_concat(encoded(before), seq![encode_utf8(texts.last())]);
        lemma_wire_encoding_single(encode_utf8(texts.last()));
    }
}

/// Loss on disconnect: a line that the source produces while the agent is
/// not streaming is dropped. It changes neither the agent nor anything the
/// agent writes afterwards, on this connection or a later one.
pub proof fn law_loss_on_disconnect(
    agent: AgentView,
    before: Seq<AgentEventView>,
    text: Seq<char>,
    after: Seq<AgentEventView>,
)
    requires
        !(after_events(agent, before).state is Streaming),
    ensures
        sent_over(agent, before + seq![AgentEventView::LineRead(text)] + after) == sent_over(
            agent,
            before + after,
        ),
        after_events(agent, before + seq![AgentEventView::LineRead(text)] + after) == after_events(
            agent,
            before + after,
        ),
{
    let lost = seq![AgentEventView::LineRead(text)];
    let then = after_events(agent, before);
    lemma_single_event(then, AgentEventView::LineRead(text));
    assert(after_events(then, lost) == then);
    assert(sent_over(then, lost) == Seq::<u8>::empty());
    lemma_events_concat(agent, before, lost);
    lemma_events_concat(agent, before + lost, after);
    lemma_events_concat(agent, before, after);
}

} // verus!
