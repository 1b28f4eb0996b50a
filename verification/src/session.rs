//! One client session of the collector: one connection and one sink.
//!
//! A session begins when a connection is accepted. It opens the sink of
//! the peer, appends every line it receives, followed by a line feed, and
//! ends when the peer closes the connection or anything fails. Sessions
//! share nothing: each is a value of its own.
//!
//! The machine decides; its caller acts. Each [`SessionAction`] names one
//! blocking operation, and the caller reports how it ended as the next
//! [`SessionEvent`].

use vstd::prelude::*;
use vstd::string::*;
use vstd::utf8::*;
use crate::line::{
    encoded, frame_line, framed, lemma_wire_encoding_concat, lemma_wire_encoding_single,
    wire_encoding,
};
use crate::sink::{sink_file_name, sink_name, written_by, SinkWrite};

verus! {

/// Where a session stands.
#[derive(Clone, Copy, Debug, PartialEq, Eq, Structural)]
pub enum SessionState {
    /// The connection is accepted; the sink is being opened.
    Opening,
    /// The sink is open; lines are received and appended.
    Streaming,
    /// The session is over. Nothing leads out of this state.
    Closed,
}

/// What the caller reports to the machine.
#[derive(Clone, Debug, PartialEq, Eq)]
pub enum SessionEvent {
    /// The sink is open for appending.
    SinkOpened,
    /// The sink could not be opened.
    SinkOpenFailed,
    /// The connection delivered this line.
    LineReceived(String),
    /// Reading from the connection failed.
    ReadFailed,
    /// The peer closed the connection.
    PeerClosed,
    /// The record of the last `Append` is written.
    Appended,
    /// Writing to the sink failed.
    AppendFailed,
}

/// An event by its mathematical content.
pub enum SessionEventView {
    SinkOpened,
    SinkOpenFailed,
    LineReceived(Seq<char>),
    ReadFailed,
    PeerClosed,
    Appended,
    AppendFailed,
}

impl View for SessionEvent {
    type V = SessionEventView;

    open spec fn view(&self) -> SessionEventView {
        match self {
            SessionEvent::SinkOpened => SessionEventView::SinkOpened,
            SessionEvent::SinkOpenFailed => SessionEventView::SinkOpenFailed,
            SessionEvent::LineReceived(text) => SessionEventView::LineReceived(text@),
            SessionEvent::ReadFailed => SessionEventView::ReadFailed,
            SessionEvent::PeerClosed => SessionEventView::PeerClosed,
            SessionEvent::Appended => SessionEventView::Appended,
            SessionEvent::AppendFailed => SessionEventView::AppendFailed,
        }
    }
}

/// What the machine asks its caller to do next.
#[derive(Clone, Debug, PartialEq, Eq)]
pub enum SessionAction {
    /// Open the file `name` for appending, creating it if there is none.
    OpenSink { name: String },
    /// Read the next line from the connection.
    ReadLine,
    /// Append `record` to the sink, all of it.
    Append { record: Vec<u8> },
    /// Close the connection, and the sink if it was opened.
    Close,
}

/// An action by its mathematical content.
pub enum SessionActionView {
    OpenSink { name: Seq<char> },
    ReadLine,
    Append { record: Seq<u8> },
    Close,
}

impl View for SessionAction {
    type V = SessionActionView;

    open spec fn view(&self) -> SessionActionView {
        match self {
            SessionAction::OpenSink { name } => SessionActionView::OpenSink { name: name@ },
            SessionAction::ReadLine => SessionActionView::ReadLine,
            SessionAction::Append { record } => SessionActionView::Append { record: record@ },
            SessionAction::Close => SessionActionView::Close,
        }
    }
}

/// The view of an action that may be absent.
pub open spec fn session_action_view(action: Option<SessionAction>) -> Option<SessionActionView> {
    match action {
        Some(action) => Some(action@),
        None => None,
    }
}

/// A session by its mathematical content.
pub struct SessionView {
    /// The address of the peer, as seen when the connection was accepted.
    pub peer: Seq<char>,
    /// Where the session stands.
    pub state: SessionState,
}

/// An event that ends a session in `state`.
pub open spec fn is_ending(state: SessionState, event: SessionEventView) -> bool {
    match state {
        SessionState::Opening => event is SinkOpenFailed,
        SessionState::Streaming => event is ReadFailed || event is PeerClosed
            || event is AppendFailed,
        SessionState::Closed => false,
    }
}

/// The state that follows `session.state` on `event`.
///
/// An event that the state does not wait for changes nothing.
pub open spec fn session_next_state(session: SessionView, event: SessionEventView) -> SessionState {
    if is_ending(session.state, event) {
        SessionState::Closed
    } else if session.state is Opening && event is SinkOpened {
        SessionState::Streaming
    } else {
        session.state
    }
}

/// What the session asks for on `event`; nothing where the state does not
/// wait for that event.
pub open spec fn session_next_action(session: SessionView, event: SessionEventView) -> Option<
    SessionActionView,
> {
    if is_ending(session.state, event) {
        Some(SessionActionView::Close)
    } else if session.state is Opening && event is SinkOpened {
        Some(SessionActionView::ReadLine)
    } else if session.state is Streaming && event is Appended {
        Some(SessionActionView::ReadLine)
    } else if session.state is Streaming {
        match event {
            SessionEventView::LineReceived(text) => Some(
                SessionActionView::Append { record: framed(encode_utf8(text)) },
            ),
            _ => None,
        }
    } else {
        None
    }
}

/// The session after `event`.
pub open spec fn session_after_event(session: SessionView, event: SessionEventView) -> SessionView {
    SessionView { state: session_next_state(session, event), ..session }
}

/// The handling of one accepted connection.
pub struct ClientSession {
    peer: String,
    state: SessionState,
}

impl View for ClientSession {
    type V = SessionView;

    closed spec fn view(&self) -> SessionView {
        SessionView { peer: self.peer@, state: self.state }
    }
}

impl ClientSession {
    /// Begins the session of a connection accepted from `peer`, and asks
    /// for the sink of that peer to be opened.
    pub fn accept(peer: String) -> (begun: (ClientSession, SessionAction))
        ensures
            begun.0@ == (SessionView { peer: peer@, state: SessionState::Opening }),
            begun.1@ == (SessionActionView::OpenSink { name: sink_name(peer@) }),
    {
        let name = sink_file_name(peer.as_str());
        (ClientSession { peer, state: SessionState::Opening }, SessionAction::OpenSink { name })
    }

    /// Where the session stands.
    pub fn state(&self) -> (state: SessionState)
        ensures
            state == self@.state,
    {
        self.state
    }

    /// The address of the peer.
    pub fn peer(&self) -> (address: &str)
        ensures
            address@ == self@.peer,
    {
        self.peer.as_str()
    }

    /// Takes in what the caller reports and says what to do next.
    pub fn step(&mut self, event: SessionEvent) -> (action: Option<SessionAction>)
        ensures
            final(self)@ == session_after_event(old(self)@, event@),
            session_action_view(action) == session_next_action(old(self)@, event@),
    {
        match self.state {
            SessionState::Closed => None,
            SessionState::Opening => match event {
                SessionEvent::SinkOpenFailed => self.close(),
                SessionEvent::SinkOpened => {
                    self.state = SessionState::Streaming;
                    Some(SessionAction::ReadLine)
                },
                _ => None,
            },
            SessionState::Streaming => match event {
                SessionEvent::ReadFailed => self.close(),
                SessionEvent::PeerClosed => self.close(),
                SessionEvent::AppendFailed => self.close(),
                SessionEvent::Appended => Some(SessionAction::ReadLine),
                SessionEvent::LineReceived(text) => Some(
                    SessionAction::Append { record: frame_line(text.as_str()) },
                ),
                _ => None,
            },
        }
    }

    /// Ends the session.
    fn close(&mut self) -> (action: Option<SessionAction>)
        ensures
            final(self)@ == (SessionView { state: SessionState::Closed, ..old(self)@ }),
            session_action_view(action) == Some(SessionActionView::Close),
    {
        self.state = SessionState::Closed;
        Some(SessionAction::Close)
    }
}

/// The session after `events`, taken in order.
pub open spec fn session_after_events(
    session: SessionView,
    events: Seq<SessionEventView>,
) -> SessionView
    decreases events.len(),
{
    if events.len() == 0 {
        session
    } else {
        session_after_event(session_after_events(session, events.drop_last()), events.last())
    }
}

/// The bytes that the session has appended to its sink on `event`.
pub open spec fn appended_on(session: SessionView, event: SessionEventView) -> Seq<u8> {
    match session_next_action(session, event) {
        Some(SessionActionView::Append { record }) => record,
        _ => Seq::empty(),
    }
}

/// All bytes that the session appends to its sink over `events`, in order.
pub open spec fn appended_over(session: SessionView, events: Seq<SessionEventView>) -> Seq<u8>
    decreases events.len(),
{
    if events.len() == 0 {
        Seq::empty()
    } else {
        appended_over(session, events.drop_last()) + appended_on(
            session_after_events(session, events.drop_last()),
            events.last(),
        )
    }
}

/// The events of persisting `texts` in an open session: each line
/// received, then appended.
pub open spec fn persist_events(texts: Seq<Seq<char>>) -> Seq<SessionEventView> {
    Seq::new(
        2 * texts.len(),
        |i: int|
            if i % 2 == 0 {
                SessionEventView::LineReceived(texts[i / 2])
            } else {
                SessionEventView::Appended
            },
    )
}

/// One event alone gives what one step gives.
pub proof fn lemma_single_session_event(session: SessionView, event: SessionEventView)
    ensures
        session_after_events(session, seq![event]) == session_after_event(session, event),
        appended_over(session, seq![event]) == appended_on(session, event),
{
    let events = seq![event];
    assert(events.drop_last() == Seq::<SessionEventView>::empty());
    assert(events.last() == event);
    assert(session_after_events(session, events.drop_last()) == session);
    assert(appended_over(session, events.drop_last()) == Seq::<u8>::empty());
}

/// Events taken in two parts give what they give taken as one.
pub proof fn lemma_session_events_concat(
    session: SessionView,
    first: Seq<SessionEventView>,
    second: Seq<SessionEventView>,
)
    ensures
        session_after_events(session, first + second) == session_after_events(
            session_after_events(session, first),
            second,
        ),
        appended_over(session, first + second) == appended_over(session, first) + appended_over(
            session_after_events(session, first),
            second,
        ),
    decreases second.len(),
{
    if second.len() == 0 {
        assert(first + second == first);
    } else {
        lemma_session_events_concat(session, first, second.drop_last());
        assert((first + second).drop_last() == first + second.drop_last());
        assert((first + second).last() == second.last());
    }
}

/// A session and its sink belong to one peer for good: no event changes
/// the peer, and the sink is the one named after it.
pub proof fn law_session_keeps_peer(session: SessionView, events: Seq<SessionEventView>)
    ensures
        session_after_events(session, events).peer == session.peer,
    decreases events.len(),
{
    if events.len() > 0 {
        law_session_keeps_peer(session, events.drop_last());
    }
}

/// Persisting: an open session appends the lines it receives, each
/// followed by one line feed, in the order received, and nothing else; and
/// it stays open for more.
pub proof fn law_persist(session: SessionView, texts: Seq<Seq<char>>)
    requires
        session.state is Streaming,
    ensures
        appended_over(session, persist_events(texts)) == wire_encoding(encoded(texts)),
        session_after_events(session, persist_events(texts)) == session,
    decreases texts.len(),
{
    let events = persist_events(texts);
    if texts.len() == 0 {
        assert(encoded(texts) == Seq::<Seq<u8>>::empty());
    } else {
        let before = texts.drop_last();
        let received = SessionEventView::LineReceived(texts.last());
        let last = seq![received] + seq![SessionEventView::Appended];
        law_persist(session, before);
        assert(events == persist_events(before) + last);
        lemma_session_events_concat(session, persist_events(before), last);
        lemma_session_events_concat(session, seq![received], seq![SessionEventView::Appended]);
        lemma_single_session_event(session, received);
        lemma_single_session_event(session, SessionEventView::Appended);
        assert(session_after_event(session, received) == session);
        assert(appended_over(session, last) == framed(encode_utf8(texts.last())));
        assert(session_after_events(session, last) == session);
        assert(encoded(texts) == encoded(before) + seq![encode_utf8(texts.last())]);
        lemma_wire_encoding_concat(encoded(before), seq![encode_utf8(texts.last())]);
        lemma_wire_encoding_single(encode_utf8(texts.last()));
    }
}

/// A closed session appends nothing and stays closed, whatever is reported.
pub proof fn law_closed_is_final(session: SessionView, events: Seq<SessionEventView>)
    requires
        session.state is Closed,
    ensures
        session_after_events(session, events) == session,
        appended_over(session, events) == Seq::<u8>::empty(),
    decreases events.len(),
{
    if events.len() > 0 {
        law_closed_is_final(session, events.drop_last());
    }
}

/// The writes that the session does to its sink over `events`, in order:
/// one for each record it appends, under the address of its peer.
pub open spec fn session_writes(session: SessionView, events: Seq<SessionEventView>) -> Seq<
    SinkWrite,
>
    decreases events.len(),
{
    if events.len() == 0 {
        Seq::empty()
    } else {
        match session_next_action(
            session_after_events(session, events.drop_last()),
            events.last(),
        ) {
            Some(SessionActionView::Append { record }) => session_writes(
                session,
                events.drop_last(),
            ).push(SinkWrite { peer: session.peer, record }),
            _ => session_writes(session, events.drop_last()),
        }
    }
}

/// A session writes to the sink of its own peer only, and what it writes
/// there is what it appends, in order.
pub proof fn law_session_writes(session: SessionView, events: Seq<SessionEventView>)
    ensures
        forall|i: int|
            0 <= i < session_writes(session, events).len() ==> (#[trigger] session_writes(
                session,
                events,
            )[i]).peer == session.peer,
        written_by(session_writes(session, events), session.peer) == appended_over(
            session,
            events,
        ),
    decreases events.len(),
{
    if events.len() > 0 {
        let before = events.drop_last();
        law_session_writes(session, before);
        law_session_keeps_peer(session, before);
        let then = session_after_events(session, before);
        match session_next_action(then, events.last()) {
            Some(SessionActionView::Append { record }) => {
                let writes = session_writes(session, events);
                assert(writes.drop_last() == session_writes(session, before));
                assert(writes.last() == SinkWrite { peer: session.peer, record });
            },
            _ => {
                assert(appended_over(session, before) + Seq::<u8>::empty() == appended_over(
                    session,
                    before,
                ));
            },
        }
    }
}

} // verus!
