//! The pipeline end to end: from the lines an agent reads to the bytes a
//! sink holds.

use vstd::prelude::*;
use vstd::utf8::*;
use crate::agent::{law_relay, relay_events, sent_over, AgentView};
use crate::line::{
    are_line_texts, encoded, is_line_body, lemma_line_text_bytes, lemma_lines_of_wire_encoding,
    lines_of, unfinished, wire_encoding,
};
use crate::session::{
    appended_over, law_persist, law_session_writes, persist_events, session_writes,
    SessionEventView, SessionView,
};
use crate::sink::{
    after_writes, content, law_isolation, law_reconnect_resumption, law_sink_content,
    sink_name, Sinks,
};
use crate::splitter::{line_text, LineError};

verus! {

/// Line integrity: when an agent relays lines over an unbroken connection
/// and the session of that connection persists them, the sink grows by
/// exactly those lines, in order, each followed by exactly one line feed.
///
/// On the way, what the agent writes falls apart again into the very
/// lines it read, none left unfinished, and each is read back as the text
/// that was sent.
pub proof fn law_line_integrity(
    agent: AgentView,
    session: SessionView,
    sinks: Sinks,
    texts: Seq<Seq<char>>,
)
    requires
        agent.state is Streaming,
        session.state is Streaming,
        are_line_texts(texts),
    ensures
        ({
            let wire = sent_over(agent, relay_events(texts));
            let persisted = appended_over(session, persist_events(texts));
            let name = sink_name(session.peer);
            &&& wire == wire_encoding(encoded(texts))
            &&& lines_of(wire) == encoded(texts)
            &&& unfinished(wire) == Seq::<u8>::empty()
            &&& forall|i: int|
                0 <= i < texts.len() ==> line_text(#[trigger] lines_of(wire)[i]) == Ok::<
                    Seq<char>,
                    LineError,
                >(texts[i])
            &&& persisted == wire
            &&& content(
                after_writes(sinks, session_writes(session, persist_events(texts))),
                name,
            ) == content(sinks, name) + wire_encoding(encoded(texts))
        }),
{
    law_relay(agent, texts);
    law_persist(session, texts);
    law_session_writes(session, persist_events(texts));
    law_sink_content(sinks, session_writes(session, persist_events(texts)), session.peer);
    let bodies = encoded(texts);
    assert forall|i: int| 0 <= i < bodies.len() implies is_line_body(#[trigger] bodies[i]) by {
        lemma_line_text_bytes(texts[i]);
    }
    lemma_lines_of_wire_encoding(bodies, Seq::empty());
    assert(wire_encoding(bodies) + Seq::<u8>::empty() == wire_encoding(bodies));
    assert forall|i: int| 0 <= i < texts.len() implies line_text(#[trigger] bodies[i]) == Ok::<
        Seq<char>,
        LineError,
    >(texts[i]) by {
        encode_utf8_valid_utf8(texts[i]);
        encode_utf8_decode_utf8(texts[i]);
    }
}

/// Isolation: whatever passes on the connection of one peer, the sink of
/// a peer at another address holds afterwards what it held before.
pub proof fn law_sessions_isolated(
    sinks: Sinks,
    session: SessionView,
    events: Seq<SessionEventView>,
    other: Seq<char>,
)
    requires
        session.peer != other,
    ensures
        content(after_writes(sinks, session_writes(session, events)), sink_name(other)) == content(
            sinks,
            sink_name(other),
        ),
{
    law_session_writes(session, events);
    law_isolation(sinks, session_writes(session, events), other);
}

/// Reconnect resumption: when the session of a peer ends and a later
/// session begins for the same address, the sink of that peer holds what
/// it held, then what the earlier session appended, then what the later
/// one appended; nothing that was there is rewritten or cut short.
pub proof fn law_sessions_resume(
    sinks: Sinks,
    earlier: SessionView,
    earlier_events: Seq<SessionEventView>,
    later: SessionView,
    later_events: Seq<SessionEventView>,
)
    requires
        earlier.peer == later.peer,
    ensures
        ({
            let name = sink_name(earlier.peer);
            let first = session_writes(earlier, earlier_events);
            let second = session_writes(later, later_events);
            let dropped = content(after_writes(sinks, first), name);
            let resumed = content(after_writes(sinks, first + second), name);
            &&& sink_name(later.peer) == name
            &&& dropped == content(sinks, name) + appended_over(earlier, earlier_events)
            &&& resumed == dropped + appended_over(later, later_events)
            &&& resumed.subrange(0, dropped.len() as int) == dropped
        }),
{
    law_session_writes(earlier, earlier_events);
    law_session_writes(later, later_events);
    law_reconnect_resumption(
        sinks,
        session_writes(earlier, earlier_events),
        session_writes(later, later_events),
        earlier.peer,
    );
}

} // verus!
