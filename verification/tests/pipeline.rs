use monolog::agent::{Agent, AgentAction, AgentEvent, AgentState, RETRY_DELAY_SECS};
use monolog::line::frame_line;
use monolog::session::{ClientSession, SessionAction, SessionEvent, SessionState};
use monolog::sink::{sink_file_name, MemorySinks};
use monolog::splitter::LineSplitter;

fn streaming_agent(collector: &str) -> Agent {
    let mut agent = Agent::new(collector.to_string(), RETRY_DELAY_SECS);
    assert_eq!(agent.step(AgentEvent::Start), Some(AgentAction::SpawnSource));
    assert_eq!(
        agent.step(AgentEvent::SourceSpawned),
        Some(AgentAction::Connect { address: collector.to_string() })
    );
    assert_eq!(agent.step(AgentEvent::Connected), Some(AgentAction::ReadLine));
    assert_eq!(agent.state(), AgentState::Streaming);
    agent
}

fn relay(agent: &mut Agent, line: &str) -> Vec<u8> {
    let sent = match agent.step(AgentEvent::LineRead(line.to_string())) {
        Some(AgentAction::Send { bytes }) => bytes,
        other => panic!("no send: {:?}", other),
    };
    assert_eq!(agent.step(AgentEvent::Sent), Some(AgentAction::ReadLine));
    sent
}

fn open_session(peer: &str, sinks: &mut MemorySinks) -> ClientSession {
    let (mut session, action) = ClientSession::accept(peer.to_string());
    match action {
        SessionAction::OpenSink { name } => {
            assert_eq!(name, sink_file_name(peer));
            sinks.open(&name);
        }
        other => panic!("no open: {:?}", other),
    }
    assert_eq!(session.state(), SessionState::Opening);
    assert_eq!(session.step(SessionEvent::SinkOpened), Some(SessionAction::ReadLine));
    assert_eq!(session.state(), SessionState::Streaming);
    session
}

fn receive(
    session: &mut ClientSession,
    splitter: &mut LineSplitter,
    sinks: &mut MemorySinks,
    chunk: &[u8],
) {
    splitter.push(chunk);
    while let Some(read) = splitter.next_line() {
        let line = read.expect("text");
        match session.step(SessionEvent::LineReceived(line)) {
            Some(SessionAction::Append { record }) => {
                sinks.append(&sink_file_name(session.peer()), &record);
            }
            other => panic!("no append: {:?}", other),
        }
        assert_eq!(session.step(SessionEvent::Appended), Some(SessionAction::ReadLine));
    }
}

#[test]
fn concrete_scenario_boot_wifi_battery() {
    let mut agent = streaming_agent("127.0.0.1:12345");
    let mut sinks = MemorySinks::new();
    let peer = "127.0.0.1:50312";
    let mut session = open_session(peer, &mut sinks);
    let mut splitter = LineSplitter::new();
    let name = sink_file_name(peer);
    assert_eq!(name, "logs_127.0.0.1:50312.txt");
    assert_eq!(sinks.content(&name), b"".to_vec());

    let first = relay(&mut agent, "boot_complete");
    let second = relay(&mut agent, "wifi_up");
    assert_eq!(first, b"boot_complete\n".to_vec());
    assert_eq!(second, b"wifi_up\n".to_vec());
    receive(&mut session, &mut splitter, &mut sinks, &first);
    receive(&mut session, &mut splitter, &mut sinks, &second);
    assert_eq!(sinks.content(&name), b"boot_complete\nwifi_up\n".to_vec());
    assert_eq!(session.state(), SessionState::Streaming);

    let third = relay(&mut agent, "battery_low");
    receive(&mut session, &mut splitter, &mut sinks, &third);
    assert_eq!(sinks.content(&name), b"boot_complete\nwifi_up\nbattery_low\n".to_vec());
}

#[test]
fn line_integrity_whatever_the_chunks() {
    let lines = ["", "plain", "gr\u{fc}n \u{1f600}", "tab\there", "ends with cr\r", " "];
    for chunk_size in 1..12 {
        let mut agent = streaming_agent("10.0.0.1:12345");
        let mut sinks = MemorySinks::new();
        let mut session = open_session("10.0.0.2:4000", &mut sinks);
        let mut splitter = LineSplitter::new();
        let mut wire = Vec::new();
        let mut expected = Vec::new();
        for line in lines.iter() {
            wire.extend(relay(&mut agent, line));
            expected.extend_from_slice(line.as_bytes());
            expected.push(b'\n');
        }
        assert_eq!(wire, expected);
        for chunk in wire.chunks(chunk_size) {
            receive(&mut session, &mut splitter, &mut sinks, chunk);
        }
        assert_eq!(splitter.pending_len(), 0);
        assert_eq!(sinks.content("logs_10.0.0.2:4000.txt"), expected);
    }
}

#[test]
fn isolation_between_peers() {
    let mut sinks = MemorySinks::new();
    let mut first = open_session("10.0.0.2:4000", &mut sinks);
    let mut second = open_session("10.0.0.3:4000", &mut sinks);
    let mut first_splitter = LineSplitter::new();
    let mut second_splitter = LineSplitter::new();
    receive(&mut first, &mut first_splitter, &mut sinks, b"a1\na");
    receive(&mut second, &mut second_splitter, &mut sinks, b"b1\n");
    receive(&mut first, &mut first_splitter, &mut sinks, b"2\n");
    receive(&mut second, &mut second_splitter, &mut sinks, b"b2\nb3\n");
    assert_eq!(sinks.content("logs_10.0.0.2:4000.txt"), b"a1\na2\n".to_vec());
    assert_eq!(sinks.content("logs_10.0.0.3:4000.txt"), b"b1\nb2\nb3\n".to_vec());
    assert_ne!(sink_file_name("10.0.0.2:4000"), sink_file_name("10.0.0.3:4000"));
}

#[test]
fn reconnect_resumes_behind_what_is_there() {
    let mut sinks = MemorySinks::new();
    let peer = "192.168.1.7:41000";
    let mut earlier = open_session(peer, &mut sinks);
    let mut splitter = LineSplitter::new();
    receive(&mut earlier, &mut splitter, &mut sinks, b"one\ntwo\nthr");
    assert_eq!(earlier.step(SessionEvent::ReadFailed), Some(SessionAction::Close));
    assert_eq!(earlier.state(), SessionState::Closed);
    let held = sinks.content("logs_192.168.1.7:41000.txt");
    assert_eq!(held, b"one\ntwo\n".to_vec());

    let mut later = open_session(peer, &mut sinks);
    assert_eq!(sinks.content("logs_192.168.1.7:41000.txt"), held);
    let mut fresh = LineSplitter::new();
    receive(&mut later, &mut fresh, &mut sinks, b"four\n");
    let grown = sinks.content("logs_192.168.1.7:41000.txt");
    assert_eq!(grown, b"one\ntwo\nfour\n".to_vec());
    assert_eq!(&grown[..held.len()], &held[..]);
}

#[test]
fn retry_cadence_after_a_failed_connect() {
    let mut agent = Agent::new("192.168.1.100:12345".to_string(), RETRY_DELAY_SECS);
    assert_eq!(RETRY_DELAY_SECS, 5);
    agent.step(AgentEvent::Start);
    agent.step(AgentEvent::SourceSpawned);
    assert_eq!(agent.state(), AgentState::Connecting);
    assert_eq!(agent.step(AgentEvent::ConnectFailed), Some(AgentAction::Sleep { secs: 5 }));
    assert_eq!(agent.state(), AgentState::Failed);
    assert_eq!(agent.step(AgentEvent::Connected), None);
    assert_eq!(agent.step(AgentEvent::SourceSpawned), None);
    assert_eq!(agent.step(AgentEvent::Start), None);
    assert_eq!(agent.step(AgentEvent::Sent), None);
    assert_eq!(agent.state(), AgentState::Failed);
    assert_eq!(agent.step(AgentEvent::DelayElapsed), Some(AgentAction::SpawnSource));
    assert_eq!(agent.state(), AgentState::SpawningSource);
    assert_eq!(
        agent.step(AgentEvent::SourceSpawned),
        Some(AgentAction::Connect { address: "192.168.1.100:12345".to_string() })
    );
    assert_eq!(agent.state(), AgentState::Connecting);
}

#[test]
fn retry_delay_is_the_configured_one() {
    let mut agent = Agent::new("h:1".to_string(), 17);
    assert_eq!(agent.retry_delay_secs(), 17);
    assert_eq!(agent.collector(), "h:1");
    agent.step(AgentEvent::Start);
    assert_eq!(agent.step(AgentEvent::SpawnFailed), Some(AgentAction::Sleep { secs: 17 }));
}

#[test]
fn loss_on_disconnect() {
    let mut agent = streaming_agent("c:1");
    assert_eq!(relay(&mut agent, "kept"), b"kept\n".to_vec());
    assert_eq!(agent.step(AgentEvent::WriteFailed), Some(AgentAction::Sleep { secs: 5 }));
    assert_eq!(agent.step(AgentEvent::LineRead("lost".to_string())), None);
    assert_eq!(agent.state(), AgentState::Failed);
    assert_eq!(agent.step(AgentEvent::DelayElapsed), Some(AgentAction::SpawnSource));
    assert_eq!(agent.step(AgentEvent::LineRead("lost too".to_string())), None);
    agent.step(AgentEvent::SourceSpawned);
    assert_eq!(agent.step(AgentEvent::LineRead("still lost".to_string())), None);
    assert_eq!(agent.step(AgentEvent::Connected), Some(AgentAction::ReadLine));
    assert_eq!(relay(&mut agent, "after"), b"after\n".to_vec());
}

#[test]
fn every_failure_while_streaming_starts_the_delay() {
    for event in [AgentEvent::ReadFailed, AgentEvent::SourceEnded, AgentEvent::WriteFailed] {
        let mut agent = streaming_agent("c:1");
        assert_eq!(agent.step(event), Some(AgentAction::Sleep { secs: 5 }));
        assert_eq!(agent.state(), AgentState::Failed);
    }
}

#[test]
fn failures_of_other_states_are_not_taken() {
    let mut agent = Agent::new("c:1".to_string(), 5);
    assert_eq!(agent.state(), AgentState::Idle);
    assert_eq!(agent.step(AgentEvent::ConnectFailed), None);
    assert_eq!(agent.step(AgentEvent::DelayElapsed), None);
    assert_eq!(agent.state(), AgentState::Idle);
    agent.step(AgentEvent::Start);
    assert_eq!(agent.step(AgentEvent::ConnectFailed), None);
    assert_eq!(agent.step(AgentEvent::WriteFailed), None);
    assert_eq!(agent.state(), AgentState::SpawningSource);
    let mut streaming = streaming_agent("c:1");
    assert_eq!(streaming.step(AgentEvent::SpawnFailed), None);
    assert_eq!(streaming.step(AgentEvent::ConnectFailed), None);
    assert_eq!(streaming.state(), AgentState::Streaming);
}

#[test]
fn only_a_request_stops_the_agent() {
    let mut agent = streaming_agent("c:1");
    assert_eq!(agent.step(AgentEvent::StopRequested), Some(AgentAction::Halt));
    assert_eq!(agent.state(), AgentState::Stopped);
    assert_eq!(agent.step(AgentEvent::Start), None);
    assert_eq!(agent.step(AgentEvent::DelayElapsed), None);
    assert_eq!(agent.step(AgentEvent::StopRequested), None);
    assert_eq!(agent.state(), AgentState::Stopped);
    let mut idle = Agent::new("c:1".to_string(), 5);
    assert_eq!(idle.step(AgentEvent::StopRequested), Some(AgentAction::Halt));
}

#[test]
fn a_sink_that_cannot_be_opened_ends_the_session() {
    let (mut session, action) = ClientSession::accept("[::1]:9".to_string());
    assert_eq!(action, SessionAction::OpenSink { name: "logs_[::1]:9.txt".to_string() });
    assert_eq!(session.peer(), "[::1]:9");
    assert_eq!(session.step(SessionEvent::LineReceived("early".to_string())), None);
    assert_eq!(session.step(SessionEvent::SinkOpenFailed), Some(SessionAction::Close));
    assert_eq!(session.state(), SessionState::Closed);
    assert_eq!(session.step(SessionEvent::SinkOpened), None);
    assert_eq!(session.step(SessionEvent::LineReceived("late".to_string())), None);
    assert_eq!(session.state(), SessionState::Closed);
}

#[test]
fn every_end_of_a_streaming_session_closes_it() {
    for event in [SessionEvent::ReadFailed, SessionEvent::PeerClosed, SessionEvent::AppendFailed] {
        let mut sinks = MemorySinks::new();
        let mut session = open_session("p:1", &mut sinks);
        assert_eq!(session.step(SessionEvent::SinkOpenFailed), None);
        assert_eq!(session.step(event), Some(SessionAction::Close));
        assert_eq!(session.state(), SessionState::Closed);
        assert_eq!(session.step(SessionEvent::Appended), None);
    }
}

#[test]
fn last_line_without_line_feed_is_persisted_at_the_end() {
    let mut sinks = MemorySinks::new();
    let mut session = open_session("p:2", &mut sinks);
    let mut splitter = LineSplitter::new();
    receive(&mut session, &mut splitter, &mut sinks, b"whole\npart");
    assert_eq!(sinks.content("logs_p:2.txt"), b"whole\n".to_vec());
    let last = splitter.last_line().expect("a last line").expect("text");
    assert_eq!(last, "part");
    assert_eq!(
        session.step(SessionEvent::LineReceived(last)),
        Some(SessionAction::Append { record: b"part\n".to_vec() })
    );
    assert_eq!(splitter.last_line(), None);
    assert_eq!(session.step(SessionEvent::PeerClosed), Some(SessionAction::Close));
}

#[test]
fn memory_sinks_append_only() {
    let mut sinks = MemorySinks::new();
    assert_eq!(sinks.content("a"), Vec::<u8>::new());
    sinks.append("a", b"1");
    sinks.open("a");
    sinks.open("b");
    sinks.append("b", b"x");
    sinks.append("a", b"23");
    sinks.append("a", b"");
    assert_eq!(sinks.content("a"), b"123".to_vec());
    assert_eq!(sinks.content("b"), b"x".to_vec());
    assert_eq!(sinks.content("c"), Vec::<u8>::new());
}

#[test]
fn frame_is_the_line_and_one_line_feed() {
    assert_eq!(frame_line("wifi_up"), b"wifi_up\n".to_vec());
    assert_eq!(frame_line("\u{e9}"), vec![0xc3, 0xa9, b'\n']);
}
