use lan_chat::log::ChatLog;
use lan_chat::session::{decide_line, handle_input, Action, ChatCore, Event, InputAction};
use lan_chat::{
    bind_address, choose_username, format_line, format_received, format_record,
    generate_random_username, intro_lines, timestamped_record, DEFAULT_BIND_ADDRESS, EXIT_CODE,
    PROMPT, RANDOM_NAME_LEN, RECV_BUFFER_SIZE,
};
use std::sync::{Arc, Mutex};

fn sent_payload(a: Action) -> String {
    match a {
        Action::Broadcast(p) => p,
        _ => panic!("expected a broadcast"),
    }
}

fn typed(s: &str) -> Event {
    Event::Typed(s.to_string())
}

fn datagram(source: &str, payload: &[u8]) -> Event {
    Event::Datagram { source: source.to_string(), payload: payload.to_vec() }
}

#[test]
fn format_line_joins_label_and_text() {
    assert_eq!(format_line("alice", "hello there"), "alice: hello there");
    assert_eq!(format_line("", ""), ": ");
}

#[test]
fn format_received_labels_with_source() {
    assert_eq!(format_received("192.168.1.5:8888", b"bob: hi"), "192.168.1.5:8888: bob: hi");
}

#[test]
fn format_received_replaces_invalid_utf8() {
    assert_eq!(format_received("10.0.0.2:9000", &[0x68, 0xff, 0x69]), "10.0.0.2:9000: h\u{FFFD}i");
}

#[test]
fn format_received_truncates_to_buffer() {
    let payload = vec![b'a'; 2000];
    let line = format_received("s", &payload);
    assert_eq!(line, format!("s: {}", "a".repeat(RECV_BUFFER_SIZE)));
    let exact = vec![b'b'; RECV_BUFFER_SIZE];
    assert_eq!(format_received("s", &exact), format!("s: {}", "b".repeat(1024)));
}

#[test]
fn decide_line_cases() {
    assert!(matches!(decide_line("bob", ""), InputAction::Prompt));
    assert!(matches!(decide_line("bob", "exit"), InputAction::Exit));
    match decide_line("bob", "hi") {
        InputAction::Send(p) => assert_eq!(p, "bob: hi"),
        _ => panic!("expected a send"),
    }
    match decide_line("bob", "exits") {
        InputAction::Send(p) => assert_eq!(p, "bob: exits"),
        _ => panic!("expected a send"),
    }
}

#[test]
fn handle_input_trims_the_line() {
    match handle_input("bob", "  hi there \n") {
        InputAction::Send(p) => assert_eq!(p, "bob: hi there"),
        _ => panic!("expected a send"),
    }
    assert!(matches!(handle_input("bob", "exit\n"), InputAction::Exit));
    assert!(matches!(handle_input("bob", " \t \n"), InputAction::Prompt));
    assert!(matches!(handle_input("bob", "\n"), InputAction::Prompt));
}

#[test]
fn typed_lines_are_logged_in_order() {
    let mut core = ChatCore::new("alice".to_string());
    let lines = ["one", "two", "three", "four", "five"];
    for l in lines.iter() {
        let p = sent_payload(core.handle(typed(&format!("{}\n", l))));
        assert_eq!(p, format!("alice: {}", l));
    }
    let log = core.log().lines();
    assert_eq!(log.len(), 5);
    for (i, l) in lines.iter().enumerate() {
        assert_eq!(log[i], format!("alice: {}", l));
    }
}

#[test]
fn datagram_entry_is_source_then_text() {
    let mut core = ChatCore::new("alice".to_string());
    assert!(matches!(core.handle(datagram("192.168.0.7:8888", b"bob: hello")), Action::Redraw));
    assert!(matches!(core.handle(datagram("192.168.0.8:40000", &[0xc3, 0x28])), Action::Redraw));
    assert_eq!(core.log().len(), 2);
    assert_eq!(core.log().line(0), "192.168.0.7:8888: bob: hello");
    assert_eq!(core.log().line(1), "192.168.0.8:40000: \u{FFFD}(");
}

#[test]
fn exit_line_ends_regardless_of_pending_messages() {
    let mut core = ChatCore::new("alice".to_string());
    core.handle(datagram("1.2.3.4:8888", b"x: unread"));
    assert!(matches!(core.handle(typed("exit\n")), Action::Exit));
    assert_eq!(EXIT_CODE, 0);
    assert_eq!(core.log().len(), 1);
}

#[test]
fn empty_line_leaves_log_alone() {
    let mut core = ChatCore::new("alice".to_string());
    core.handle(typed("first"));
    let before = core.log().lines();
    assert!(matches!(core.handle(typed("")), Action::Prompt));
    assert!(matches!(core.handle(typed("   \n")), Action::Prompt));
    assert_eq!(core.log().lines(), before);
}

#[test]
fn interleaved_events_are_all_logged_once() {
    let shared = Arc::new(Mutex::new(ChatCore::new("me".to_string())));
    let mut expected: Vec<String> = Vec::new();
    for i in 0..100 {
        let handle = Arc::clone(&shared);
        let mut core = handle.lock().unwrap();
        if i % 3 == 0 {
            let payload = format!("peer: message {}", i);
            core.handle(datagram("10.0.0.9:8888", payload.as_bytes()));
            expected.push(format!("10.0.0.9:8888: peer: message {}", i));
        } else {
            core.handle(typed(&format!("line {}", i)));
            expected.push(format!("me: line {}", i));
        }
    }
    let log = shared.lock().unwrap().log().lines();
    assert_eq!(log.len(), 100);
    assert_eq!(log, expected);
    let mut sorted = log.clone();
    sorted.sort();
    sorted.dedup();
    assert_eq!(sorted.len(), 100);
}

#[test]
fn sending_goes_on_after_receive_failure() {
    let mut core = ChatCore::new("alice".to_string());
    core.handle(datagram("1.1.1.1:8888", b"hey"));
    assert!(core.is_listening());
    assert!(matches!(core.handle(Event::ReceiveFailed), Action::ListenerStopped));
    assert!(!core.is_listening());
    assert_eq!(core.log().len(), 1);
    assert_eq!(sent_payload(core.handle(typed("still here"))), "alice: still here");
    assert_eq!(core.log().len(), 2);
    assert_eq!(core.log().line(1), "alice: still here");
}

#[test]
fn chat_log_basics() {
    let mut log = ChatLog::new();
    assert!(log.is_empty());
    log.append("a: 1".to_string());
    log.append("b: 2".to_string());
    assert!(!log.is_empty());
    assert_eq!(log.len(), 2);
    assert_eq!(log.line(1), "b: 2");
    assert_eq!(log.lines(), vec!["a: 1".to_string(), "b: 2".to_string()]);
}

#[test]
fn chosen_username_is_trimmed_input() {
    assert_eq!(choose_username("  carol \n"), "carol");
}

#[test]
fn empty_username_gets_random_name() {
    let name = choose_username("  \n");
    assert_eq!(name.chars().count(), RANDOM_NAME_LEN);
    assert!(name.chars().all(|c| c.is_ascii_alphanumeric()));
    let other = generate_random_username();
    assert_eq!(other.len(), 8);
    assert!(other.chars().all(|c| c.is_ascii_alphanumeric()));
}

#[test]
fn record_has_bracketed_timestamp() {
    assert_eq!(format_record("2024-01-02 03:04:05", "bob: hi"), "[2024-01-02 03:04:05] bob: hi");
    let r = timestamped_record("bob: hi");
    assert!(r.starts_with('['));
    assert!(r.ends_with("] bob: hi"));
    assert_eq!(r.len(), "[2024-01-02 03:04:05] bob: hi".len());
}

#[test]
fn bind_address_defaults() {
    assert_eq!(bind_address(None), DEFAULT_BIND_ADDRESS);
    assert_eq!(bind_address(None), "0.0.0.0:8888");
    assert_eq!(bind_address(Some("127.0.0.1:9999")), "127.0.0.1:9999");
}

#[test]
fn intro_lines_greet_the_user() {
    let lines = intro_lines("neo");
    assert_eq!(
        lines,
        vec![
            "Wake up, neo...".to_string(),
            "The Matrix has you...".to_string(),
            "Follow the white rabbit.".to_string(),
            "Knock, knock, neo.".to_string(),
        ]
    );
    assert!(PROMPT.contains("'exit'"));
}
