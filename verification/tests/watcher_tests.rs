use vrmemoir::watcher::{last_room_offset, latest_log_index, LogEvent, LogWatcher};

fn watcher() -> LogWatcher {
    LogWatcher {
        log_dir: String::new(),
        current_log_file: None,
        last_read_pos: 0,
        incomplete_line: String::new(),
        player_re: r"(.+) \((usr_[a-f0-9-]+)\)".to_string(),
    }
}

#[test]
fn test_parse_timestamp() {
    let line = "2026.03.08 01:14:09 [Behaviour] Entering Room: Test World";
    let ts = LogWatcher::parse_timestamp(line);
    assert_eq!(ts, "2026-03-08T01:14:09");

    let invalid_line = "short line";
    let ts2 = LogWatcher::parse_timestamp(invalid_line);
    assert_eq!(ts2, "");
}

#[test]
fn test_parse_line_world() {
    let watcher = watcher();
    let line = "2026.03.08 01:14:09 [Behaviour] Entering Room: Test World";
    let event = watcher.parse_line(line).unwrap();
    if let LogEvent::Location { world_name, timestamp } = event {
        assert_eq!(world_name, "Test World");
        assert_eq!(timestamp, "2026-03-08T01:14:09");
    } else {
        panic!("Wrong event type");
    }
}

#[test]
fn test_parse_line_joining() {
    let watcher = watcher();
    let line = "2026.03.08 01:14:10 [Behaviour] Joining wrld_12345:67890";
    let event = watcher.parse_line(line).unwrap();
    if let LogEvent::LocationInstance { location, timestamp } = event {
        assert_eq!(location, "wrld_12345:67890");
        assert_eq!(timestamp, "2026-03-08T01:14:10");
    } else {
        panic!("Wrong event type");
    }
}

#[test]
fn test_parse_line_player_joined() {
    let watcher = watcher();
    let line = "2026.03.08 01:14:11 [Behaviour] OnPlayerJoined Bolt (usr_abcd-1234)";
    let event = watcher.parse_line(line).unwrap();
    if let LogEvent::PlayerJoined { display_name, user_id, timestamp } = event {
        assert_eq!(display_name, "Bolt");
        assert_eq!(user_id, Some("usr_abcd-1234".to_string()));
        assert_eq!(timestamp, "2026-03-08T01:14:11");
    } else {
        panic!("Wrong event type");
    }
}

#[test]
fn test_parse_line_player_left() {
    let watcher = watcher();
    let line = "2026.03.08 01:14:12 [Behaviour] OnPlayerLeft Bolt (usr_abcd-1234)";
    let event = watcher.parse_line(line).unwrap();
    if let LogEvent::PlayerLeft { display_name, user_id, timestamp } = event {
        assert_eq!(display_name, "Bolt");
        assert_eq!(user_id, Some("usr_abcd-1234".to_string()));
        assert_eq!(timestamp, "2026-03-08T01:14:12");
    } else {
        panic!("Wrong event type");
    }
}

#[test]
fn test_read_new_lines_incomplete() {
    let mut watcher = watcher();
    watcher.current_log_file = Some("test_logs/output_log_test.txt".to_string());
    let first: &[u8] =
        b"2026.03.08 01:14:09 [Behaviour] Entering Room: World1\n2026.03.08 01:14:10 [Behaviour] Joining ";
    let size = first.len() as u64;
    assert_eq!(watcher.begin_read(size), Some(size));
    let events = watcher.finish_read(size, first);
    assert_eq!(events.len(), 1);
    if let LogEvent::Location { world_name, .. } = &events[0] {
        assert_eq!(world_name, "World1");
    } else {
        panic!("Wrong event");
    }
    assert_eq!(watcher.incomplete_line, "2026.03.08 01:14:10 [Behaviour] Joining ");

    let rest: &[u8] = b"wrld_1234\n";
    let size2 = size + rest.len() as u64;
    assert_eq!(watcher.begin_read(size2), Some(rest.len() as u64));
    let events = watcher.finish_read(size2, rest);
    assert_eq!(events.len(), 1);
    if let LogEvent::LocationInstance { location, .. } = &events[0] {
        assert_eq!(location, "wrld_1234");
    } else {
        panic!("Wrong event");
    }
    assert!(watcher.incomplete_line.is_empty());
    assert_eq!(watcher.last_read_pos, size2);
}

#[test]
fn parse_line_ignores_left_room_and_unknown_lines() {
    let w = watcher();
    assert!(w.parse_line("2026.03.08 01:14:12 [Behaviour] OnPlayerLeftRoom").is_none());
    assert!(w.parse_line("2026.03.08 01:14:12 Debug nothing here").is_none());
}

#[test]
fn parse_line_player_without_user_id() {
    let w = watcher();
    let e = w.parse_line("2026.03.08 01:14:11 [Behaviour] OnPlayerJoined  Someone  ").unwrap();
    if let LogEvent::PlayerJoined { display_name, user_id, .. } = e {
        assert_eq!(display_name, "Someone");
        assert_eq!(user_id, None);
    } else {
        panic!("Wrong event type");
    }
}

#[test]
fn parse_line_voice_ready() {
    let w = watcher();
    let e = w
        .parse_line("2026.03.08 01:14:15 Log - [uSpeak] uSpeak: Start Microphone")
        .unwrap();
    if let LogEvent::VoiceReady { timestamp } = e {
        assert_eq!(timestamp, "2026-03-08T01:14:15");
    } else {
        panic!("Wrong event type");
    }
}

#[test]
fn reading_in_two_pieces_gives_the_same_events() {
    let text: &[u8] = b"2026.03.08 01:14:09 [Behaviour] Entering Room: A\n2026.03.08 01:14:10 [Behaviour] Joining wrld_1:2\n";
    let mut whole = watcher();
    let all = whole.finish_read(text.len() as u64, text);
    let mut split = watcher();
    let mut parts = split.finish_read(30, &text[..30]);
    parts.extend(split.finish_read(text.len() as u64, &text[30..]));
    assert_eq!(all.len(), 2);
    assert_eq!(parts.len(), 2);
    assert_eq!(format!("{:?}", all), format!("{:?}", parts));
    assert_eq!(whole.incomplete_line, split.incomplete_line);
}

#[test]
fn begin_read_restarts_a_truncated_file() {
    let mut w = watcher();
    w.last_read_pos = 100;
    assert_eq!(w.begin_read(40), Some(40));
    assert_eq!(w.last_read_pos, 0);
    w.last_read_pos = 40;
    assert_eq!(w.begin_read(40), None);
}

#[test]
fn follow_latest_switches_files() {
    let mut w = LogWatcher::new("logs".to_string());
    assert!(w.follow_latest(Some("a.txt".to_string())));
    w.last_read_pos = 10;
    assert!(!w.follow_latest(Some("a.txt".to_string())));
    assert_eq!(w.last_read_pos, 10);
    assert!(!w.follow_latest(None));
    assert!(w.follow_latest(Some("b.txt".to_string())));
    assert_eq!(w.last_read_pos, 0);
    assert_eq!(w.current_log_file, Some("b.txt".to_string()));
}

#[test]
fn last_room_offset_finds_the_last_room_line() {
    let content = b"x\n2026.03.08 [Behaviour] Entering Room: A\ny\n2026.03.08 [Behaviour] Entering Room: B\nz\n";
    let second = content
        .windows(b"2026.03.08 [Behaviour] Entering Room: B".len())
        .position(|w| w == b"2026.03.08 [Behaviour] Entering Room: B")
        .unwrap() as u64;
    assert_eq!(last_room_offset(content), second);
    assert_eq!(last_room_offset(b"nothing here\n"), 0);
}

#[test]
fn latest_log_index_picks_the_newest_log() {
    let names = vec![
        "output_log_1.txt".to_string(),
        "notes.txt".to_string(),
        "output_log_2.txt".to_string(),
    ];
    assert_eq!(latest_log_index(&names, &[Some(5), Some(100), Some(7)]), Some(2));
    assert_eq!(latest_log_index(&names, &[Some(9), Some(100), Some(7)]), Some(0));
    assert_eq!(latest_log_index(&names[1..2], &[Some(1)]), None);
}

#[test]
fn last_room_offset_reads_past_a_line_that_is_not_utf8() {
    let content: &[u8] = b"x\n[Behaviour] Entering Room: A\n\xff\n[Behaviour] Entering Room: B\n";
    assert_eq!(last_room_offset(content), 33);
}
