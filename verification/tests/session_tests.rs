use vrmemoir::i18n::Language;
use vrmemoir::session::{
    format_duration, recording_folder_name, sanitize_filename, PlayerEventType, RecordingSession,
};

#[test]
fn sanitize_filename_replaces_forbidden_and_trims() {
    assert_eq!(sanitize_filename("  a/b:c  "), "a_b_c");
    assert_eq!(sanitize_filename("\tx"), "_x");
    assert_eq!(sanitize_filename("w<o>r|d?*\""), "w_o_r_d___");
    let once = sanitize_filename(" x\\y ");
    assert_eq!(sanitize_filename(&once), once);
}

#[test]
fn format_duration_picks_the_largest_unit() {
    assert_eq!(format_duration(Language::En, 3725), "1h2m");
    assert_eq!(format_duration(Language::En, 125), "2m");
    assert_eq!(format_duration(Language::En, 59), "59s");
    assert_eq!(format_duration(Language::Zh, 125), "2分");
}

#[test]
fn folder_name_joins_stamp_and_safe_world() {
    assert_eq!(
        recording_folder_name("2026-03-08 01-14-09", "My:World"),
        "2026-03-08 01-14-09 My_World"
    );
}

#[test]
fn session_rows_and_timeline() {
    let mut s = RecordingSession::start("W", "I", "2026-03-08 01:14:09", 42);
    assert_eq!(s.pid, Some(42));
    let row = s.add_player_event(Language::En, PlayerEventType::Joined, "Bolt", Some("usr_1"), "01:15:14", 65);
    assert_eq!(row, "| 01:15:14 | 01:05 | ➡️ Joined | Bolt | `usr_1` |\n");
    let row2 = s.add_player_event(Language::En, PlayerEventType::Left, "Anon", None, "01:20:00", 3600);
    assert_eq!(row2, "| 01:20:00 | 60:00 | ⬅️ Left | Anon | - |\n");
    assert_eq!(s.events.len(), 2);
    let md = s.generate_timeline_md(Language::En, "2026-03-08 02:14:09", 3725, false);
    let expected = String::new()
        + "# 🎤 Recording Record - W\n\n"
        + "- **Room Name**: W\n"
        + "- **Instance ID**: I\n"
        + "- **Recording Start**: 2026-03-08 01:14:09\n"
        + "- **Recording End**: 2026-03-08 02:14:09\n"
        + "- **Recording Duration**: 62 min 5 sec\n"
        + "- **Audio File**: ❌ Failed to record\n"
        + "\n---\n\n"
        + "## 👥 Player Timeline\n\n"
        + "| Time | Offset | Event | Player Name | User ID |\n"
        + "| ------ | ------ | ------ | --------- | -------- |\n"
        + "| 01:15:14 | 01:05 | ➡️ Joined | Bolt | `usr_1` |\n"
        + "| 01:20:00 | 60:00 | ⬅️ Left | Anon | - |\n";
    assert_eq!(md, expected);
}

#[test]
fn empty_session_timeline_says_no_events() {
    let mut s = RecordingSession::start("W", "I", "S", 1);
    s.set_audio_filename(Some("a.ogg".to_string()));
    let md = s.generate_timeline_md(Language::En, "E", 65, true);
    assert!(md.contains("- **Audio File**: a.ogg\n"));
    assert!(md.contains("- **Recording Duration**: 1 min 5 sec\n"));
    assert!(md.ends_with("*(No player join/leave events in this session)*\n"));
}

#[test]
fn initial_timeline_has_the_empty_table() {
    let s = RecordingSession::start("W", "I", "S", 1);
    let md = s.initial_timeline(Language::En);
    assert!(md.starts_with("\n# 🎤 Recording Record - W\n\n- **Room Name**: W\n"));
    assert!(md.ends_with("| Time | Offset | Event | Player Name | User ID |\n| :--- | :--- | :--- | :--- | :--- |\n"));
}

#[test]
fn finished_names() {
    assert_eq!(RecordingSession::finished_folder_name(Language::En, "2026 W", 3725), "2026 W 1h2m");
    let s = RecordingSession::start("W/x", "I", "S", 1);
    assert_eq!(s.audio_file_name(Language::En, "0308", "01-14", 59), "0308_01-14_W_x_59s.ogg");
}

#[test]
fn a_session_without_process_is_not_alive() {
    let mut s = RecordingSession::start("W", "I", "S", 1);
    s.pid = None;
    assert!(!s.is_alive());
}
