use vrmemoir::fsm::{instance_part, pick_bio_candidate, AppFsm, AppState, FsmAction};
use vrmemoir::i18n::Language;
use vrmemoir::stamps::StampMap;
use vrmemoir::watcher::LogEvent;

fn world_of(f: &AppFsm) -> Option<String> {
    match &f.state {
        AppState::InWorld { world_name } => Some(world_name.clone()),
        AppState::Recording { world_name, .. } => Some(world_name.clone()),
        AppState::Idle => None,
    }
}

#[test]
fn instance_part_takes_the_second_field() {
    assert_eq!(instance_part("wrld_1:2~x:y"), "2~x");
    assert_eq!(instance_part("wrld_1:2~x"), "2~x");
    assert_eq!(instance_part("wrld_1"), "");
}

#[test]
fn joining_an_instance_asks_to_record() {
    let mut f = AppFsm::new(Language::En);
    let acts = f.apply_event(
        LogEvent::Location { world_name: "Home".to_string(), timestamp: String::new() },
        None,
        "",
        0,
    );
    assert!(acts.is_empty());
    assert_eq!(world_of(&f), Some("Home".to_string()));
    let acts = f.on_location_instance("wrld_1:2~x", Some(7));
    assert_eq!(acts.len(), 1);
    match &acts[0] {
        FsmAction::StartRecording { world_name, instance_id, pid } => {
            assert_eq!(world_name, "Home");
            assert_eq!(instance_id, "2~x");
            assert_eq!(*pid, 7);
        }
        other => panic!("unexpected {:?}", other),
    }
    assert!(matches!(f.state, AppState::InWorld { .. }));
}

#[test]
fn no_instance_id_and_no_world_use_unknown_names() {
    let mut f = AppFsm::new(Language::En);
    let acts = f.on_location_instance("wrld_1", Some(3));
    match &acts[0] {
        FsmAction::StartRecording { world_name, instance_id, .. } => {
            assert_eq!(world_name, "Unknown World");
            assert_eq!(instance_id, "Unknown Instance");
        }
        other => panic!("unexpected {:?}", other),
    }
    let acts = f.on_location_instance("wrld_1:5", None);
    assert!(acts.is_empty());
}

#[test]
fn a_recording_session_collects_players_and_ends() {
    let mut f = AppFsm::new(Language::En);
    f.on_location("Home".to_string());
    f.on_location_instance("wrld_1:9", Some(7));
    f.start_recording("9", "2026-03-08 01:14:09", 7);
    assert!(matches!(f.state, AppState::Recording { .. }));
    let acts = f.on_player_joined(
        "Bolt".to_string(),
        Some("usr_1".to_string()),
        "2026-03-08T01:15:00".to_string(),
        "01:15:00",
        51,
    );
    assert_eq!(acts.len(), 3);
    match &acts[0] {
        FsmAction::AppendTimelineRow { row } => {
            assert_eq!(row, "| 01:15:00 | 00:51 | ➡️ Joined | Bolt | `usr_1` |\n")
        }
        other => panic!("unexpected {:?}", other),
    }
    match &acts[2] {
        FsmAction::StartVisit { user_id, world_name, instance_id, joined_at } => {
            assert_eq!(user_id, "usr_1");
            assert_eq!(world_name, "Home");
            assert_eq!(instance_id, "9");
            assert_eq!(joined_at, "2026-03-08T01:15:00");
        }
        other => panic!("unexpected {:?}", other),
    }
    let acts = f.on_player_left("Bolt".to_string(), Some("usr_1".to_string()), "t2".to_string(), "01:16:00", 111);
    assert_eq!(acts.len(), 2);
    assert!(matches!(&acts[1], FsmAction::EndVisit { user_id, left_at } if user_id == "usr_1" && left_at == "t2"));
    f.on_location("Other".to_string());
    match &f.state {
        AppState::Recording { world_name, session, .. } => {
            assert_eq!(world_name, "Other");
            assert_eq!(session.world_name, "Other");
            assert_eq!(session.events.len(), 2);
        }
        _ => panic!("not recording"),
    }
    let acts = f.shutdown();
    assert_eq!(acts.len(), 1);
    match &acts[0] {
        FsmAction::FinishSession { session, reason } => {
            assert_eq!(reason, "程序退出");
            assert_eq!(session.events.len(), 2);
        }
        other => panic!("unexpected {:?}", other),
    }
    assert!(matches!(f.state, AppState::Idle));
    assert!(f.shutdown().is_empty());
}

#[test]
fn switching_rooms_ends_the_recording() {
    let mut f = AppFsm::new(Language::En);
    f.on_location("Home".to_string());
    f.on_location_instance("wrld_1:9", Some(7));
    f.start_recording("9", "s", 7);
    let acts = f.on_location_instance("wrld_2:3", Some(7));
    assert_eq!(acts.len(), 2);
    assert!(matches!(&acts[0], FsmAction::FinishSession { reason, .. } if reason == "切换房间"));
    match &acts[1] {
        FsmAction::StartRecording { world_name, instance_id, .. } => {
            assert_eq!(world_name, "Home");
            assert_eq!(instance_id, "3");
        }
        other => panic!("unexpected {:?}", other),
    }
    assert_eq!(world_of(&f), Some("Home".to_string()));
}

#[test]
fn a_dead_process_ends_the_recording() {
    let mut f = AppFsm::new(Language::En);
    f.on_location("Home".to_string());
    f.on_location_instance("wrld_1:9", Some(7));
    f.start_recording("9", "s", 7);
    assert!(f.process_checked(true).is_empty());
    let acts = f.process_checked(false);
    assert!(matches!(&acts[0], FsmAction::FinishSession { reason, .. } if reason == "VRChat 退出"));
    assert!(matches!(f.state, AppState::Idle));
}

#[test]
fn a_session_without_a_process_ends_at_the_process_check() {
    let mut f = AppFsm::new(Language::En);
    f.on_location("Home".to_string());
    f.on_location_instance("wrld_1:9", Some(7));
    f.start_recording("9", "s", 7);
    if let AppState::Recording { session, .. } = &mut f.state {
        session.pid = None;
    }
    let acts = f.check_process_alive();
    assert_eq!(acts.len(), 1);
    assert!(matches!(&acts[0], FsmAction::FinishSession { reason, .. } if reason == "VRChat 退出"));
    assert!(matches!(f.state, AppState::Idle));
    assert!(f.check_process_alive().is_empty());
}

#[test]
fn players_outside_a_recording_only_reach_the_database() {
    let mut f = AppFsm::new(Language::En);
    let acts = f.on_player_joined("A".to_string(), Some("usr_a".to_string()), "t".to_string(), "c", 0);
    assert_eq!(acts.len(), 2);
    match &acts[1] {
        FsmAction::StartVisit { world_name, instance_id, .. } => {
            assert_eq!(world_name, "Unknown World");
            assert_eq!(instance_id, "Unknown Instance");
        }
        other => panic!("unexpected {:?}", other),
    }
    assert!(f.on_player_left("A".to_string(), None, "t".to_string(), "c", 0).is_empty());
}

#[test]
fn pacing_skips_users_cooling_down() {
    let missing = vec![
        ("usr_a".to_string(), "A".to_string()),
        ("usr_b".to_string(), "B".to_string()),
    ];
    let mut cooldown = StampMap::new();
    assert_eq!(pick_bio_candidate(&missing, &cooldown, 0), Some(0));
    cooldown.set("usr_a", 1_000);
    assert_eq!(pick_bio_candidate(&missing, &cooldown, 2_000), Some(1));
    cooldown.set("usr_b", 1_000);
    assert_eq!(pick_bio_candidate(&missing, &cooldown, 1_000 + 60_000_000_000), None);
    assert_eq!(pick_bio_candidate(&missing, &cooldown, 1_001 + 60_000_000_000), Some(0));
    cooldown.remove("usr_a");
    assert_eq!(pick_bio_candidate(&missing, &cooldown, 5_000), Some(0));
}
