use vrmemoir::i18n::Language;
use vrmemoir::report::{
    build_timeline, build_user_snapshot, escape_table, format_bio_detail, format_status_detail,
    normalize_table_prefix, render_markdown, report_display_name, report_file_name, sanitize_name,
    summarize_bio, table_name, value_to_string, Badge, FeedRows, GroupInfo, JsonField,
    ProfileView, SnapshotRows, TimelineEvent, TimelineKind, UserSnapshot,
};

fn empty_rows() -> FeedRows {
    FeedRows { gps: vec![], online: vec![], bio: vec![], status: vec![], avatar: vec![] }
}

fn empty_snapshot() -> UserSnapshot {
    UserSnapshot { display_name: None, bio: None, current_avatar_image_url: None, group_names: vec![] }
}

#[test]
fn labels_of_kinds() {
    assert_eq!(TimelineKind::Location.label(), "位置");
    assert_eq!(TimelineKind::Online.label(), "上线");
    assert_eq!(TimelineKind::Offline.label(), "下线");
    assert_eq!(TimelineKind::Bio.label(), "简介");
    assert_eq!(TimelineKind::Status.label(), "状态");
    assert_eq!(TimelineKind::Avatar.label(), "模型");
}

#[test]
fn table_prefix_keeps_ascii_letters_and_digits() {
    assert_eq!(normalize_table_prefix("usr_893713c7-1e96-44fc"), "usr893713c71e9644fc");
    assert_eq!(table_name("usr1", "feed_gps"), "usr1_feed_gps");
}

#[test]
fn sanitize_name_is_safe_and_stable() {
    assert_eq!(sanitize_name("  a/b  "), "a_b");
    assert_eq!(sanitize_name("   "), "unknown_user");
    assert_eq!(sanitize_name(""), "unknown_user");
    let s = sanitize_name(" x:y*z ");
    assert_eq!(s, "x_y_z");
    assert_eq!(sanitize_name(&s), s);
}

#[test]
fn escape_table_escapes_pipes() {
    assert_eq!(escape_table("a|b"), "a\\|b");
    assert_eq!(escape_table(""), "");
}

#[test]
fn summarize_bio_takes_the_first_non_blank_line() {
    assert_eq!(summarize_bio("\n   \n  first | line  \nsecond"), "first / line");
    assert_eq!(summarize_bio(""), "");
    let long = "abcdefghijklmnopqrstuvwxyz0123456789";
    assert_eq!(summarize_bio(long), "abcdefghijklmnopqrstuvwxyz012345...");
    let exactly = "abcdefghijklmnopqrstuvwxyz012345";
    assert_eq!(summarize_bio(exactly), exactly);
}

#[test]
fn bio_details() {
    assert_eq!(format_bio_detail("new", ""), "新增: new");
    assert_eq!(format_bio_detail("", "old"), "清空: old");
    assert_eq!(format_bio_detail("a", "b"), "由「b」改为「a」");
    assert_eq!(format_bio_detail("  ", "\n"), "简介已变更");
}

#[test]
fn status_details() {
    assert_eq!(format_status_detail("join me", "  hi "), "[跟随我] hi");
    assert_eq!(format_status_detail("active", ""), "[在线]");
    assert_eq!(format_status_detail("ask me", " "), "[请先询问]");
    assert_eq!(format_status_detail("busy", "x"), "[忙碌] x");
    assert_eq!(format_status_detail("offline", ""), "[离线]");
    assert_eq!(format_status_detail("custom", ""), "[custom]");
}

#[test]
fn json_values_as_text() {
    assert_eq!(value_to_string(Language::En, &JsonField::Null), "None");
    assert_eq!(value_to_string(Language::En, &JsonField::Text("x".to_string())), "x");
    assert_eq!(value_to_string(Language::En, &JsonField::Raw("true".to_string())), "true");
}

#[test]
fn timeline_is_newest_first_and_stable() {
    let mut rows = empty_rows();
    rows.gps = vec![
        ("2026-03-01T10:00:00Z".to_string(), Some("World A".to_string())),
        ("2026-03-02T10:00:00Z".to_string(), None),
    ];
    rows.online = vec![
        ("2026-03-03T10:00:00+00:00".to_string(), "Online".to_string()),
        ("2026-03-03T09:00:00Z".to_string(), "Away".to_string()),
    ];
    rows.bio = vec![
        ("2026-03-01T10:00:00Z".to_string(), Some("new".to_string()), Some("old".to_string())),
        ("2026-03-04T10:00:00Z".to_string(), Some("same".to_string()), Some("same".to_string())),
    ];
    rows.status = vec![("2026-03-02T12:00:00+02:00".to_string(), Some("busy".to_string()), None)];
    rows.avatar = vec![("2026-03-05T00:00:00Z".to_string(), Some("Robot|X".to_string()))];
    let events = build_timeline(&rows).unwrap();
    let kinds: Vec<TimelineKind> = events.iter().map(|e| e.kind).collect();
    assert_eq!(
        kinds,
        vec![
            TimelineKind::Avatar,
            TimelineKind::Online,
            TimelineKind::Status,
            TimelineKind::Location,
            TimelineKind::Bio,
        ]
    );
    assert_eq!(events[0].detail, "Robot|X");
    assert_eq!(events[2].detail, "[忙碌]");
    assert_eq!(events[3].detail, "World A");
    assert_eq!(events[4].detail, "由「old」改为「new」");
    assert_eq!(events[3].occurred_secs, events[4].occurred_secs);
    assert_eq!(events[2].occurred_secs, 1772445600);
}

#[test]
fn timeline_reports_the_first_bad_timestamp() {
    let mut rows = empty_rows();
    rows.gps = vec![("not a time".to_string(), Some("W".to_string()))];
    rows.avatar = vec![("also bad".to_string(), Some("A".to_string()))];
    let err = build_timeline(&rows).unwrap_err();
    assert_eq!(err, "Invalid VRCX timestamp: not a time");
    let mut skipped = empty_rows();
    skipped.gps = vec![("not a time".to_string(), None)];
    assert!(build_timeline(&skipped).unwrap().is_empty());
}

#[test]
fn event_constructor_parses_rfc3339() {
    let e = TimelineEvent::new("1970-01-01T00:01:00.5Z".to_string(), TimelineKind::Bio, "d".to_string()).unwrap();
    assert_eq!(e.occurred_secs, 60);
    assert_eq!(e.occurred_nanos, 500_000_000);
    let clock: Vec<char> = e.local_time.chars().collect();
    assert_eq!(clock.len(), 14);
    assert_eq!((clock[2], clock[5], clock[8], clock[11]), ('/', ' ', ':', ':'));
    assert!(clock.iter().enumerate().all(|(i, c)| [2, 5, 8, 11].contains(&i) || c.is_ascii_digit()));
    assert!(TimelineEvent::new("1970-01-01".to_string(), TimelineKind::Bio, String::new()).is_err());
}

#[test]
fn snapshot_merges_names_and_groups() {
    let rows = SnapshotRows {
        bio: Some((None, Some("hello".to_string()))),
        avatar: Some((Some("FromAvatar".to_string()), Some("http://img".to_string()))),
        gps: vec![
            (Some("FromGps".to_string()), "G1".to_string()),
            (None, "G2".to_string()),
            (None, "G1".to_string()),
        ],
        online_name: Some("FromOnline".to_string()),
    };
    let s = build_user_snapshot(&rows);
    assert_eq!(s.display_name, Some("FromAvatar".to_string()));
    assert_eq!(s.bio, Some("hello".to_string()));
    assert_eq!(s.current_avatar_image_url, Some("http://img".to_string()));
    assert_eq!(s.group_names, vec!["G1".to_string(), "G2".to_string()]);
    let only_online = SnapshotRows { bio: None, avatar: None, gps: vec![], online_name: Some("O".to_string()) };
    assert_eq!(build_user_snapshot(&only_online).display_name, Some("O".to_string()));
}

#[test]
fn report_without_profile_or_records() {
    let fallback = empty_snapshot();
    let r = render_markdown(Language::En, "usr_1", "Bolt", &None, &fallback, &[], "2026年3月8日", "2026/3/8 01:14:09");
    assert_eq!(r.total_lines, 42);
    assert_eq!(r.profile_end_line, 26);
    assert_eq!(r.timeline_start_line, 31);
    assert_eq!(r.timeline_end_line, 36);
    assert_eq!(r.groups_start_line, 40);
    assert_eq!(r.groups_end_line, 42);
    let lines: Vec<&str> = r.content.split('\n').collect();
    assert_eq!(lines.len(), 42);
    assert_eq!(lines[0], "# Player Info");
    assert_eq!(lines[2], "**Name**: Bolt");
    assert_eq!(lines[6], "None");
    assert_eq!(lines[12], "**User ID**: usr_1");
    assert_eq!(lines[27], "> 检索时间: 2026年3月8日");
    assert_eq!(lines[30], "user_report_timeline_title");
    assert_eq!(lines[33], "**user_report_generated_at**: 2026/3/8 01:14:09");
    assert_eq!(lines[35], "user_report_no_timeline");
    assert_eq!(lines[39], "# Groups");
    assert_eq!(lines[41], "None");
    assert_eq!(
        report_file_name("Bolt", &r),
        "Bolt_L1-L42_PROFILE_L1-L26_TIMELINE_L31-L36_GROUPS_L40-L42.md"
    );
}

#[test]
fn report_with_profile_and_records() {
    let profile = ProfileView {
        display_name: Some("Bolt".to_string()),
        bio: Some("line1\nline2".to_string()),
        bio_links: Some(vec![Some("https://a".to_string()), None]),
        date_joined: Some("2020-01-01".to_string()),
        current_avatar_image_url: None,
        badges: Some(vec![
            Badge { name: Some("Supporter".to_string()), description: Some("VRC+".to_string()) },
            Badge { name: None, description: Some("x".to_string()) },
        ]),
        age_verification_status: Some(JsonField::Text("18+".to_string())),
        age_verified: Some(JsonField::Raw("true".to_string())),
        groups: Some(vec![GroupInfo {
            name: Some("Club".to_string()),
            group_id: None,
            description: Some("d1\nd2".to_string()),
        }]),
    };
    let fallback = UserSnapshot {
        display_name: None,
        bio: None,
        current_avatar_image_url: Some("http://fallback".to_string()),
        group_names: vec!["Ignored".to_string()],
    };
    let mut rows = empty_rows();
    rows.avatar = vec![("2026-03-05T00:00:00Z".to_string(), Some("Robot|X".to_string()))];
    let events = build_timeline(&rows).unwrap();
    let name = report_display_name("usr_1", &Some(profile.clone_for_test()), &fallback);
    assert_eq!(name, "Bolt");
    let r = render_markdown(Language::En, "usr_1", &name, &Some(profile), &fallback, &events, "d", "g");
    let lines: Vec<&str> = r.content.split('\n').collect();
    assert_eq!(lines[6], "line1  ");
    assert_eq!(lines[7], "line2  ");
    assert_eq!(lines[11], "- https://a");
    assert_eq!(lines[13], "**User ID**: usr_1");
    assert_eq!(lines[15], "**Registration Date**: 2020-01-01");
    assert_eq!(lines[17], "**Avatar Image**: http://fallback");
    assert_eq!(lines[21], "- **Supporter**: VRC+");
    assert_eq!(lines[23], "**Age Verification Status**: 18+");
    assert_eq!(lines[25], "**Age Verified**: true");
    assert_eq!(r.profile_end_line, 27);
    let t = r.timeline_start_line - 1;
    assert_eq!(lines[t], "user_report_timeline_title");
    assert_eq!(lines[t + 5], "| user_report_table_time | user_report_table_type | user_report_table_detail |");
    assert_eq!(lines[t + 6], "| ------------ | ---- | -------- |");
    assert!(lines[t + 7].starts_with("| "));
    assert!(lines[t + 7].ends_with(" | 模型 | Robot\\|X |"));
    assert_eq!(r.timeline_end_line, t + 8);
    let g = r.groups_start_line - 1;
    assert_eq!(lines[g], "# Groups");
    assert_eq!(lines[g + 2], "## Club");
    assert_eq!(lines[g + 3], "- **Group ID**: `N/A`");
    assert_eq!(lines[g + 4], "- **Description**:");
    assert_eq!(lines[g + 5], "> d1");
    assert_eq!(lines[g + 6], "> d2");
    assert_eq!(r.groups_end_line, r.total_lines);
}

trait CloneForTest {
    fn clone_for_test(&self) -> Self;
}

impl CloneForTest for ProfileView {
    fn clone_for_test(&self) -> Self {
        ProfileView {
            display_name: self.display_name.clone(),
            bio: None,
            bio_links: None,
            date_joined: None,
            current_avatar_image_url: None,
            badges: None,
            age_verification_status: None,
            age_verified: None,
            groups: None,
        }
    }
}

#[test]
fn display_name_falls_back_to_the_user_id() {
    let fallback = empty_snapshot();
    assert_eq!(report_display_name("usr_9", &None, &fallback), "usr_9");
    let fb = UserSnapshot { display_name: Some("Known".to_string()), ..empty_snapshot() };
    assert_eq!(report_display_name("usr_9", &None, &fb), "Known");
}
