use vrmemoir::bio::{
    bio_file_name, find_existing_bio_file, format_field, generate_md_body, profile_text,
    render_bio_page, safe_file_stem, translate_key, BioRateLimiter, FieldValue, JsonItem,
};
use vrmemoir::i18n::Language;

const ALLOWED: [&str; 9] = [
    "id",
    "displayName",
    "date_joined",
    "currentAvatarImageUrl",
    "bioLinks",
    "bio",
    "badges",
    "ageVerificationStatus",
    "ageVerified",
];
const PRIORITY: [&str; 3] = ["displayName", "bio", "bioLinks"];

fn text(s: &str) -> FieldValue {
    FieldValue::Text(s.to_string())
}

#[test]
fn keys_are_translated() {
    assert_eq!(translate_key(Language::En, "bio"), "Bio");
    assert_eq!(translate_key(Language::En, "id"), "User ID");
    assert_eq!(translate_key(Language::En, "custom"), "custom");
}

#[test]
fn bio_text_keeps_its_lines() {
    assert_eq!(
        format_field(Language::En, "bio", &text("a\nb")),
        vec!["**Bio**: ", "", "a  ", "b  ", ""]
    );
}

#[test]
fn other_texts_use_line_breaks() {
    assert_eq!(
        format_field(Language::En, "displayName", &text("x\ny")),
        vec!["**Name**: x<br>y", ""]
    );
}

#[test]
fn lists_and_objects() {
    assert_eq!(
        format_field(Language::En, "bioLinks", &FieldValue::Array(vec![])),
        vec!["**Bio Links**: None", ""]
    );
    let items = vec![
        JsonItem::Object {
            text: "{\"badgeName\":\"B\"}".to_string(),
            badge_name: Some("B".to_string()),
            badge_description: Some("d".to_string()),
            name: None,
            group_id: None,
            description: None,
        },
        JsonItem::Object {
            text: "{\"x\":1}".to_string(),
            badge_name: None,
            badge_description: None,
            name: None,
            group_id: None,
            description: None,
        },
        JsonItem::Text("t".to_string()),
        JsonItem::Other("3".to_string()),
    ];
    assert_eq!(
        format_field(Language::En, "badges", &FieldValue::Array(items)),
        vec!["**Badges**: ", "", "- **B**: d", "- {\"x\":1}", "- t", "- 3", ""]
    );
    assert_eq!(
        format_field(Language::En, "k", &FieldValue::Object("{\n  \"a\": 1\n}".to_string())),
        vec!["**k**: ", "", "```json", "{", "  \"a\": 1", "}", "```", ""]
    );
}

#[test]
fn scalars_lose_their_quotes() {
    assert_eq!(
        format_field(Language::En, "ageVerified", &FieldValue::Scalar("true".to_string())),
        vec!["**Age Verified**: true", ""]
    );
    assert_eq!(
        format_field(Language::En, "k", &FieldValue::Scalar("\"q\"".to_string())),
        vec!["**k**: q", ""]
    );
}

#[test]
fn body_puts_priority_fields_first() {
    let fields = Some(vec![
        ("id".to_string(), text("usr_1")),
        ("bio".to_string(), text("b")),
        ("displayName".to_string(), text("N")),
        ("unlisted".to_string(), text("u")),
    ]);
    assert_eq!(
        generate_md_body(Language::En, &fields, &ALLOWED, &PRIORITY),
        vec!["**Name**: N", "", "**Bio**: ", "", "b  ", "", "**User ID**: usr_1", ""]
    );
    assert!(generate_md_body(Language::En, &None, &ALLOWED, &PRIORITY).is_empty());
}

#[test]
fn page_lines_and_file_name() {
    let fields = Some(vec![
        ("displayName".to_string(), text(" A/B ")),
        (
            "groups".to_string(),
            FieldValue::Array(vec![
                JsonItem::Object {
                    text: String::new(),
                    badge_name: None,
                    badge_description: None,
                    name: Some("G".to_string()),
                    group_id: Some("grp_1".to_string()),
                    description: Some("l1\nl2".to_string()),
                },
                JsonItem::Text("odd".to_string()),
            ]),
        ),
    ]);
    let page = render_bio_page(Language::En, &fields, "2026-03-08 01:14:09");
    assert_eq!(page.safe_name, "A_B");
    assert_eq!(page.bio_end_line, 4);
    assert_eq!(page.groups_start_line, 9);
    assert_eq!(page.groups_end_line, 25);
    let expected = [
        "# Player Info",
        "",
        "**Name**:  A/B ",
        "",
        "---",
        "> Retrieval Time: 2026-03-08 01:14:09",
        "---",
        "",
        "# Groups",
        "",
        "## G",
        "- **Group ID**: `grp_1`",
        "- **Description**:",
        "> l1\n> l2",
        "",
        "---",
        "",
        "## N/A",
        "- **Group ID**: `N/A`",
        "- **Description**:",
        "> ",
        "",
        "---",
        "",
    ]
    .join("\n");
    assert_eq!(page.content, expected);
    assert_eq!(page.groups_end_line, page.content.split('\n').count());
    assert_eq!(bio_file_name(&page), "A_B_L1-L4_BIO_L9-L25_GROUPS.md");
}

#[test]
fn a_profile_without_name_is_unknown_user() {
    let page = render_bio_page(Language::En, &None, "t");
    assert_eq!(page.safe_name, "unknown_user");
    assert_eq!(page.bio_end_line, 2);
    assert_eq!(bio_file_name(&page), "unknown_user_L1-L2_BIO_L7-L8_GROUPS.md");
}

#[test]
fn safe_stem_uses_the_forbidden_class() {
    assert_eq!(safe_file_stem("  a\\b/c:d*e?f\"g<h>i|j  "), "a_b_c_d_e_f_g_h_i_j");
}

#[test]
fn existing_page_is_found_by_name() {
    let names = vec![
        "x.md".to_string(),
        "A_B_L1-L9.txt".to_string(),
        "A_B_L1-L4_BIO_L9-L17_GROUPS.md".to_string(),
    ];
    assert_eq!(find_existing_bio_file(&names, " A/B "), Some(2));
    assert_eq!(find_existing_bio_file(&names, "C"), None);
}

#[test]
fn another_users_page_is_not_taken() {
    let names = vec![
        "XBolt_L1-L4_BIO_L9-L17_GROUPS.md".to_string(),
        "Bolt_L1-L4_BIO_L9-L17_GROUPS.md".to_string(),
    ];
    assert_eq!(find_existing_bio_file(&names, "Bolt"), Some(1));
    assert_eq!(find_existing_bio_file(&names[..1], "Bolt"), None);
}

#[test]
fn text_fields_with_defaults() {
    let fields = Some(vec![("bio".to_string(), FieldValue::Scalar("1".to_string()))]);
    assert_eq!(profile_text(&fields, "bio", ""), "");
    assert_eq!(profile_text(&fields, "displayName", "Unknown"), "Unknown");
    let f2 = Some(vec![("displayName".to_string(), text("N"))]);
    assert_eq!(profile_text(&f2, "displayName", "Unknown"), "N");
}

#[test]
fn fetches_are_rate_limited() {
    let s = 1_000_000_000u64;
    let mut l = BioRateLimiter::new();
    assert!(l.check_rate_limit("u", 0).is_ok());
    assert_eq!(
        l.check_rate_limit("v", s).unwrap_err(),
        "Rate limit reached: Minimum 6s between any BIO fetches"
    );
    assert_eq!(l.check_rate_limit("u", 7 * s).unwrap_err(), "Rate limit reached for user u (1/min)");
    assert_eq!(l.last_global_fetch, Some(7 * s));
    assert!(l.check_rate_limit("v", 14 * s).is_ok());
    assert!(l.check_rate_limit("u", 61 * s).is_ok());
    assert_eq!(l.user_requests.get("u"), Some(61 * s));
}
