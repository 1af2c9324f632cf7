use vrmemoir::i18n::{format_translation, language_of_locale, t0, t1, t2, translate, Language};

#[test]
fn from_locale_reads_the_language_part() {
    assert_eq!(Language::from_locale("zh-CN"), Language::Zh);
    assert_eq!(Language::from_locale("ZH-cn"), Language::Zh);
    assert_eq!(Language::from_locale("ja-JP"), Language::Ja);
    assert_eq!(Language::from_locale("ko"), Language::Ko);
    assert_eq!(Language::from_locale("en-US"), Language::En);
    assert_eq!(Language::from_locale("fr-FR"), Language::En);
}

#[test]
fn from_code_defaults_to_english() {
    assert_eq!(Language::from_code("zh"), Language::Zh);
    assert_eq!(Language::from_code("de"), Language::En);
}

#[test]
fn translate_falls_back_to_english_then_the_key() {
    assert_eq!(translate(Language::En, "no_data"), "None");
    assert_eq!(translate(Language::Zh, "no_data"), "无");
    assert_eq!(translate(Language::Zh, "definitely_missing_key"), "definitely_missing_key");
}

#[test]
fn format_translation_fills_placeholders_in_order() {
    let args = vec!["1".to_string(), "2".to_string()];
    assert_eq!(format_translation("{}h{}m", &args), "1h2m");
    assert_eq!(format_translation("a {} b", &[]), "a {} b");
    assert_eq!(format_translation("{x} and {y} and {}", &args[..1]), "1 and {y} and {}");
    assert_eq!(format_translation("open { brace", &args), "open { brace");
}

#[test]
fn messages_with_arguments() {
    assert_eq!(t0(Language::En, "unknown_world"), "Unknown World");
    assert_eq!(t1(Language::En, "world", "Home"), "World: Home");
    assert_eq!(t2(Language::En, "player_joined", "Bolt", " (usr_1)"), "Joined: Bolt (usr_1)");
}

#[test]
fn a_missing_locale_is_english() {
    assert_eq!(language_of_locale(None), Language::En);
    assert_eq!(language_of_locale(Some("KO-kr")), Language::Ko);
    assert_eq!(language_of_locale(Some("ja")), Language::Ja);
    assert_eq!(language_of_locale(Some("fr-FR")), Language::En);
}
