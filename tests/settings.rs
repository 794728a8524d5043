use overhelper::settings::{
    appstate_to_settings, decode_target, encode_target, load_settings_from_json,
    settings_from_fields, settings_to_appstate, settings_to_document, settings_to_json,
    target_from_json, target_tag, Message, OverHelperSettings, SettingsError, SettingsPage,
    SupportedThemes, TargetField,
};
use overhelper::seasons::BattlePassTargets;

fn sample(target: u8) -> OverHelperSettings {
    OverHelperSettings {
        battle_pass_level: 42,
        battle_pass_target: target,
        tank_wins: 1,
        damage_wins: 3,
        support_wins: 0,
        theme: SupportedThemes::Dark,
    }
}

#[test]
fn default_settings_values() {
    let d = OverHelperSettings::default();
    assert_eq!(d.battle_pass_level, 0);
    assert_eq!(d.battle_pass_target, 200);
    assert_eq!((d.tank_wins, d.damage_wins, d.support_wins), (0, 0, 0));
    assert_eq!(d.theme, SupportedThemes::Dark);
}

#[test]
fn save_then_load_round_trips() {
    for target in [80u8, 200, 150, 0, 255, 79] {
        let s = sample(target);
        let text = settings_to_json(&s).unwrap();
        assert_eq!(load_settings_from_json(&text), Ok(s));
    }
}

#[test]
fn loading_mythic_tag_gives_eighty() {
    let text = r#"{"battle_pass": {"level": 3, "target": "mythic"},
                   "roll_mastery": {"tank": 0, "damage": 2, "support": 3}}"#;
    let s = load_settings_from_json(text).unwrap();
    assert_eq!(s.battle_pass_target, 80);
    assert_eq!(s.battle_pass_level, 3);
    assert_eq!((s.tank_wins, s.damage_wins, s.support_wins), (0, 2, 3));
    assert_eq!(s.theme, SupportedThemes::Dark);
}

#[test]
fn saving_two_hundred_writes_prestige_tag() {
    let text = settings_to_json(&sample(200)).unwrap();
    assert!(text.contains("\"target\": \"prestige\""));
    let value: serde_json::Value = serde_json::from_str(&text).unwrap();
    assert_eq!(value["battle_pass"]["level"].as_u64(), Some(42));
    assert_eq!(value["roll_mastery"]["damage"].as_u64(), Some(3));
    let text = settings_to_json(&sample(80)).unwrap();
    assert!(text.contains("\"target\": \"mythic\""));
    let text = settings_to_json(&sample(150)).unwrap();
    assert!(text.contains("\"target\": 150"));
}

#[test]
fn numeric_target_is_taken_literally() {
    let text = r#"{"battle_pass": {"level": 0, "target": 200},
                   "roll_mastery": {"tank": 0, "damage": 0, "support": 0}, "extra": true}"#;
    assert_eq!(load_settings_from_json(text).unwrap().battle_pass_target, 200);
}

#[test]
fn malformed_settings_are_parse_errors() {
    let cases = [
        "not json",
        r#"{"battle_pass": {"level": 0, "target": "prestige"}}"#,
        r#"{"battle_pass": {"target": "prestige"}, "roll_mastery": {"tank": 0, "damage": 0, "support": 0}}"#,
        r#"{"battle_pass": {"level": 0, "target": "legend"}, "roll_mastery": {"tank": 0, "damage": 0, "support": 0}}"#,
        r#"{"battle_pass": {"level": 256, "target": 80}, "roll_mastery": {"tank": 0, "damage": 0, "support": 0}}"#,
        r#"{"battle_pass": {"level": 0, "target": 300}, "roll_mastery": {"tank": 0, "damage": 0, "support": 0}}"#,
        r#"{"battle_pass": {"level": 0, "target": 80}, "roll_mastery": {"tank": 4, "damage": 0, "support": 0}}"#,
        r#"{"battle_pass": {"level": -1, "target": 80}, "roll_mastery": {"tank": 0, "damage": 0, "support": 0}}"#,
    ];
    for text in cases {
        assert_eq!(load_settings_from_json(text), Err(SettingsError::ConfigParse), "{}", text);
    }
}

#[test]
fn fields_build_settings() {
    let s = settings_from_fields(Some(5), Some("prestige".to_string()), None, Some(1), Some(2), Some(3));
    assert_eq!(
        s,
        Ok(OverHelperSettings {
            battle_pass_level: 5,
            battle_pass_target: 200,
            tank_wins: 1,
            damage_wins: 2,
            support_wins: 3,
            theme: SupportedThemes::Dark,
        })
    );
    assert_eq!(settings_from_fields(Some(5), None, Some(99), Some(1), Some(2), Some(3)).unwrap().battle_pass_target, 99);
    assert_eq!(settings_from_fields(None, None, Some(99), Some(1), Some(2), Some(3)), Err(SettingsError::ConfigParse));
    assert_eq!(settings_from_fields(Some(5), None, None, Some(1), Some(2), Some(3)), Err(SettingsError::ConfigParse));
    assert_eq!(settings_from_fields(Some(5), None, Some(9), Some(1), Some(2), None), Err(SettingsError::ConfigParse));
}

#[test]
fn target_field_mapping() {
    assert_eq!(encode_target(200), TargetField::Prestige);
    assert_eq!(encode_target(80), TargetField::Mythic);
    assert_eq!(encode_target(81), TargetField::Level(81));
    for t in 0..=255u8 {
        assert_eq!(decode_target(encode_target(t)), t);
    }
    assert_eq!(target_tag(TargetField::Prestige), Some("prestige"));
    assert_eq!(target_tag(TargetField::Mythic), Some("mythic"));
    assert_eq!(target_tag(TargetField::Level(3)), None);
    assert_eq!(target_from_json(Some("mythic".to_string()), None), Some(TargetField::Mythic));
    assert_eq!(target_from_json(Some("Mythic".to_string()), None), None);
    assert_eq!(target_from_json(None, Some(255)), Some(TargetField::Level(255)));
    assert_eq!(target_from_json(None, Some(256)), None);
    let doc = settings_to_document(&sample(150));
    assert_eq!(doc.target, TargetField::Level(150));
    assert_eq!(doc.level, 42);
}

#[test]
fn appstate_conversions() {
    let mut s = sample(80);
    s.theme = SupportedThemes::Light;
    let app = settings_to_appstate(&s);
    assert_eq!(app.settings_page, None);
    assert_eq!(app.battle_pass_level, 42);
    assert_eq!(app.theme, SupportedThemes::Light);
    assert_eq!(appstate_to_settings(&app), s);
}

#[test]
fn settings_page_opens_on_stored_target() {
    let page = SettingsPage::new(&sample(200));
    assert_eq!(page.battle_pass_target, BattlePassTargets::Prestige);
    assert_eq!(page.battle_pass_custom_target, 200);
    let page = SettingsPage::new(&sample(120));
    assert_eq!(page.battle_pass_target, BattlePassTargets::Custom);
    assert_eq!(page.battle_pass_custom_target, 120);
}

#[test]
fn settings_page_updates() {
    let mut page = SettingsPage::new(&sample(120));
    assert!(page.update(Message::BattlePassTargetChanged(BattlePassTargets::Mythic)));
    assert_eq!(page.battle_pass_custom_target, 80);
    assert_eq!(page.battle_pass_target, BattlePassTargets::Mythic);
    assert!(page.update(Message::BattlePassTargetChanged(BattlePassTargets::Custom)));
    assert_eq!(page.battle_pass_custom_target, 80);
    assert!(page.update(Message::BattlePassCustomLevelChanged("120".to_string())));
    assert_eq!(page.battle_pass_custom_target, 120);
    assert!(page.update(Message::BattlePassCustomLevelChanged("+7".to_string())));
    assert_eq!(page.battle_pass_custom_target, 7);
    assert!(!page.update(Message::BattlePassCustomLevelChanged("256".to_string())));
    assert_eq!(page.battle_pass_custom_target, 0);
    assert!(page.update(Message::BattlePassCustomLevelChanged("009".to_string())));
    assert_eq!(page.battle_pass_custom_target, 9);
    assert!(!page.update(Message::BattlePassCustomLevelChanged("abc".to_string())));
    assert_eq!(page.battle_pass_custom_target, 0);
    assert!(page.update(Message::ThemeChanged(SupportedThemes::Light)));
    assert_eq!(page.theme, SupportedThemes::Light);
    assert_eq!(SupportedThemes::Light.label(), "Light");
    assert_eq!(SupportedThemes::Dark.label(), "Dark");
}

#[test]
fn custom_target_written_as_number_with_other_fields() {
    let s = OverHelperSettings {
        battle_pass_level: 5,
        battle_pass_target: 120,
        tank_wins: 0,
        damage_wins: 1,
        support_wins: 0,
        theme: SupportedThemes::Dark,
    };
    let text = settings_to_json(&s).unwrap();
    let value: serde_json::Value = serde_json::from_str(&text).unwrap();
    let expected: serde_json::Value = serde_json::from_str(
        r#"{"battle_pass":{"level":5,"target":120},"roll_mastery":{"tank":0,"damage":1,"support":0}}"#,
    )
    .unwrap();
    assert_eq!(value, expected);
    assert!(value["battle_pass"]["target"].is_u64());
    assert!(value.get("theme").is_none());
}

#[test]
fn preset_targets_written_as_tags_only() {
    let value: serde_json::Value = serde_json::from_str(&settings_to_json(&sample(80)).unwrap()).unwrap();
    assert_eq!(value["battle_pass"]["target"].as_str(), Some("mythic"));
    assert_eq!(value["battle_pass"]["target"].as_u64(), None);
}

#[test]
fn counters_out_of_range_do_not_read_back() {
    let mut s = sample(150);
    s.tank_wins = 4;
    let text = settings_to_json(&s).unwrap();
    assert_eq!(load_settings_from_json(&text), Err(SettingsError::ConfigParse));
}

#[test]
fn string_custom_target_is_refused() {
    let text = r#"{"battle_pass": {"level": 0, "target": "120"},
                   "roll_mastery": {"tank": 0, "damage": 0, "support": 0}}"#;
    assert_eq!(load_settings_from_json(text), Err(SettingsError::ConfigParse));
}
