use overhelper::progress::{Command, Role};
use overhelper::settings::{
    settings_to_appstate, Message as SettingsMessage, OverHelperSettings, SupportedThemes,
};
use overhelper::seasons::BattlePassTargets;
use overhelper::{Message, OverHelperApp};

fn app(level: u8, target: u8) -> OverHelperApp {
    let mut s = OverHelperSettings::default();
    s.battle_pass_level = level;
    s.battle_pass_target = target;
    settings_to_appstate(&s)
}

#[test]
fn tank_wins_clamp_both_ways() {
    let mut a = app(0, 200);
    for _ in 0..5 {
        a.adjust_role_wins(Role::Tank, 1);
    }
    assert_eq!(a.wins(Role::Tank), 3);
    assert_eq!(a.wins(Role::Damage), 0);
    for _ in 0..5 {
        a.adjust_role_wins(Role::Tank, -1);
    }
    assert_eq!(a.wins(Role::Tank), 0);
    a.adjust_role_wins(Role::Support, 100);
    assert_eq!(a.support_wins, 3);
    a.adjust_role_wins(Role::Damage, 2);
    a.reset_role_wins();
    assert_eq!((a.tank_wins, a.damage_wins, a.support_wins), (0, 0, 0));
}

#[test]
fn set_target_clamps_level_down_only() {
    let mut a = app(80, 200);
    a.set_target(50);
    assert_eq!(a.battle_pass_level, 50);
    assert_eq!(a.battle_pass_target, 50);
    a.set_target(150);
    assert_eq!(a.battle_pass_level, 50);
    assert_eq!(a.battle_pass_target, 150);
    a.set_level(170);
    assert_eq!(a.battle_pass_level, 170);
    a.set_theme(SupportedThemes::Light);
    assert_eq!(a.theme, SupportedThemes::Light);
}

#[test]
fn messages_drive_the_state() {
    let mut a = app(10, 200);
    assert_eq!(a.update(Message::UpdateBattlePassLevel(90)), Command::Nothing);
    assert_eq!(a.battle_pass_level, 90);
    a.update(Message::AdjustRoleWins(Role::Damage, 1));
    assert_eq!(a.damage_wins, 1);
    a.update(Message::ResetRoleWins);
    assert_eq!(a.damage_wins, 0);

    assert_eq!(a.update(Message::ExitSettings), Command::Nothing);
    assert_eq!(a.battle_pass_target, 200);

    a.update(Message::OpenSettings);
    let page = a.settings_page.unwrap();
    assert_eq!(page.battle_pass_target, BattlePassTargets::Prestige);
    assert_eq!(page.battle_pass_custom_target, 200);
    a.update(Message::SettingsMessage(SettingsMessage::BattlePassTargetChanged(BattlePassTargets::Mythic)));
    assert_eq!(
        a.update(Message::SettingsMessage(SettingsMessage::BattlePassCustomLevelChanged("x".to_string()))),
        Command::ReportInvalidTarget
    );
    a.update(Message::SettingsMessage(SettingsMessage::BattlePassCustomLevelChanged("60".to_string())));
    a.update(Message::SettingsMessage(SettingsMessage::ThemeChanged(SupportedThemes::Light)));
    a.update(Message::ExitSettings);
    assert_eq!(a.settings_page, None);
    assert_eq!(a.battle_pass_target, 60);
    assert_eq!(a.battle_pass_level, 60);
    assert_eq!(a.theme, SupportedThemes::Light);

    match a.update(Message::CloseRequested) {
        Command::SaveAndClose(s) => {
            assert_eq!(s.battle_pass_target, 60);
            assert_eq!(s.battle_pass_level, 60);
        }
        other => panic!("unexpected {:?}", other),
    }
}

#[test]
fn subview_messages_without_subview_do_nothing() {
    let mut a = app(10, 200);
    let before = a;
    assert_eq!(
        a.update(Message::SettingsMessage(SettingsMessage::ThemeChanged(SupportedThemes::Light))),
        Command::Nothing
    );
    assert_eq!(a, before);
}

#[test]
fn settings_open_on_current_state() {
    let mut a = app(10, 120);
    a.set_theme(SupportedThemes::Light);
    a.update(Message::OpenSettings);
    let page = a.settings_page.unwrap();
    assert_eq!(page.battle_pass_target, BattlePassTargets::Custom);
    assert_eq!(page.battle_pass_custom_target, 120);
    assert_eq!(page.theme, SupportedThemes::Light);
    a.update(Message::SettingsMessage(SettingsMessage::BattlePassCustomLevelChanged("7".to_string())));
    assert_eq!(a.settings_page.unwrap().battle_pass_custom_target, 7);
}
