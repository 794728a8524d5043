use chrono::TimeZone;
use overhelper::seasons::{
    current_season_info, get_current_season_number,
    get_current_season_start, get_days_remaining, get_levels_required_per_day, BattlePassTargets,
    SEASON_LENGTH, SEASON_ONE_START,
};

const DAY: i64 = 86400;
const SEASON: i64 = 63 * DAY;

#[test]
fn first_season_start_is_october_fourth_2022() {
    let start = chrono::Utc.with_ymd_and_hms(2022, 10, 4, 0, 0, 0).unwrap().timestamp();
    assert_eq!(start, SEASON_ONE_START);
    assert_eq!(SEASON_LENGTH, 63);
}

#[test]
fn season_scenario_at_epoch_and_one_season_later() {
    let epoch = SEASON_ONE_START;
    let info = current_season_info(epoch, epoch);
    assert_eq!(info.season_number, 1);
    assert_eq!(info.days_remaining, 63);
    assert_eq!(info.season_start, epoch);

    let later = chrono::Utc.with_ymd_and_hms(2022, 12, 6, 0, 0, 0).unwrap().timestamp();
    assert_eq!(later, epoch + SEASON);
    let info = current_season_info(epoch, later);
    assert_eq!(info.season_number, 2);
    assert_eq!(info.days_remaining, 63);
    assert_eq!(info.season_start, later);
}

#[test]
fn season_numbers_at_first_two_starts() {
    assert_eq!(get_current_season_number(0, 0), 1);
    assert_eq!(get_current_season_number(0, SEASON), 2);
    assert_eq!(get_current_season_number(SEASON_ONE_START, SEASON_ONE_START + SEASON), 2);
}

#[test]
fn season_start_brackets_now() {
    let epoch = SEASON_ONE_START;
    for now in [epoch, epoch + 1, epoch + SEASON - 1, epoch + SEASON, epoch + 5 * SEASON + 12345, i64::MAX] {
        let start = get_current_season_start(epoch, now);
        assert!(start <= now);
        assert!((now as i128) < start as i128 + SEASON as i128);
        assert_eq!((start - epoch) % SEASON, 0);
    }
}

#[test]
fn days_remaining_counts_whole_days() {
    let epoch = SEASON_ONE_START;
    assert_eq!(get_days_remaining(epoch, epoch + 10 * DAY + 5 * 3600), 53);
    assert_eq!(get_days_remaining(epoch, epoch + SEASON - 1), 1);
    assert_eq!(get_days_remaining(epoch, epoch + 2 * SEASON + DAY), 62);
}

#[test]
fn before_first_season_counts_as_first_season() {
    let epoch = SEASON_ONE_START;
    assert_eq!(get_current_season_start(epoch, epoch - 1), epoch);
    assert_eq!(get_current_season_number(epoch, epoch - 1), 1);
    assert_eq!(get_days_remaining(epoch, epoch - 1), 64);
    assert_eq!(get_days_remaining(epoch, epoch - 3 * DAY), 66);
    assert_eq!(get_days_remaining(epoch, i64::MIN) > 63, true);
}

#[test]
fn levels_per_day_is_zero_once_target_reached() {
    let epoch = SEASON_ONE_START;
    for (level, target) in [(80u8, 80u8), (200, 80), (255, 0), (0, 0)] {
        let pace = get_levels_required_per_day(level, target, epoch, epoch + 17 * DAY);
        assert_eq!(pace.remaining_levels, 0);
        assert!(pace.is_zero());
        assert!(pace.remaining_days >= 1);
    }
}

#[test]
fn levels_per_day_exact_fraction() {
    let epoch = SEASON_ONE_START;
    let pace = get_levels_required_per_day(20, 80, epoch, epoch + 3 * DAY + 7);
    assert_eq!(pace.remaining_levels, 60);
    assert_eq!(pace.remaining_days, 60);
    assert!(!pace.is_zero());
    let pace = get_levels_required_per_day(0, 200, epoch, epoch);
    assert_eq!(pace.remaining_levels, 200);
    assert_eq!(pace.remaining_days, 63);
}

#[test]
fn current_season_from_clock_is_consistent() {
    let now = chrono::Utc::now().timestamp();
    let info = current_season_info(SEASON_ONE_START, now);
    assert!(info.season_number >= 2);
    assert!(info.days_remaining >= 1 && info.days_remaining <= 63);
    assert_eq!((info.season_start - SEASON_ONE_START) % SEASON, 0);
    assert_eq!(
        info.season_number as i64,
        (info.season_start - SEASON_ONE_START) / SEASON + 1
    );
}

#[test]
fn battle_pass_targets_classify_and_name() {
    assert_eq!(BattlePassTargets::of_target(200), BattlePassTargets::Prestige);
    assert_eq!(BattlePassTargets::of_target(80), BattlePassTargets::Mythic);
    assert_eq!(BattlePassTargets::of_target(120), BattlePassTargets::Custom);
    assert_eq!(BattlePassTargets::Prestige.end_level(7), 200);
    assert_eq!(BattlePassTargets::Mythic.end_level(7), 80);
    assert_eq!(BattlePassTargets::Custom.end_level(7), 7);
    assert_eq!(BattlePassTargets::Mythic.label(), "Mythic");
    assert_eq!(BattlePassTargets::Prestige.label(), "Prestige");
    assert_eq!(BattlePassTargets::Custom.label(), "Custom");
}

#[test]
fn levels_per_day_from_clock() {
    let now = chrono::Utc::now().timestamp();
    let pace = get_levels_required_per_day(10, 200, SEASON_ONE_START, now);
    assert_eq!(pace.remaining_levels, 190);
    assert!(pace.remaining_days >= 1 && pace.remaining_days <= 63);
    assert!(get_levels_required_per_day(200, 80, SEASON_ONE_START, now).is_zero());
}
