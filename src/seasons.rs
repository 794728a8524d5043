//! Season calendar: seasons of a fixed number of days follow one another
//! from a fixed first start. Instants are whole seconds since the Unix epoch,
//! in UTC.
use vstd::prelude::*;

verus! {

/// Number of days in one season.
pub const SEASON_LENGTH: u8 = 63;

/// Battle-pass level that unlocks every prestige title.
pub const PRESTIGE_BATTLE_PASS_END: u8 = 200;

/// Battle-pass level that unlocks the mythic skin.
pub const MYTHIC_BATTLE_PASS_END: u8 = 80;

/// Seconds in one day.
pub const SECONDS_PER_DAY: i64 = 86400;

/// Start of the first season: 2022-10-04T00:00:00Z, in seconds since the Unix epoch.
pub const SEASON_ONE_START: i64 = 1664841600;

/// Length of one season in seconds.
pub open spec fn season_seconds() -> int {
    SEASON_LENGTH as int * SECONDS_PER_DAY as int
}

/// Number of whole seasons elapsed between `epoch` and `now`; an instant
/// before the first start counts as the first season.
pub open spec fn season_index(epoch: int, now: int) -> int {
    if now < epoch {
        0
    } else {
        (now - epoch) / season_seconds()
    }
}

/// The latest season start `epoch + k * season_seconds()` that is not after
/// `now` (the first start itself when `now` comes before it).
pub open spec fn season_start(epoch: int, now: int) -> int {
    epoch + season_index(epoch, now) * season_seconds()
}

/// The 1-based number of the season that `now` falls in.
pub open spec fn season_number(epoch: int, now: int) -> int {
    season_index(epoch, now) + 1
}

/// Whole days in a span of seconds, rounded towards negative infinity.
pub open spec fn floor_days(seconds: int) -> int {
    seconds / (SECONDS_PER_DAY as int)
}

/// Days left in the season that `now` falls in.
pub open spec fn days_remaining(epoch: int, now: int) -> int {
    SEASON_LENGTH as int - floor_days(now - season_start(epoch, now))
}

proof fn lemma_season_bounds(epoch: int, now: int)
    requires
        epoch <= now,
    ensures
        0 <= season_index(epoch, now),
        season_start(epoch, now) <= now < season_start(epoch, now) + season_seconds(),
        epoch <= season_start(epoch, now),
{
    let d = now - epoch;
    let l = season_seconds();
    vstd::arithmetic::div_mod::lemma_fundamental_div_mod(d, l);
    vstd::arithmetic::div_mod::lemma_mod_bound(d, l);
    vstd::arithmetic::div_mod::lemma_div_pos_is_pos(d, l);
    assert(0 <= (d / l) * l) by (nonlinear_arith)
        requires
            0 <= d / l,
            0 < l,
    ;
}

proof fn lemma_days_remaining_bounds(epoch: int, now: int)
    ensures
        epoch <= now ==> 1 <= days_remaining(epoch, now) <= SEASON_LENGTH as int,
        now < epoch ==> days_remaining(epoch, now) > SEASON_LENGTH as int,
{
    let x = now - season_start(epoch, now);
    if epoch <= now {
        lemma_season_bounds(epoch, now);
        vstd::arithmetic::div_mod::lemma_div_pos_is_pos(x, 86400);
        vstd::arithmetic::div_mod::lemma_div_is_ordered(x, 63 * 86400 - 1, 86400);
    } else {
        assert(season_start(epoch, now) == epoch);
        vstd::arithmetic::div_mod::lemma_div_is_ordered(x, -1, 86400);
    }
}

/// Length of one season in seconds.
fn season_length_seconds() -> (r: i128)
    ensures
        r == season_seconds(),
        r == 5443200,
{
    assert(season_seconds() == 5443200) by (nonlinear_arith);
    SEASON_LENGTH as i128 * SECONDS_PER_DAY as i128
}

/// Rounds a span of seconds down to whole days.
fn floor_days_of(seconds: i128) -> (r: i128)
    requires
        -0x1_0000_0000_0000_0000 <= seconds <= 0x1_0000_0000_0000_0000,
    ensures
        r == floor_days(seconds as int),
        seconds >= 0 ==> r >= 0,
{
    if seconds >= 0 {
        seconds / 86400
    } else {
        let up: i128 = (-seconds + 86399) / 86400;
        proof {
            let s = seconds as int;
            vstd::arithmetic::div_mod::lemma_fundamental_div_mod(-s + 86399, 86400);
            vstd::arithmetic::div_mod::lemma_mod_bound(-s + 86399, 86400);
            vstd::arithmetic::div_mod::lemma_fundamental_div_mod(s, 86400);
            vstd::arithmetic::div_mod::lemma_mod_bound(s, 86400);
            assert(s / 86400 == -(up as int)) by (nonlinear_arith)
                requires
                    -s + 86399 == 86400 * (up as int) + (-s + 86399) % 86400,
                    0 <= (-s + 86399) % 86400 < 86400,
                    s == 86400 * (s / 86400) + s % 86400,
                    0 <= s % 86400 < 86400,
            ;
        }
        -up
    }
}

/// Start of the season that `now` falls in: the latest instant
/// `epoch + k * SEASON_LENGTH days` (k ≥ 0) that is not after `now`.
/// An instant before `epoch` is taken to lie in the first season, which
/// starts at `epoch`.
pub fn get_current_season_start(epoch: i64, now: i64) -> (r: i64)
    ensures
        r == season_start(epoch as int, now as int),
        epoch <= now ==> r <= now < r + season_seconds(),
        epoch <= r,
{
    proof {
        if epoch <= now {
            lemma_season_bounds(epoch as int, now as int);
        }
    }
    if now < epoch {
        epoch
    } else {
        let length: i128 = season_length_seconds();
        let k: i128 = (now as i128 - epoch as i128) / length;
        proof {
            let d: int = now as int - epoch as int;
            let l: int = length as int;
            let q: int = k as int;
            vstd::arithmetic::div_mod::lemma_fundamental_div_mod(d, l);
            vstd::arithmetic::div_mod::lemma_mod_bound(d, l);
            vstd::arithmetic::div_mod::lemma_div_pos_is_pos(d, l);
            assert(0 <= q * l <= d) by (nonlinear_arith)
                requires
                    d == l * q + d % l,
                    0 <= d % l,
                    0 <= q,
                    0 < l,
            ;
        }
        (epoch as i128 + k * length) as i64
    }
}

/// The 1-based number of the season that `now` falls in: one more than the
/// number of whole seasons elapsed since `epoch` (1 before `epoch`).
pub fn get_current_season_number(epoch: i64, now: i64) -> (r: u64)
    ensures
        r == season_number(epoch as int, now as int),
        r >= 1,
{
    if now < epoch {
        1
    } else {
        let length: i128 = season_length_seconds();
        let k: i128 = (now as i128 - epoch as i128) / length;
        proof {
            let d: int = now as int - epoch as int;
            let l: int = length as int;
            let q: int = k as int;
            vstd::arithmetic::div_mod::lemma_fundamental_div_mod(d, l);
            vstd::arithmetic::div_mod::lemma_mod_bound(d, l);
            vstd::arithmetic::div_mod::lemma_div_pos_is_pos(d, l);
            assert(2 * q <= d) by (nonlinear_arith)
                requires
                    d == l * q + d % l,
                    0 <= d % l,
                    0 <= q,
                    2 <= l,
            ;
        }
        (k + 1) as u64
    }
}

/// Days left in the season that `now` falls in: `SEASON_LENGTH` minus the
/// whole days elapsed since that season started. From `epoch` on this lies in
/// `1..=SEASON_LENGTH`; before `epoch` it exceeds `SEASON_LENGTH`.
pub fn get_days_remaining(epoch: i64, now: i64) -> (r: i64)
    ensures
        r == days_remaining(epoch as int, now as int),
        epoch <= now ==> 1 <= r <= SEASON_LENGTH as int,
        now < epoch ==> r > SEASON_LENGTH as int,
{
    proof {
        lemma_days_remaining_bounds(epoch as int, now as int);
    }
    let start = get_current_season_start(epoch, now);
    let elapsed = floor_days_of(now as i128 - start as i128);
    (SEASON_LENGTH as i128 - elapsed) as i64
}

/// What is shown of the season that an instant falls in.
#[derive(Debug, Clone, Copy, PartialEq, Eq)]
pub struct SeasonInfo {
    pub season_number: u64,
    pub season_start: i64,
    pub days_remaining: i64,
}

/// The season facts of `now`, as the three functions above give them.
pub open spec fn season_info_of(epoch: int, now: int) -> SeasonInfo {
    SeasonInfo {
        season_number: season_number(epoch, now) as u64,
        season_start: season_start(epoch, now) as i64,
        days_remaining: days_remaining(epoch, now) as i64,
    }
}

/// Number, start and days remaining of the season that `now` falls in.
pub fn current_season_info(epoch: i64, now: i64) -> (r: SeasonInfo)
    ensures
        r.season_number == season_number(epoch as int, now as int),
        r.season_start == season_start(epoch as int, now as int),
        r.days_remaining == days_remaining(epoch as int, now as int),
        r == season_info_of(epoch as int, now as int),
        r.season_number >= 1,
        r.days_remaining >= 1,
{
    SeasonInfo {
        season_number: get_current_season_number(epoch, now),
        season_start: get_current_season_start(epoch, now),
        days_remaining: get_days_remaining(epoch, now),
    }
}

/// The season number at the first start is 1, and one season length later
/// it is 2.
pub proof fn lemma_first_two_season_numbers(epoch: int)
    ensures
        season_number(epoch, epoch) == 1,
        season_number(epoch, epoch + season_seconds()) == 2,
{
    vstd::arithmetic::div_mod::lemma_div_basics(season_seconds());
}

/// A battle-pass goal as the settings offer it: one of the two presets, or a
/// level of the user's own choosing.
#[derive(Debug, Clone, Copy, PartialEq, Eq, Structural)]
pub enum BattlePassTargets {
    Mythic,
    Prestige,
    Custom,
}

/// The preset that a target level stands for, if any.
pub open spec fn target_kind(target: u8) -> BattlePassTargets {
    if target == PRESTIGE_BATTLE_PASS_END {
        BattlePassTargets::Prestige
    } else if target == MYTHIC_BATTLE_PASS_END {
        BattlePassTargets::Mythic
    } else {
        BattlePassTargets::Custom
    }
}

impl BattlePassTargets {
    /// Classifies a target level: the two preset end levels name their
    /// presets, every other level is a custom target.
    pub fn of_target(target: u8) -> (r: BattlePassTargets)
        ensures
            r == target_kind(target),
    {
        if target == PRESTIGE_BATTLE_PASS_END {
            BattlePassTargets::Prestige
        } else if target == MYTHIC_BATTLE_PASS_END {
            BattlePassTargets::Mythic
        } else {
            BattlePassTargets::Custom
        }
    }

    /// The end level of a preset; a custom target keeps `custom`.
    pub open spec fn end_level_spec(self, custom: u8) -> u8 {
        match self {
            BattlePassTargets::Prestige => PRESTIGE_BATTLE_PASS_END,
            BattlePassTargets::Mythic => MYTHIC_BATTLE_PASS_END,
            BattlePassTargets::Custom => custom,
        }
    }

    /// The end level of a preset; a custom target keeps `custom`.
    pub fn end_level(self, custom: u8) -> (r: u8)
        ensures
            r == self.end_level_spec(custom),
            self == BattlePassTargets::Prestige ==> r == PRESTIGE_BATTLE_PASS_END,
            self == BattlePassTargets::Mythic ==> r == MYTHIC_BATTLE_PASS_END,
            self == BattlePassTargets::Custom ==> r == custom,
    {
        match self {
            BattlePassTargets::Prestige => PRESTIGE_BATTLE_PASS_END,
            BattlePassTargets::Mythic => MYTHIC_BATTLE_PASS_END,
            BattlePassTargets::Custom => custom,
        }
    }

    /// The name shown for the target.
    pub fn label(self) -> (r: &'static str)
        ensures
            self == BattlePassTargets::Mythic ==> r@ == "Mythic"@,
            self == BattlePassTargets::Prestige ==> r@ == "Prestige"@,
            self == BattlePassTargets::Custom ==> r@ == "Custom"@,
    {
        match self {
            BattlePassTargets::Mythic => "Mythic",
            BattlePassTargets::Prestige => "Prestige",
            BattlePassTargets::Custom => "Custom",
        }
    }
}

/// Levels still to gain before `target`: none once `level` has reached it.
pub open spec fn levels_left(level: u8, target: u8) -> int {
    if level >= target {
        0
    } else {
        target - level
    }
}

/// The pace needed to reach a battle-pass target within the current season,
/// as the exact fraction `remaining_levels / remaining_days`.
#[derive(Debug, Clone, Copy, PartialEq, Eq)]
pub struct LevelsPerDay {
    pub remaining_levels: u8,
    pub remaining_days: i64,
}

impl LevelsPerDay {
    /// Whether no more levels are needed, that is whether the pace is zero.
    pub fn is_zero(&self) -> (r: bool)
        ensures
            r == (self.remaining_levels == 0),
    {
        self.remaining_levels == 0
    }
}

/// Levels per day still needed to go from `battle_pass_level` to
/// `battle_pass_target` before the season that `now` falls in ends. The
/// fraction is zero once the level has reached the target, and its
/// denominator is never zero.
pub fn get_levels_required_per_day(battle_pass_level: u8, battle_pass_target: u8, epoch: i64, now: i64) -> (r: LevelsPerDay)
    ensures
        r.remaining_levels == levels_left(battle_pass_level, battle_pass_target),
        r.remaining_days == days_remaining(epoch as int, now as int),
        r.remaining_days >= 1,
        battle_pass_level >= battle_pass_target ==> r.remaining_levels == 0,
{
    let remaining_levels = if battle_pass_level >= battle_pass_target {
        0
    } else {
        battle_pass_target - battle_pass_level
    };
    LevelsPerDay { remaining_levels, remaining_days: get_days_remaining(epoch, now) }
}

} // verus!
