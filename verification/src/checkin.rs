//! The calendar of the daily check-in and its rewards.
use crate::game_args;
use vstd::prelude::*;
use vstd::string::*;

verus! {

/// The currency that the check-in pays.
pub const CHECKIN_CURRENCY_CODE: &'static str = "gold_soul_coin";

/// What the currency is called.
pub const CHECKIN_CURRENCY_NAME: &'static str = "金魂币";

/// The length of a game day.
pub const SECONDS_PER_DAY: i64 = 86_400;

/// A game day starts four hours after midnight in Beijing, which is eight hours ahead
/// of UTC.
pub const BEIJING_04_OFFSET_SECONDS: i64 = 14_400;

/// The game day of a moment: whole days, rounded down also before the epoch.
pub open spec fn game_day(timestamp: int) -> int {
    (timestamp + BEIJING_04_OFFSET_SECONDS) / SECONDS_PER_DAY as int
}

/// The game day of a Unix timestamp.
pub fn game_day_from_timestamp(timestamp: i64) -> (result: Result<i64, String>)
    ensures
        game_args::i64_outcome(result) == (if timestamp + BEIJING_04_OFFSET_SECONDS > i64::MAX {
            Err("系统时间戳超出可计算范围"@)
        } else {
            Ok(game_day(timestamp as int))
        }),
{
    match timestamp.checked_add(BEIJING_04_OFFSET_SECONDS) {
        None => Err("系统时间戳超出可计算范围".to_owned()),
        Some(shifted) => if shifted >= 0 {
            Ok(((shifted as u64) / (SECONDS_PER_DAY as u64)) as i64)
        } else {
            let distance: u64 = (-(shifted + 1)) as u64;
            let days: i64 = (distance / (SECONDS_PER_DAY as u64)) as i64;
            Ok(-days - 1)
        },
    }
}

/// The day of the week-long cycle that a streak has reached.
pub open spec fn cycle_day(streak_days: int) -> Result<int, Seq<char>> {
    if streak_days <= 0 {
        Err("连签天数必须大于 0"@)
    } else {
        Ok((streak_days - 1) % 7 + 1)
    }
}

/// The day of the cycle that a streak has reached.
pub fn checkin_cycle_day(streak_days: i64) -> (result: Result<i64, String>)
    ensures
        game_args::i64_outcome(result) == cycle_day(streak_days as int),
{
    if streak_days <= 0 {
        return Err("连签天数必须大于 0".to_owned());
    }
    let past: u64 = (streak_days - 1) as u64;
    Ok((past % 7) as i64 + 1)
}

/// The experience for each day of the cycle: ten more each day, and a bonus on the
/// last.
pub open spec fn exp_reward(cycle_day: int) -> Result<int, Seq<char>> {
    if cycle_day <= 0 {
        Err("签到轮次无效"@)
    } else if cycle_day > 7 {
        Err("签到轮次必须在 1 到 7 之间"@)
    } else if cycle_day == 7 {
        Ok(150)
    } else {
        Ok(50 + 10 * cycle_day)
    }
}

/// The experience for a day of the cycle.
pub fn checkin_exp_reward(cycle_day: i64) -> (result: Result<i64, String>)
    requires
        cycle_day > i64::MIN,
    ensures
        game_args::i64_outcome(result) == exp_reward(cycle_day as int),
{
    if cycle_day <= 0 {
        return Err("签到轮次无效".to_owned());
    }
    let rewards: [i64; 7] = [60, 70, 80, 90, 100, 110, 150];
    if cycle_day > 7 {
        return Err("签到轮次必须在 1 到 7 之间".to_owned());
    }
    Ok(rewards[(cycle_day - 1) as usize])
}

/// A day later is the next game day, and within one day the game day never goes back
/// and changes at most once.
pub proof fn game_days_follow_each_other(timestamp: int, later: int)
    requires
        timestamp <= later < timestamp + SECONDS_PER_DAY,
    ensures
        game_day(timestamp + SECONDS_PER_DAY) == game_day(timestamp) + 1,
        game_day(timestamp) <= game_day(later) <= game_day(timestamp) + 1,
{
}

/// Every streak has a reward, and it is the same one a week later.
pub proof fn every_streak_is_rewarded(streak_days: int)
    requires
        streak_days > 0,
    ensures
        cycle_day(streak_days) is Ok,
        1 <= cycle_day(streak_days)->Ok_0 <= 7,
        exp_reward(cycle_day(streak_days)->Ok_0) is Ok,
        60 <= exp_reward(cycle_day(streak_days)->Ok_0)->Ok_0 <= 150,
        cycle_day(streak_days + 7) == cycle_day(streak_days),
{
}

} // verus!
