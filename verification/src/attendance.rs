//! Daily attendance: streaks, totals, the best streak and the rewards at
//! seven and fourteen days.

use vstd::prelude::*;
use crate::auth::UserInfo;

verus! {

/// The answer to a check-in or a status request.
pub struct AttendanceResponseDto {
    pub status: String,
    pub user_info_attend_straight: i32,
    pub user_info_attend: i32,
    pub user_info_attend_max: i32,
    pub reward_point: i32,
    pub user_info_point: i32,
    pub message: String,
}

impl AttendanceResponseDto {
    /// Whether the answer reports a failure (status `FAIL` or `ERROR`),
    /// which is sent as a bad request.
    pub fn is_failure(&self) -> (res: bool)
        ensures
            res == (self.status@ == "FAIL"@ || self.status@ == "ERROR"@),
    {
        crate::text::str_eq(self.status.as_str(), "FAIL") || crate::text::str_eq(self.status.as_str(), "ERROR")
    }
}

/// What a check-in decides: the answer, and the user info to store when the
/// check-in counted.
pub struct CheckInOutcome {
    pub response: AttendanceResponseDto,
    pub updated: Option<UserInfo>,
}

/// Attendance decisions on a user's info.
pub struct AttendanceService;

/// The streak before today's check-in: kept when the last attendance was
/// yesterday (or never), otherwise broken.
pub open spec fn streak_before(info: UserInfo, today: i32) -> int {
    match info.last_attend_date {
        Some(last) => if last as int + 1 == today as int { info.user_info_attend_straight as int } else { 0 },
        None => info.user_info_attend_straight as int,
    }
}

/// Points for reaching a streak: 1000 on day 7, 2000 on day 14 and on every
/// day after it.
pub open spec fn streak_reward(streak: int) -> int {
    let capped = if streak < 14 { streak } else { 14 };
    if capped == 7 { 1000 } else if capped == 14 { 2000 } else { 0 }
}

/// `a + b` saturated to the range of `i32`.
pub open spec fn saturating_i32(a: int, b: int) -> i32 {
    if a + b > i32::MAX { i32::MAX } else if a + b < i32::MIN { i32::MIN } else { (a + b) as i32 }
}

/// A check-in today does not overflow the counters.
pub open spec fn check_in_fits(info: UserInfo, today: i32) -> bool {
    info.last_attend_date == Some(today) || (streak_before(info, today) < i32::MAX
        && info.user_info_attend < i32::MAX)
}

/// The user info after a check-in that counts.
pub open spec fn checked_in(info: UserInfo, today: i32) -> UserInfo {
    let next = streak_before(info, today) + 1;
    UserInfo {
        user_info_attend_straight: next as i32,
        user_info_attend: (info.user_info_attend + 1) as i32,
        user_info_attend_max: if next > info.user_info_attend_max { next as i32 } else { info.user_info_attend_max },
        last_attend_date: Some(today),
        user_info_point: saturating_i32(info.user_info_point as int, streak_reward(next)),
        ..info
    }
}

/// `r` reports `info` with the given status, reward and message.
pub open spec fn reports(r: AttendanceResponseDto, info: UserInfo, status: Seq<char>, reward: int, message: Seq<char>) -> bool {
    &&& r.status@ == status
    &&& r.user_info_attend_straight == info.user_info_attend_straight
    &&& r.user_info_attend == info.user_info_attend
    &&& r.user_info_attend_max == info.user_info_attend_max
    &&& r.reward_point == reward
    &&& r.user_info_point == info.user_info_point
    &&& r.message@ == message
}

/// `r` is the error answer with `message` and zero counters.
pub open spec fn error_report(r: AttendanceResponseDto, message: Seq<char>) -> bool {
    &&& r.status@ == "ERROR"@
    &&& r.user_info_attend_straight == 0
    &&& r.user_info_attend == 0
    &&& r.user_info_attend_max == 0
    &&& r.reward_point == 0
    &&& r.user_info_point == 0
    &&& r.message@ == message
}

/// The whole check-in decision.
pub open spec fn check_in_result(info: Option<UserInfo>, today: i32, out: CheckInOutcome) -> bool {
    match info {
        None => out.updated is None && error_report(out.response, "사용자 정보를 찾을 수 없습니다."@),
        Some(i) => if i.last_attend_date == Some(today) {
            out.updated is None && reports(out.response, i, "DONE"@, 0, "오늘은 이미 출석체크를 완료했습니다."@)
        } else {
            let next = checked_in(i, today);
            let message = if next.user_info_attend_straight == next.user_info_attend_max
                && next.user_info_attend_straight > 1 {
                "역대 최고 기록 경신!"@
            } else {
                "출석 체크 완료!"@
            };
            &&& out.updated == Some(next)
            &&& reports(out.response, next, "DONE"@, streak_reward(next.user_info_attend_straight as int), message)
        },
    }
}

/// The status answer for day `today`.
pub open spec fn status_result(info: Option<UserInfo>, today: i32, r: AttendanceResponseDto) -> bool {
    match info {
        None => error_report(r, "사용자 정보 없음"@),
        Some(i) => if i.last_attend_date == Some(today) {
            reports(r, i, "DONE"@, 0, "내일 또 오세요!"@)
        } else {
            reports(r, i, "READY"@, 0, "출석 도장을 찍어주세요!"@)
        },
    }
}

fn build_response(ui: &UserInfo, status: &str, reward: i32, msg: &str) -> (r: AttendanceResponseDto)
    ensures
        reports(r, *ui, status@, reward as int, msg@),
{
    AttendanceResponseDto {
        status: crate::text::string_from(status),
        user_info_attend_straight: ui.user_info_attend_straight,
        user_info_attend: ui.user_info_attend,
        user_info_attend_max: ui.user_info_attend_max,
        reward_point: reward,
        user_info_point: ui.user_info_point,
        message: crate::text::string_from(msg),
    }
}

fn error_response(msg: &str) -> (r: AttendanceResponseDto)
    ensures
        error_report(r, msg@),
{
    AttendanceResponseDto {
        status: crate::text::string_from("ERROR"),
        user_info_attend_straight: 0,
        user_info_attend: 0,
        user_info_attend_max: 0,
        reward_point: 0,
        user_info_point: 0,
        message: crate::text::string_from(msg),
    }
}

/// `out` is what a check-in on day `today` gives: the outcome where the
/// counters stay within `i32`, nothing where they would overflow.
pub open spec fn check_in_on(user_info: Option<UserInfo>, today: i32, out: Option<CheckInOutcome>) -> bool {
    match out {
        Some(o) => (user_info matches Some(i) ==> check_in_fits(i, today)) && check_in_result(user_info, today, o),
        None => user_info matches Some(i) && !check_in_fits(i, today),
    }
}

impl AttendanceService {
    /// Checks the user in on day `today`. A second check-in on the same day
    /// changes nothing. Otherwise the streak grows by one if the last
    /// attendance was the day before (or there was none) and restarts at one
    /// if not, the total grows by one, the best streak follows, and the
    /// reward of the new streak is added to the points, saturating.
    pub fn perform_check_in(user_info: Option<UserInfo>, today: i32) -> (out: CheckInOutcome)
        requires
            user_info matches Some(i) ==> check_in_fits(i, today),
        ensures
            check_in_result(user_info, today, out),
    {
        let mut info = match user_info {
            Some(i) => i,
            None => {
                return CheckInOutcome {
                    response: error_response("사용자 정보를 찾을 수 없습니다."),
                    updated: None,
                };
            },
        };
        let ghost before = info;
        let already = match info.last_attend_date {
            Some(d) => d == today,
            None => false,
        };
        if already {
            let response = build_response(&info, "DONE", 0, "오늘은 이미 출석체크를 완료했습니다.");
            return CheckInOutcome { response, updated: None };
        }
        let mut current_streak = info.user_info_attend_straight;
        let total_count = info.user_info_attend;
        let mut max_streak = info.user_info_attend_max;
        if let Some(last) = info.last_attend_date {
            if (last as i64) + 1 != today as i64 {
                current_streak = 0;
            }
        }
        let next_streak = current_streak + 1;
        let next_total_count = total_count + 1;
        info.user_info_attend_straight = next_streak;
        info.user_info_attend = next_total_count;
        info.last_attend_date = Some(today);
        if next_streak > max_streak {
            max_streak = next_streak;
            info.user_info_attend_max = max_streak;
        }
        let reward_streak = if next_streak < 14 { next_streak } else { 14 };
        let reward_point: i32 = if reward_streak == 7 {
            1000
        } else if reward_streak == 14 {
            2000
        } else {
            0
        };
        let sum: i64 = info.user_info_point as i64 + reward_point as i64;
        info.user_info_point = if sum > i32::MAX as i64 {
            i32::MAX
        } else if sum < i32::MIN as i64 {
            i32::MIN
        } else {
            sum as i32
        };
        assert(info == checked_in(before, today));
        let success_msg = if next_streak == max_streak && next_streak > 1 {
            "역대 최고 기록 경신!"
        } else {
            "출석 체크 완료!"
        };
        let response = build_response(&info, "DONE", reward_point, success_msg);
        CheckInOutcome { response, updated: Some(info) }
    }

    /// Whether a check-in on day `today` keeps the counters within `i32`
    /// (else they overflow, as the counters of the records would).
    pub fn check_in_in_range(user_info: &Option<UserInfo>, today: i32) -> (r: bool)
        ensures
            r == (*user_info matches Some(i) ==> check_in_fits(i, today)),
    {
        match user_info {
            None => true,
            Some(i) => {
                let already = match i.last_attend_date {
                    Some(d) => d == today,
                    None => false,
                };
                if already {
                    return true;
                }
                let streak = match i.last_attend_date {
                    Some(last) => if (last as i64) + 1 == today as i64 { i.user_info_attend_straight } else { 0 },
                    None => i.user_info_attend_straight,
                };
                streak < i32::MAX && i.user_info_attend < i32::MAX
            },
        }
    }

    /// `perform_check_in` on the local calendar's today, where the
    /// counters stay within `i32` on that day; `None` where they would
    /// overflow.
    pub fn perform_check_in_today(user_info: Option<UserInfo>) -> (out: Option<CheckInOutcome>)
        ensures
            exists|today: i32| #[trigger] check_in_on(user_info, today, out),
    {
        let today = crate::clock::local_today();
        let ghost given = user_info;
        let out = if Self::check_in_in_range(&user_info, today) {
            let o = Self::perform_check_in(user_info, today);
            Some(o)
        } else {
            None
        };
        assert(check_in_on(given, today, out));
        out
    }

    /// Whether the user has checked in on day `today`, without changing
    /// anything: `DONE` if so, `READY` if not.
    pub fn get_attendance_status(user_info: Option<UserInfo>, today: i32) -> (r: AttendanceResponseDto)
        ensures
            status_result(user_info, today, r),
    {
        let info = match user_info {
            Some(i) => i,
            None => return error_response("사용자 정보 없음"),
        };
        let is_checked = match info.last_attend_date {
            Some(d) => d == today,
            None => false,
        };
        if is_checked {
            build_response(&info, "DONE", 0, "내일 또 오세요!")
        } else {
            build_response(&info, "READY", 0, "출석 도장을 찍어주세요!")
        }
    }

    /// `get_attendance_status` on the local calendar's today.
    pub fn get_attendance_status_today(user_info: Option<UserInfo>) -> (r: AttendanceResponseDto)
        ensures
            exists|today: i32| status_result(user_info, today, r),
    {
        let today = crate::clock::local_today();
        Self::get_attendance_status(user_info, today)
    }
}

/// Checking in twice on one day counts once: the second check-in changes
/// nothing and rewards nothing.
pub proof fn law_second_check_in_same_day(info: UserInfo, today: i32, out: CheckInOutcome)
    requires
        check_in_result(Some(checked_in(info, today)), today, out),
    ensures
        out.updated is None,
        out.response.reward_point == 0,
        out.response.status@ == "DONE"@,
{
}

/// After a check-in the best streak is at least the current streak.
pub proof fn law_best_streak_bounds_streak(info: UserInfo, today: i32)
    requires
        info.last_attend_date != Some(today),
        check_in_fits(info, today),
    ensures
        checked_in(info, today).user_info_attend_max >= checked_in(info, today).user_info_attend_straight,
        checked_in(info, today).user_info_attend_max >= info.user_info_attend_max,
{
}

/// A counted check-in adds exactly one attendance, records the day, and
/// never takes points away.
pub proof fn law_check_in_counts_once(info: UserInfo, today: i32)
    requires
        info.last_attend_date != Some(today),
        check_in_fits(info, today),
    ensures
        checked_in(info, today).user_info_attend == info.user_info_attend + 1,
        checked_in(info, today).last_attend_date == Some(today),
        checked_in(info, today).user_info_point >= info.user_info_point,
{
}

/// Attending the day after the last attendance extends the streak; a gap of
/// more than a day starts it again at one.
pub proof fn law_streak_continues_or_restarts(info: UserInfo, today: i32)
    requires
        info.last_attend_date != Some(today),
        check_in_fits(info, today),
    ensures
        info.last_attend_date matches Some(d) && d + 1 == today ==> checked_in(info, today).user_info_attend_straight
            == info.user_info_attend_straight + 1,
        info.last_attend_date matches Some(d) && d + 1 != today ==> checked_in(info, today).user_info_attend_straight == 1,
{
}

/// Once checked in, the status of the day is `DONE`.
pub proof fn law_status_after_check_in(info: UserInfo, today: i32, r: AttendanceResponseDto)
    requires
        status_result(Some(checked_in(info, today)), today, r),
    ensures
        r.status@ == "DONE"@,
{
}

/// The reward of a streak: 1000 points on its seventh day, 2000 on its
/// fourteenth and on every day after it, nothing on any other day.
pub proof fn law_streak_rewards(streak: int)
    ensures
        streak == 7 ==> streak_reward(streak) == 1000,
        streak >= 14 ==> streak_reward(streak) == 2000,
        streak != 7 && streak < 14 ==> streak_reward(streak) == 0,
{
}

/// A check-in that counts, on a day after the last attendance: the streak
/// goes on from yesterday's (or from none) and restarts at one after a gap;
/// the answer's reward is 1000 on the seventh day of the streak, 2000 from
/// the fourteenth day on, 0 otherwise, and the points grow by it
/// (saturating).
pub proof fn law_check_in_reward(info: UserInfo, today: i32, out: CheckInOutcome)
    requires
        info.last_attend_date != Some(today),
        check_in_fits(info, today),
        check_in_result(Some(info), today, out),
    ensures
        ({
            let streak: int = match info.last_attend_date {
                Some(d) => if d + 1 == today { info.user_info_attend_straight + 1 } else { 1 },
                None => info.user_info_attend_straight + 1,
            };
            let reward: int = if streak == 7 { 1000 } else if streak >= 14 { 2000 } else { 0 };
            &&& out.updated matches Some(u) && u.user_info_attend_straight == streak
            &&& out.response.reward_point == reward
            &&& out.updated->0.user_info_point == (if info.user_info_point + reward > i32::MAX {
                i32::MAX as int
            } else {
                info.user_info_point + reward
            })
        }),
{
}

} // verus!
