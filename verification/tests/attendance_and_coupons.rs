use mission_service::attendance::AttendanceService;
use mission_service::auth::UserInfo;
use mission_service::coupon::{extract_number, CouponEffect, CouponReceiveDetail, CouponService};

fn info_with(streak: i32, total: i32, best: i32, last: Option<i32>) -> UserInfo {
    let mut i = UserInfo::for_normal_user(1);
    i.user_info_attend_straight = streak;
    i.user_info_attend = total;
    i.user_info_attend_max = best;
    i.last_attend_date = last;
    i
}

#[test]
fn check_in_range_only_where_counters_grow() {
    assert!(AttendanceService::check_in_in_range(&None, 700));
    assert!(AttendanceService::check_in_in_range(&Some(info_with(i32::MAX, i32::MAX, 0, Some(700))), 700));
    assert!(AttendanceService::check_in_in_range(&Some(info_with(i32::MAX, 5, 0, Some(690))), 700));
    assert!(!AttendanceService::check_in_in_range(&Some(info_with(i32::MAX, 5, 0, Some(699))), 700));
    assert!(!AttendanceService::check_in_in_range(&Some(info_with(3, i32::MAX, 0, Some(690))), 700));
    let out = AttendanceService::perform_check_in_today(Some(info_with(0, 0, 0, None))).expect("in range");
    assert_eq!(out.updated.expect("stored").user_info_attend, 1);
    assert!(AttendanceService::perform_check_in_today(Some(info_with(0, i32::MAX, 0, None))).is_none());
}

#[test]
fn first_check_in_starts_a_streak() {
    let out = AttendanceService::perform_check_in(Some(UserInfo::for_normal_user(1)), 700);
    let u = out.updated.expect("stored");
    assert_eq!((u.user_info_attend_straight, u.user_info_attend, u.user_info_attend_max), (1, 1, 1));
    assert_eq!(u.last_attend_date, Some(700));
    assert_eq!(out.response.status, "DONE");
    assert_eq!(out.response.message, "출석 체크 완료!");
    assert_eq!(out.response.reward_point, 0);
}

#[test]
fn second_check_in_same_day_changes_nothing() {
    let out = AttendanceService::perform_check_in(Some(info_with(3, 5, 4, Some(700))), 700);
    assert!(out.updated.is_none());
    assert_eq!(out.response.message, "오늘은 이미 출석체크를 완료했습니다.");
    assert_eq!(out.response.user_info_attend_straight, 3);
    assert_eq!(out.response.user_info_attend, 5);
}

#[test]
fn streak_continues_from_yesterday_and_breaks_after_a_gap() {
    let cont = AttendanceService::perform_check_in(Some(info_with(3, 5, 9, Some(699))), 700).updated.expect("stored");
    assert_eq!(cont.user_info_attend_straight, 4);
    assert_eq!(cont.user_info_attend_max, 9);
    let broken = AttendanceService::perform_check_in(Some(info_with(3, 5, 9, Some(690))), 700).updated.expect("stored");
    assert_eq!(broken.user_info_attend_straight, 1);
    assert_eq!(broken.user_info_attend, 6);
}

#[test]
fn seventh_and_fourteenth_days_are_rewarded() {
    let mut i = info_with(6, 6, 6, Some(699));
    i.user_info_point = 50;
    let out = AttendanceService::perform_check_in(Some(i), 700);
    assert_eq!(out.response.reward_point, 1000);
    assert_eq!(out.response.message, "역대 최고 기록 경신!");
    assert_eq!(out.updated.expect("stored").user_info_point, 1050);
    let fourteenth = AttendanceService::perform_check_in(Some(info_with(13, 20, 13, Some(699))), 700);
    assert_eq!(fourteenth.response.reward_point, 2000);
    let later = AttendanceService::perform_check_in(Some(info_with(20, 30, 20, Some(699))), 700);
    assert_eq!(later.response.reward_point, 2000);
    let eighth = AttendanceService::perform_check_in(Some(info_with(7, 30, 20, Some(699))), 700);
    assert_eq!(eighth.response.reward_point, 0);
}

#[test]
fn points_saturate() {
    let mut i = info_with(6, 6, 6, Some(699));
    i.user_info_point = i32::MAX - 10;
    let out = AttendanceService::perform_check_in(Some(i), 700);
    assert_eq!(out.updated.expect("stored").user_info_point, i32::MAX);
}

#[test]
fn missing_info_is_an_error_answer() {
    let out = AttendanceService::perform_check_in(None, 700);
    assert!(out.updated.is_none());
    assert_eq!(out.response.status, "ERROR");
    assert_eq!(out.response.message, "사용자 정보를 찾을 수 없습니다.");
    let s = AttendanceService::get_attendance_status(None, 700);
    assert_eq!(s.message, "사용자 정보 없음");
}

#[test]
fn status_after_check_in_is_done() {
    let u = AttendanceService::perform_check_in(Some(info_with(0, 0, 0, None)), 700).updated.expect("stored");
    let done = AttendanceService::get_attendance_status(Some(u), 700);
    assert_eq!(done.status, "DONE");
    assert_eq!(done.message, "내일 또 오세요!");
    let ready = AttendanceService::get_attendance_status(Some(info_with(1, 1, 1, Some(700))), 701);
    assert_eq!(ready.status, "READY");
    assert_eq!(ready.message, "출석 도장을 찍어주세요!");
}

fn coupon(name: &str, used: i32, expired_at: i64) -> CouponReceiveDetail {
    CouponReceiveDetail {
        receive_id: 1,
        used,
        display_name: None,
        receive_path: None,
        issued_at: None,
        expired_at,
        coupon_id: 2,
        coupon_name: name.to_string(),
        user_id: 3,
    }
}

#[test]
fn numbers_in_coupon_names() {
    assert_eq!(extract_number("확장 30"), 30);
    assert_eq!(extract_number("경험치 2배"), 2);
    assert_eq!(extract_number("끌올"), 0);
    assert_eq!(extract_number("a1b2c3"), 123);
    assert_eq!(extract_number("99999999999"), 0);
}

#[test]
fn usable_coupons() {
    assert!(CouponService::is_usable(&coupon("x", 0, 100), 99));
    assert!(!CouponService::is_usable(&coupon("x", 0, 100), 100));
    assert!(!CouponService::is_usable(&coupon("x", 1, 100), 0));
    assert!(CouponService::find_valid_coupon(Some(coupon("x", 2, 100)), 0).is_none());
    assert!(CouponService::find_valid_coupon(None, 0).is_none());
    assert_eq!(CouponService::availability_cutoff(0), 60_000_000);
}

#[test]
fn store_coupons() {
    let info = UserInfo::for_store_user(1);
    let store = Some("STORE".to_string());
    match CouponService::plan_use(&Some(coupon("인원 확장 30", 0, 9)), &store, &Some(info), None) {
        Some(CouponEffect::MissionPeople(n)) => assert_eq!(n, 30),
        _ => panic!("a head-count effect"),
    }
    let mut raised = UserInfo::for_store_user(1);
    raised.temp_mission_people = 30;
    assert!(CouponService::plan_use(&Some(coupon("확장 30", 0, 9)), &store, &Some(raised), None).is_none());
    match CouponService::plan_use(&Some(coupon("끌올 쿠폰", 0, 9)), &store, &Some(UserInfo::for_store_user(1)), Some(44)) {
        Some(CouponEffect::PullUp(id)) => assert_eq!(id, 44),
        _ => panic!("a pull-up"),
    }
    assert!(CouponService::plan_use(&Some(coupon("끌올", 0, 9)), &store, &Some(UserInfo::for_store_user(1)), None).is_none());
    assert!(CouponService::plan_use(&Some(coupon("경험치 2배", 0, 9)), &store, &Some(UserInfo::for_store_user(1)), None).is_none());
    assert!(CouponService::pull_up_allowed(1));
    assert!(!CouponService::pull_up_allowed(0));
}

#[test]
fn user_coupons() {
    let user = Some("USER".to_string());
    match CouponService::plan_use(&Some(coupon("경험치 2배", 0, 9)), &user, &Some(UserInfo::for_normal_user(1)), None) {
        Some(CouponEffect::ExpMultiplier(m)) => assert_eq!(m, 2),
        _ => panic!("a multiplier"),
    }
    let mut boosted = UserInfo::for_normal_user(1);
    boosted.temp_exp_multiplier = 2;
    assert!(CouponService::plan_use(&Some(coupon("경험치 3배", 0, 9)), &user, &Some(boosted), None).is_none());
    assert!(CouponService::plan_use(&Some(coupon("확장 30", 0, 9)), &user, &Some(UserInfo::for_normal_user(1)), None).is_none());
    assert!(CouponService::plan_use(&None, &user, &Some(UserInfo::for_normal_user(1)), None).is_none());
    assert!(CouponService::plan_use(&Some(coupon("경험치 2배", 0, 9)), &Some("PENDING".to_string()), &Some(UserInfo::for_normal_user(1)), None).is_none());
}

#[test]
fn coupon_use_answer() {
    let info = UserInfo::for_store_user(1);
    let r = CouponService::use_response(&CouponEffect::MissionPeople(30), "STORE".to_string(), "확장 30".to_string(), &info);
    assert_eq!(r.status, "SUCCESS");
    assert_eq!((r.mission_people, r.exp_multiplier, r.can_pull_up), (30, 1, 0));
    let p = CouponService::use_response(&CouponEffect::PullUp(5), "STORE".to_string(), "끌올".to_string(), &info);
    assert_eq!((p.mission_people, p.can_pull_up), (15, 1));
}
