use mission_service::auth::{User, UserInfo};
use mission_service::mission::{
    mission_code_from, new_mission_code, AuthenticationOutcome, Mission, MissionParticipate, MissionService,
    MyMissionsScope,
};

fn owner(kind: &str) -> User {
    User::new("o".to_string(), "o".to_string(), "pw".to_string(), kind.to_string(), 0)
}

fn mission(code: Option<&str>) -> Mission {
    Mission {
        mission_id: 5,
        mission_title: Some("t".to_string()),
        mission_start: Some(100),
        mission_end: Some(114),
        mission_info: None,
        mission_people: 15,
        mission_code: code.map(|c| c.to_string()),
        mission_image: None,
        store_id: Some(2),
        is_pull_up: 0,
        store_reward_given_yn: None,
        mission_created_at: None,
    }
}

fn participation(user_id: i64, tries: Option<i64>, locked_until: Option<i64>) -> MissionParticipate {
    MissionParticipate {
        participate_id: 1,
        mission_id: 5,
        user_id,
        mission_participate_code: None,
        mission_participate_status: Some("진행중".to_string()),
        mission_participate_start_date: Some(100),
        mission_participate_complete_date: None,
        mission_participate_given_yn: Some("N".to_string()),
        mission_participate_reward_exp: Some(200),
        mission_participate_authenticated_try: tries,
        mission_participate_locked_at: None,
        mission_participate_locked_until: locked_until,
        coupon_receive_id: None,
    }
}

const HOUR: i64 = 3_600_000_000;

#[test]
fn codes_are_six_upper_hex_digits() {
    assert_eq!(mission_code_from("a1b2c3d4e5f60718293a4b5c6d7e8f90"), "A1B2C3");
    for _ in 0..20 {
        let code = new_mission_code();
        assert_eq!(code.chars().count(), 6);
        assert!(code.chars().all(|c| c.is_ascii_digit() || ('A'..='F').contains(&c)));
    }
}

#[test]
fn only_store_owners_with_missions_left_create() {
    let info = UserInfo::for_store_user(1);
    let d = MissionService::plan_mission(&Some(owner("STORE")), &Some(info), Some(9), 738000).expect("created");
    assert_eq!((d.mission_start, d.mission_end, d.mission_people, d.store_id), (738000, 738014, 15, 9));
    assert_eq!(d.mission_code.len(), 6);
    assert_eq!((d.owner_mission_make, d.owner_mission_people), (UserInfo::for_store_user(1).user_info_mission_make - 1, 15));
    let r = MissionService::creation_response(44, d);
    assert_eq!((r.mission_id, r.mission_start, r.mission_end), (44, 738000, 738014));

    assert!(MissionService::plan_mission(&Some(owner("USER")), &Some(UserInfo::for_store_user(1)), Some(9), 1).is_none());
    let mut none_left = UserInfo::for_store_user(1);
    none_left.user_info_mission_make = 0;
    assert!(MissionService::plan_mission(&Some(owner("STORE")), &Some(none_left), Some(9), 1).is_none());
    assert!(MissionService::plan_mission(&Some(owner("STORE")), &Some(UserInfo::for_store_user(1)), None, 1).is_none());
    assert!(MissionService::plan_mission(&None, &Some(UserInfo::for_store_user(1)), Some(9), 1).is_none());
    let mut raised = UserInfo::for_store_user(1);
    raised.temp_mission_people = 30;
    let d2 = MissionService::plan_mission(&Some(owner("STORE")), &Some(raised), Some(9), 1).expect("created");
    assert_eq!((d2.mission_people, d2.owner_mission_people), (30, 15));
}

#[test]
fn my_missions_by_role() {
    assert!(matches!(MissionService::my_missions_scope(&None), MyMissionsScope::Nothing));
    assert!(matches!(MissionService::my_missions_scope(&Some(owner("USER"))), MyMissionsScope::Joined));
    assert!(matches!(MissionService::my_missions_scope(&Some(owner("STORE"))), MyMissionsScope::Owned));
}

#[test]
fn only_the_store_owner_changes_a_mission() {
    assert!(MissionService::may_change_mission(&Some(mission(None)), Some(3), 3));
    assert!(!MissionService::may_change_mission(&Some(mission(None)), Some(3), 4));
    assert!(!MissionService::may_change_mission(&Some(mission(None)), None, 3));
    assert!(!MissionService::may_change_mission(&None, Some(3), 3));
}

#[test]
fn joining_and_bookmarking_once() {
    let p = MissionService::participation_plan(0, true, 5, 6, 800).expect("joined");
    assert_eq!((p.mission_id, p.user_id, p.start_date, p.authenticated_try, p.reward_exp), (5, 6, 800, 0, 200));
    assert_eq!(p.status, "진행중");
    assert_eq!(p.given_yn, "N");
    assert!(MissionService::participation_plan(1, true, 5, 6, 800).is_none());
    assert!(MissionService::participation_plan(0, false, 5, 6, 800).is_none());
    assert!(MissionService::bookmark_allowed(0));
    assert!(!MissionService::bookmark_allowed(1));
}

#[test]
fn visit_checks() {
    let now = 1_000 * HOUR;
    let m = Some(mission(Some("ABC123")));
    let ok = MissionService::authenticate(&Some(participation(6, None, None)), 6, true, now, &m, true, false, "ABC123");
    assert!(matches!(ok, Some(AuthenticationOutcome::Verified { exp: 200 })));
    assert_eq!(MissionService::outcome_text(&ok.expect("answered")), "인증 성공");

    assert!(MissionService::authenticate(&Some(participation(7, None, None)), 6, true, now, &m, true, false, "ABC123").is_none());
    assert!(MissionService::authenticate(&Some(participation(6, None, None)), 6, false, now, &m, true, false, "ABC123").is_none());
    assert!(MissionService::authenticate(&None, 6, true, now, &m, true, false, "ABC123").is_none());
    assert!(MissionService::authenticate(&Some(participation(6, None, None)), 6, true, now, &None, true, false, "ABC123").is_none());
    assert!(MissionService::authenticate(&Some(participation(6, None, None)), 6, true, now, &m, false, false, "ABC123").is_none());

    let locked = MissionService::authenticate(&Some(participation(6, Some(3), Some(now + 1))), 6, true, now, &m, true, false, "ABC123");
    assert_eq!(MissionService::outcome_text(&locked.expect("answered")), "잠금 상태입니다");
    let unlocked = MissionService::authenticate(&Some(participation(6, Some(3), Some(now))), 6, true, now, &m, true, false, "ABC123");
    assert!(matches!(unlocked, Some(AuthenticationOutcome::Verified { .. })));

    let far = MissionService::authenticate(&Some(participation(6, None, None)), 6, true, now, &m, true, true, "ABC123");
    assert_eq!(MissionService::outcome_text(&far.expect("answered")), "가게와 너무 멉니다");
}

#[test]
fn third_failure_locks_for_an_hour() {
    let now = 500 * HOUR;
    let m = Some(mission(Some("ABC123")));
    let first = MissionService::authenticate(&Some(participation(6, None, None)), 6, true, now, &m, true, false, "abc123");
    match &first {
        Some(AuthenticationOutcome::Failed { fail, locked_at, locked_until }) => {
            assert_eq!(*fail, 1);
            assert!(locked_at.is_none() && locked_until.is_none());
        }
        _ => panic!("a failure"),
    }
    assert_eq!(MissionService::outcome_text(&first.expect("answered")), "인증 실패 (1/3)");
    let third = MissionService::authenticate(&Some(participation(6, Some(2), None)), 6, true, now, &m, true, false, "zzz");
    match &third {
        Some(AuthenticationOutcome::Failed { fail, locked_at, locked_until }) => {
            assert_eq!(*fail, 3);
            assert_eq!(*locked_at, Some(now));
            assert_eq!(*locked_until, Some(now + HOUR));
        }
        _ => panic!("a failure"),
    }
    assert_eq!(MissionService::outcome_text(&third.expect("answered")), "인증 실패 (3/3)");
    let no_code = MissionService::authenticate(&Some(participation(6, None, None)), 6, true, now, &Some(mission(None)), true, false, "");
    assert!(matches!(no_code, Some(AuthenticationOutcome::Failed { fail: 1, .. })));
}

#[test]
fn reward_and_notice() {
    let mut p = participation(6, None, None);
    p.mission_participate_reward_exp = None;
    let r = MissionService::authenticate(&Some(p), 6, true, 0, &Some(mission(Some("X"))), true, false, "X");
    assert!(matches!(r, Some(AuthenticationOutcome::Verified { exp: 200 })));
    let mut big = participation(6, None, None);
    big.mission_participate_reward_exp = Some(4_294_967_296 + 7);
    let t = MissionService::authenticate(&Some(big), 6, true, 0, &Some(mission(Some("X"))), true, false, "X");
    assert!(matches!(t, Some(AuthenticationOutcome::Verified { exp: 7 })));
    assert_eq!(MissionService::completion_text(350), "미션 완료! EXP +350");
}

#[test]
fn overflowing_counts_are_detected() {
    let m = Some(mission(Some("X")));
    assert!(!MissionService::authentication_in_range(&Some(participation(6, Some(i64::MAX), None)), 6, true, 0, &m, true, false, "Y"));
    assert!(MissionService::authentication_in_range(&Some(participation(6, Some(i64::MAX), None)), 6, true, 0, &m, true, false, "X"));
    assert!(!MissionService::authentication_in_range(&Some(participation(6, Some(5), None)), 6, true, i64::MAX, &m, true, false, "Y"));
    assert!(MissionService::authentication_in_range(&Some(participation(6, Some(0), None)), 6, true, i64::MAX, &m, true, false, "Y"));
}
