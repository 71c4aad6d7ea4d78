use mission_service::auth::UserInfo;
use mission_service::membership::{
    current_month_window, month_window_of, next_month, updated_membership_counts, Membership, MembershipService,
    PurchasePlan,
};

fn plan(name: &str, price: i32) -> Membership {
    Membership { membership_id: 1, membership_name: name.to_string(), price, benefits: None }
}

fn rich_user() -> UserInfo {
    let mut i = UserInfo::for_normal_user(1);
    i.user_info_point = 10_000;
    i
}

fn rich_store() -> UserInfo {
    let mut i = UserInfo::for_store_user(1);
    i.user_info_point = 10_000;
    i
}

#[test]
fn month_after() {
    assert_eq!(next_month(2024, 3), (2024, 4));
    assert_eq!(next_month(2024, 12), (2025, 1));
}

#[test]
fn month_windows_by_the_calendar() {
    assert_eq!(month_window_of(1710496800000000), Some((1709251200000000, 1711929600000000)));
    assert_eq!(month_window_of(1735689599000000), Some((1733011200000000, 1735689600000000)));
    assert_eq!(month_window_of(1709251200000000), Some((1709251200000000, 1711929600000000)));
    let (now, window) = current_month_window();
    let (start, end) = window.expect("the clock is in range");
    assert!(start <= now && now < end);
}

#[test]
fn tiers_raise_allowances() {
    assert_eq!(updated_membership_counts("STORE", "STORE_STARTER", &rich_store()), Some((5, 0)));
    assert_eq!(updated_membership_counts("STORE", "STORE_GROWTH", &rich_store()), Some((7, 0)));
    assert_eq!(updated_membership_counts("STORE", "STORE_PRO", &rich_store()), Some((10, 0)));
    assert_eq!(updated_membership_counts("USER", "USER_STARTER", &rich_user()), Some((0, 20)));
    assert_eq!(updated_membership_counts("USER", "USER_GROWTH", &rich_user()), Some((0, 25)));
    assert_eq!(updated_membership_counts("USER", "USER_PRO", &rich_user()), Some((0, 30)));
    assert_eq!(updated_membership_counts("USER", "USER_BASIC", &rich_user()), None);
    assert_eq!(updated_membership_counts("USER", "STORE_PRO", &rich_user()), None);
    assert_eq!(updated_membership_counts("PENDING", "USER_PRO", &rich_user()), None);
}

#[test]
fn purchase_plan() {
    let p = MembershipService::plan_purchase("USER", &plan("USER_GROWTH", 3000), &rich_user(), 0).expect("bought");
    assert_eq!((p.mission_make, p.mission_do, p.current_point), (0, 25, 7000));
    let s = MembershipService::plan_purchase("STORE", &plan("STORE_PRO", 10_000), &rich_store(), 0).expect("bought");
    assert_eq!((s.mission_make, s.mission_do, s.current_point), (10, 0, 0));
}

#[test]
fn purchase_refusals() {
    assert!(MembershipService::plan_purchase("USER", &plan("STORE_PRO", 1), &rich_user(), 0).is_none());
    assert!(MembershipService::plan_purchase("USER", &plan("USER_PRO", 10_001), &rich_user(), 0).is_none());
    assert!(MembershipService::plan_purchase("USER", &plan("USER_PRO", 1), &rich_user(), 1).is_none());
    assert!(MembershipService::plan_purchase("USER", &plan("USER_GOLD", 1), &rich_user(), 0).is_none());
}

#[test]
fn purchase_arithmetic_range() {
    let mut full = rich_user();
    full.user_info_mission_do = i32::MAX - 5;
    assert!(!MembershipService::purchase_in_range("USER", &plan("USER_STARTER", 1), &full, 0));
    assert!(MembershipService::purchase_in_range("USER", &plan("USER_STARTER", 1), &full, 1));
    assert!(MembershipService::purchase_in_range("USER", &plan("USER_STARTER", 1), &rich_user(), 0));
}

#[test]
fn points_range_matters_only_for_a_tier_plan() {
    let mut i = rich_user();
    i.user_info_point = i32::MAX;
    assert!(MembershipService::purchase_in_range("USER", &plan("USER_PLAN", -1), &i, 0));
    assert!(MembershipService::plan_purchase("USER", &plan("USER_PLAN", -1), &i, 0).is_none());
    assert!(!MembershipService::purchase_in_range("USER", &plan("USER_STARTER", -1), &i, 0));
}

#[test]
fn purchase_messages() {
    let store = PurchasePlan { mission_make: 10, mission_do: 0, current_point: 5 };
    let r = MembershipService::payment_response("STORE", "STORE_PRO".to_string(), &store, 77);
    assert_eq!(r.success_message, "축하합니다! 이제 총 10회 미션 생성이 가능합니다.");
    assert_eq!((r.payment_id, r.current_point), (77, 5));
    let user = PurchasePlan { mission_make: 0, mission_do: 25, current_point: 7000 };
    let u = MembershipService::payment_response("USER", "USER_GROWTH".to_string(), &user, 78);
    assert_eq!(u.success_message, "축하합니다! 이제 총 25회 미션 수행이 가능합니다.");
    assert_eq!(u.membership_name, "USER_GROWTH");
}
