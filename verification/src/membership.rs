//! Memberships: which plan a user may buy, once a calendar month, and how a
//! plan raises the number of missions a store owner may make or a user may
//! do.

use vstd::prelude::*;
use crate::auth::UserInfo;
use crate::number::int_decimal;
use crate::text::{seq_contains, str_contains, str_eq};

verus! {

/// A membership plan.
pub struct Membership {
    pub membership_id: i64,
    pub membership_name: String,
    pub price: i32,
    pub benefits: Option<String>,
}

/// The answer to a completed purchase.
pub struct MembershipPaymentDto {
    pub payment_id: i64,
    pub membership_name: String,
    pub mission_make: i32,
    pub mission_do: i32,
    pub current_point: i32,
    pub success_message: String,
}

/// A line of a user's purchase history. The instant is in microseconds.
pub struct MembershipHistoryDto {
    pub payment_id: i64,
    pub membership_name: String,
    pub amount: i32,
    pub paid_at: i64,
    pub status: String,
}

/// The key of a stored payment.
pub struct MembershipPayment {
    pub payment_id: i64,
}

/// What a purchase stores: the new allowances and the points left.
pub struct PurchasePlan {
    pub mission_make: i32,
    pub mission_do: i32,
    pub current_point: i32,
}

/// The year and month of the naive date-time `instant` microseconds after
/// 1970-01-01T00:00, as `chrono` computes them; `None` where `chrono` cannot
/// represent the instant.
pub uninterp spec fn calendar_month(instant: i64) -> Option<(i32, u32)>;

/// The instant (microseconds after 1970-01-01T00:00) of midnight on the first
/// day of `month` of `year`, as `chrono` computes it; `None` where there is no
/// such date.
pub uninterp spec fn month_start(year: i32, month: u32) -> Option<i64>;

/// `chrono::DateTime::from_timestamp_micros`, then the year and month of the
/// naive date-time. The result is named `calendar_month`; chrono documents
/// months 1 to 12, and its dates lie between the years -262143 and 262142.
#[verifier::external_body]
fn calendar_month_of(instant: i64) -> (r: Option<(i32, u32)>)
    ensures
        r == calendar_month(instant),
        r matches Some(ym) ==> 1 <= ym.1 <= 12 && -262144 < ym.0 < 262144,
{
    match chrono::DateTime::from_timestamp_micros(instant) {
        Some(t) => Some((chrono::Datelike::year(&t.naive_utc()), chrono::Datelike::month(&t.naive_utc()))),
        None => None,
    }
}

/// `chrono::NaiveDate::from_ymd_opt(year, month, 1)` at 00:00:00, in
/// microseconds after 1970-01-01T00:00. The result is named `month_start`;
/// nothing more is stated of it.
#[verifier::external_body]
fn first_instant_of_month(year: i32, month: u32) -> (r: Option<i64>)
    ensures
        r == month_start(year, month),
{
    match chrono::NaiveDate::from_ymd_opt(year, month, 1) {
        Some(d) => match d.and_hms_opt(0, 0, 0) {
            Some(t) => Some(t.and_utc().timestamp_micros()),
            None => None,
        },
        None => None,
    }
}

/// The month after `month` of `year`.
pub open spec fn following_month(year: int, month: int) -> (int, int) {
    if month == 12 { (year + 1, 1) } else { (year, month + 1) }
}

/// The month after `month` of `year`.
pub fn next_month(year: i32, month: u32) -> (r: (i32, u32))
    requires
        year < i32::MAX,
        month < u32::MAX,
    ensures
        (r.0 as int, r.1 as int) == following_month(year as int, month as int),
{
    if month == 12 { (year + 1, 1) } else { (year, month + 1) }
}

/// The calendar month holding `now`, from its first instant to the first
/// instant of the next month.
pub open spec fn month_window(now: i64) -> Option<(i64, i64)> {
    match calendar_month(now) {
        Some(ym) => {
            let next = following_month(ym.0 as int, ym.1 as int);
            match (month_start(ym.0, ym.1), month_start(next.0 as i32, next.1 as u32)) {
                (Some(a), Some(b)) => Some((a, b)),
                _ => None,
            }
        },
        None => None,
    }
}

/// The first instant of the month holding `now` and that of the next month.
pub fn month_window_of(now: i64) -> (r: Option<(i64, i64)>)
    ensures
        r == month_window(now),
{
    let (year, month) = match calendar_month_of(now) {
        Some(ym) => ym,
        None => return None,
    };
    let start = match first_instant_of_month(year, month) {
        Some(s) => s,
        None => return None,
    };
    let (ny, nm) = next_month(year, month);
    match first_instant_of_month(ny, nm) {
        Some(e) => Some((start, e)),
        None => None,
    }
}

/// The local clock's now, and the window of the month that holds it.
pub fn current_month_window() -> (r: (i64, Option<(i64, i64)>))
    ensures
        r.1 == month_window(r.0),
{
    let now = crate::clock::local_now();
    (now, month_window_of(now))
}

/// The missions a tier adds: `starter`, `growth` or `pro` by the tier named
/// in `name`, looked for in that order.
pub open spec fn tier_increase(name: Seq<char>, starter: int, growth: int, pro: int) -> Option<int> {
    if seq_contains(name, "STARTER"@) {
        Some(starter)
    } else if seq_contains(name, "GROWTH"@) {
        Some(growth)
    } else if seq_contains(name, "PRO"@) {
        Some(pro)
    } else {
        None
    }
}

/// The allowances (missions to make, missions to do) after buying plan
/// `name`: a store owner's store plan adds 2, 4 or 7 missions to make, a
/// user's user plan 10, 15 or 20 missions to do; `None` for any other pair.
pub open spec fn membership_counts(user_type: Seq<char>, name: Seq<char>, make: int, to_do: int) -> Option<(int, int)> {
    if user_type == "STORE"@ && seq_contains(name, "STORE"@) {
        match tier_increase(name, 2, 4, 7) {
            Some(k) => Some((make + k, to_do)),
            None => None,
        }
    } else if user_type == "USER"@ && seq_contains(name, "USER"@) {
        match tier_increase(name, 10, 15, 20) {
            Some(k) => Some((make, to_do + k)),
            None => None,
        }
    } else {
        None
    }
}

/// The new allowances fit in `i32`.
pub open spec fn counts_fit(user_type: Seq<char>, name: Seq<char>, info: UserInfo) -> bool {
    match membership_counts(user_type, name, info.user_info_mission_make as int, info.user_info_mission_do as int) {
        Some(c) => c.0 <= i32::MAX && c.1 <= i32::MAX,
        None => true,
    }
}

fn tier_of(name: &str, starter: i32, growth: i32, pro: i32) -> (r: Option<i32>)
    ensures
        r matches Some(k) ==> tier_increase(name@, starter as int, growth as int, pro as int) == Some(k as int),
        r is None ==> tier_increase(name@, starter as int, growth as int, pro as int) is None,
{
    if str_contains(name, "STARTER") {
        Some(starter)
    } else if str_contains(name, "GROWTH") {
        Some(growth)
    } else if str_contains(name, "PRO") {
        Some(pro)
    } else {
        None
    }
}

/// The allowances after buying plan `membership_name`, or `None` when the
/// plan is not one for this user type.
pub fn updated_membership_counts(user_type: &str, membership_name: &str, user_info: &UserInfo) -> (r: Option<(i32, i32)>)
    requires
        counts_fit(user_type@, membership_name@, *user_info),
    ensures
        match membership_counts(user_type@, membership_name@, user_info.user_info_mission_make as int, user_info.user_info_mission_do as int) {
            Some(c) => r == Some((c.0 as i32, c.1 as i32)),
            None => r is None,
        },
{
    let mission_make = user_info.user_info_mission_make;
    let mission_do = user_info.user_info_mission_do;
    if str_eq(user_type, "STORE") && str_contains(membership_name, "STORE") {
        match tier_of(membership_name, 2, 4, 7) {
            Some(k) => Some((mission_make + k, mission_do)),
            None => None,
        }
    } else if str_eq(user_type, "USER") && str_contains(membership_name, "USER") {
        match tier_of(membership_name, 10, 15, 20) {
            Some(k) => Some((mission_make, mission_do + k)),
            None => None,
        }
    } else {
        None
    }
}

/// The purchase of plan (`name`, `price`) by a user of type `user_type` with
/// info `info`, who has `already` completed purchases this month: the plan
/// must name the user's type, the points must cover the price, nothing may
/// have been bought this month, and the plan must be a tier of the user's
/// kind. The result is (missions to make, missions to do, points left).
pub open spec fn purchase_outcome(
    user_type: Seq<char>,
    name: Seq<char>,
    price: i32,
    info: UserInfo,
    already: i64,
) -> Option<(int, int, int)> {
    if !seq_contains(name, user_type) || info.user_info_point < price || already > 0 {
        None
    } else {
        match membership_counts(user_type, name, info.user_info_mission_make as int, info.user_info_mission_do as int) {
            Some(c) => Some((c.0, c.1, info.user_info_point - price)),
            None => None,
        }
    }
}

/// The arithmetic of a purchase stays within `i32`: where the purchase gets
/// as far as new allowances, they and the points left fit.
pub open spec fn purchase_fits(user_type: Seq<char>, name: Seq<char>, price: i32, info: UserInfo, already: i64) -> bool {
    (seq_contains(name, user_type) && info.user_info_point >= price && already <= 0) ==> match membership_counts(
        user_type,
        name,
        info.user_info_mission_make as int,
        info.user_info_mission_do as int,
    ) {
        Some(c) => c.0 <= i32::MAX && c.1 <= i32::MAX && info.user_info_point - price <= i32::MAX,
        None => true,
    }
}

/// The success message: missions to make for a store owner, missions to do
/// for anyone else.
pub open spec fn success_message(user_type: Seq<char>, make: int, to_do: int) -> Seq<char> {
    if user_type == "STORE"@ {
        "축하합니다! 이제 총 "@ + int_decimal(make) + "회 미션 생성이 가능합니다."@
    } else {
        "축하합니다! 이제 총 "@ + int_decimal(to_do) + "회 미션 수행이 가능합니다."@
    }
}

/// Membership decisions; the caller reads and writes the records.
pub struct MembershipService;

impl MembershipService {
    /// Whether the purchase's arithmetic stays within `i32` (else it
    /// overflows, as the counters of the records would).
    pub fn purchase_in_range(user_type: &str, membership: &Membership, user_info: &UserInfo, already_purchased: i64) -> (res: bool)
        ensures
            res == purchase_fits(user_type@, membership.membership_name@, membership.price, *user_info, already_purchased),
    {
        let name = membership.membership_name.as_str();
        if !(str_contains(name, user_type) && user_info.user_info_point >= membership.price && already_purchased <= 0) {
            return true;
        }
        let make = user_info.user_info_mission_make as i64;
        let to_do = user_info.user_info_mission_do as i64;
        let points_fit = user_info.user_info_point as i64 - membership.price as i64 <= i32::MAX as i64;
        if str_eq(user_type, "STORE") && str_contains(name, "STORE") {
            match tier_of(name, 2, 4, 7) {
                Some(k) => make + k as i64 <= i32::MAX as i64 && points_fit,
                None => true,
            }
        } else if str_eq(user_type, "USER") && str_contains(name, "USER") {
            match tier_of(name, 10, 15, 20) {
                Some(k) => to_do + k as i64 <= i32::MAX as i64 && points_fit,
                None => true,
            }
        } else {
            true
        }
    }

    /// What buying `membership` does for a user of type `user_type` with
    /// info `user_info` and `already_purchased` completed purchases in the
    /// current month, or `None` when the purchase is refused.
    pub fn plan_purchase(user_type: &str, membership: &Membership, user_info: &UserInfo, already_purchased: i64) -> (r: Option<PurchasePlan>)
        requires
            purchase_fits(user_type@, membership.membership_name@, membership.price, *user_info, already_purchased),
        ensures
            match purchase_outcome(user_type@, membership.membership_name@, membership.price, *user_info, already_purchased) {
                Some(o) => r matches Some(p) && p.mission_make == o.0 && p.mission_do == o.1 && p.current_point == o.2,
                None => r is None,
            },
    {
        let name = membership.membership_name.as_str();
        if !str_contains(name, user_type) {
            return None;
        }
        if user_info.user_info_point < membership.price {
            return None;
        }
        if already_purchased > 0 {
            return None;
        }
        let (mission_make, mission_do) = match updated_membership_counts(user_type, name, user_info) {
            Some(c) => c,
            None => return None,
        };
        let current_point = user_info.user_info_point - membership.price;
        Some(PurchasePlan { mission_make, mission_do, current_point })
    }

    /// The answer once the plan is stored and the payment recorded.
    pub fn payment_response(user_type: &str, membership_name: String, plan: &PurchasePlan, payment_id: i64) -> (r: MembershipPaymentDto)
        ensures
            r.payment_id == payment_id,
            r.membership_name == membership_name,
            r.mission_make == plan.mission_make,
            r.mission_do == plan.mission_do,
            r.current_point == plan.current_point,
            r.success_message@ == success_message(user_type@, plan.mission_make as int, plan.mission_do as int),
    {
        let mut text: Vec<char> = crate::text::chars_of("축하합니다! 이제 총 ");
        let store = str_eq(user_type, "STORE");
        if store {
            crate::number::push_i64_decimal(&mut text, plan.mission_make as i64);
            let tail = crate::text::chars_of("회 미션 생성이 가능합니다.");
            let mut s = crate::text::string_of(text.as_slice());
            crate::text::push_chars(&mut s, tail.as_slice());
            MembershipPaymentDto {
                payment_id,
                membership_name,
                mission_make: plan.mission_make,
                mission_do: plan.mission_do,
                current_point: plan.current_point,
                success_message: s,
            }
        } else {
            crate::number::push_i64_decimal(&mut text, plan.mission_do as i64);
            let tail = crate::text::chars_of("회 미션 수행이 가능합니다.");
            let mut s = crate::text::string_of(text.as_slice());
            crate::text::push_chars(&mut s, tail.as_slice());
            MembershipPaymentDto {
                payment_id,
                membership_name,
                mission_make: plan.mission_make,
                mission_do: plan.mission_do,
                current_point: plan.current_point,
                success_message: s,
            }
        }
    }
}

/// A purchase never leaves the points negative: what is left is the points
/// less the price, and the points covered the price.
pub proof fn law_purchase_keeps_points(user_type: Seq<char>, name: Seq<char>, price: i32, info: UserInfo, already: i64)
    ensures
        purchase_outcome(user_type, name, price, info, already) matches Some(o) ==> o.2 == info.user_info_point - price && o.2 >= 0,
{
}

/// A purchase raises exactly one allowance, by its tier: a store owner's
/// missions to make by 2, 4 or 7, or a user's missions to do by 10, 15 or 20;
/// the other allowance stays as it was.
pub proof fn law_purchase_raises_one_allowance(user_type: Seq<char>, name: Seq<char>, price: i32, info: UserInfo, already: i64)
    ensures
        purchase_outcome(user_type, name, price, info, already) matches Some(o) ==> (
            (user_type == "STORE"@ && o.1 == info.user_info_mission_do
                && (o.0 - info.user_info_mission_make == 2 || o.0 - info.user_info_mission_make == 4 || o.0 - info.user_info_mission_make == 7))
            || (user_type == "USER"@ && o.0 == info.user_info_mission_make
                && (o.1 - info.user_info_mission_do == 10 || o.1 - info.user_info_mission_do == 15 || o.1 - info.user_info_mission_do == 20))),
{
}

/// One purchase a month: a user who has bought in the current month is
/// refused.
pub proof fn law_one_purchase_a_month(user_type: Seq<char>, name: Seq<char>, price: i32, info: UserInfo, already: i64)
    requires
        already > 0,
    ensures
        purchase_outcome(user_type, name, price, info, already) is None,
{
}

} // verus!
