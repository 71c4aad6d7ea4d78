//! Coupons: which received coupon can still be used, what using one does for
//! a store owner or an ordinary user, and the number a coupon's name carries.

use vstd::prelude::*;
use crate::auth::UserInfo;
use crate::number::{digits_value, is_digit, parsed_i32};
use crate::text::{seq_contains, str_contains, str_eq};

verus! {

/// A received coupon joined with its definition. Instants are microseconds.
pub struct CouponReceiveDetail {
    pub receive_id: i64,
    pub used: i32,
    pub display_name: Option<String>,
    pub receive_path: Option<String>,
    pub issued_at: Option<i64>,
    pub expired_at: i64,
    pub coupon_id: i64,
    pub coupon_name: String,
    pub user_id: i64,
}

/// An available coupon as listed to its owner.
pub struct CouponResponseDto {
    pub receive_id: i64,
    pub coupon_name: String,
    pub expired_at: i64,
}

/// A line of a user's coupon history.
pub struct CouponHistoryResponseDto {
    pub receive_no: i64,
    pub coupon_name: String,
    pub used: i32,
    pub issued_at: Option<i64>,
    pub expired_at: i64,
}

/// Query of a coupon use: the mission a pull-up coupon is for.
pub struct CouponUseQuery {
    pub mission_id: Option<i64>,
}

/// What using a coupon answers.
pub struct CouponUseResponseDto {
    pub status: String,
    pub user_type: String,
    pub coupon_name: String,
    pub mission_people: i32,
    pub exp_multiplier: i32,
    pub can_pull_up: i32,
}

/// What using a coupon changes.
pub enum CouponEffect {
    /// A store owner's next mission admits this many people.
    MissionPeople(i32),
    /// The store owner's mission moves to the top of the list.
    PullUp(i64),
    /// A user's experience is multiplied by this factor.
    ExpMultiplier(i32),
}

/// The ASCII digits of `s`, in order.
pub open spec fn digits_in(s: Seq<char>) -> Seq<char>
    decreases s.len(),
{
    if s.len() == 0 {
        Seq::empty()
    } else if is_digit(s.last()) {
        digits_in(s.drop_last()).push(s.last())
    } else {
        digits_in(s.drop_last())
    }
}

/// The number written by the digits of `text`, all other characters
/// dropped; `0` when there are none or the number exceeds `i32`.
pub open spec fn number_in(text: Seq<char>) -> i32 {
    match parsed_i32(digits_in(text)) {
        Some(v) => v,
        None => 0,
    }
}

/// The number a coupon's name carries, as in "확장 30" or "경험치 2배".
pub fn extract_number(text: &str) -> (n: i32)
    ensures
        n == number_in(text@),
{
    let v = crate::text::chars_of(text);
    let mut digits: Vec<char> = Vec::new();
    let mut i: usize = 0;
    while i < v.len()
        invariant
            i <= v.len(),
            digits@ == digits_in(v@.take(i as int)),
        decreases v.len() - i,
    {
        let c = v[i];
        assert(v@.take(i + 1).drop_last() =~= v@.take(i as int));
        if '0' <= c && c <= '9' {
            digits.push(c);
        }
        i = i + 1;
    }
    assert(v@.take(v.len() as int) =~= v@);
    let s = crate::text::string_of(digits.as_slice());
    match crate::number::parse_i32(s.as_str()) {
        Some(n) => n,
        None => 0,
    }
}

/// A received coupon can be used while it is unused and not yet expired.
pub open spec fn usable(c: CouponReceiveDetail, now: i64) -> bool {
    c.used == 0 && c.expired_at > now
}

/// The effect of using coupon `name` (carrying `value`) for a user of type
/// `user_type` with info `info`, or `None` when the coupon does not apply.
pub open spec fn coupon_effect(
    user_type: Seq<char>,
    name: Seq<char>,
    info: UserInfo,
    mission_id: Option<i64>,
) -> Option<CouponEffect> {
    let value = number_in(name);
    if user_type == "STORE"@ {
        if seq_contains(name, "확장"@) {
            if info.temp_mission_people > 15 || value <= 0 {
                None
            } else {
                Some(CouponEffect::MissionPeople(value))
            }
        } else if seq_contains(name, "끌올"@) {
            match mission_id {
                Some(id) => Some(CouponEffect::PullUp(id)),
                None => None,
            }
        } else {
            None
        }
    } else if user_type == "USER"@ {
        if !seq_contains(name, "경험치"@) || info.temp_exp_multiplier > 1 || value <= 0 {
            None
        } else {
            Some(CouponEffect::ExpMultiplier(value))
        }
    } else {
        None
    }
}

/// Coupon decisions; the caller reads and writes the records.
pub struct CouponService;

impl CouponService {
    /// Coupons listed as available must outlive `now` by more than a minute.
    pub fn availability_cutoff(now: i64) -> (cutoff: i64)
        requires
            now <= i64::MAX - crate::clock::MINUTE_MICROS,
        ensures
            cutoff == now + crate::clock::MINUTE_MICROS,
    {
        now + crate::clock::MINUTE_MICROS
    }

    /// Whether a received coupon can still be used at `now`.
    pub fn is_usable(coupon: &CouponReceiveDetail, now: i64) -> (res: bool)
        ensures
            res == usable(*coupon, now),
    {
        coupon.used == 0 && coupon.expired_at > now
    }

    /// The coupon found by receive number and owner, kept only if usable.
    pub fn find_valid_coupon(found: Option<CouponReceiveDetail>, now: i64) -> (res: Option<CouponReceiveDetail>)
        ensures
            match found {
                Some(c) => if usable(c, now) { res == Some(c) } else { res is None },
                None => res is None,
            },
    {
        match found {
            Some(c) => if Self::is_usable(&c, now) { Some(c) } else { None },
            None => None,
        }
    }

    /// What using `coupon` does, given the user's type and info. A store
    /// owner's "확장" coupon raises the head count of the next mission (only
    /// while it is still the standard 15, and for a positive number); a
    /// "끌올" coupon pulls up the given mission; an ordinary user's "경험치"
    /// coupon multiplies experience, once, by a positive factor.
    pub fn plan_use(
        coupon: &Option<CouponReceiveDetail>,
        user_type: &Option<String>,
        user_info: &Option<UserInfo>,
        mission_id: Option<i64>,
    ) -> (res: Option<CouponEffect>)
        ensures
            match (*coupon, *user_type, *user_info) {
                (Some(c), Some(t), Some(i)) => res == coupon_effect(t@, c.coupon_name@, i, mission_id),
                _ => res is None,
            },
    {
        let c = match coupon {
            Some(c) => c,
            None => return None,
        };
        let t = match user_type {
            Some(t) => t,
            None => return None,
        };
        let info = match user_info {
            Some(i) => i,
            None => return None,
        };
        let name = c.coupon_name.as_str();
        let value = extract_number(name);
        if str_eq(t.as_str(), "STORE") {
            if str_contains(name, "확장") {
                if info.temp_mission_people > 15 || value <= 0 {
                    None
                } else {
                    Some(CouponEffect::MissionPeople(value))
                }
            } else if str_contains(name, "끌올") {
                match mission_id {
                    Some(id) => Some(CouponEffect::PullUp(id)),
                    None => None,
                }
            } else {
                None
            }
        } else if str_eq(t.as_str(), "USER") {
            if !str_contains(name, "경험치") || info.temp_exp_multiplier > 1 || value <= 0 {
                None
            } else {
                Some(CouponEffect::ExpMultiplier(value))
            }
        } else {
            None
        }
    }

    /// A pull-up goes ahead only for a mission of the user's own store.
    pub fn pull_up_allowed(owned_missions: i64) -> (res: bool)
        ensures
            res == (owned_missions != 0),
    {
        owned_missions != 0
    }

    /// The answer once the coupon's effect is stored and the coupon marked
    /// used.
    pub fn use_response(
        effect: &CouponEffect,
        user_type: String,
        coupon_name: String,
        info: &UserInfo,
    ) -> (r: CouponUseResponseDto)
        ensures
            r.status@ == "SUCCESS"@,
            r.user_type == user_type,
            r.coupon_name == coupon_name,
            r.mission_people == match *effect {
                CouponEffect::MissionPeople(v) => v,
                _ => info.temp_mission_people,
            },
            r.exp_multiplier == match *effect {
                CouponEffect::ExpMultiplier(v) => v,
                _ => info.temp_exp_multiplier,
            },
            r.can_pull_up == if *effect is PullUp { 1i32 } else { 0i32 },
    {
        let mut mission_people = info.temp_mission_people;
        let mut exp_multiplier = info.temp_exp_multiplier;
        let mut can_pull_up: i32 = 0;
        match effect {
            CouponEffect::MissionPeople(v) => mission_people = *v,
            CouponEffect::PullUp(_) => can_pull_up = 1,
            CouponEffect::ExpMultiplier(v) => exp_multiplier = *v,
        }
        CouponUseResponseDto {
            status: crate::text::string_from("SUCCESS"),
            user_type,
            coupon_name,
            mission_people,
            exp_multiplier,
            can_pull_up,
        }
    }
}

/// A coupon never does for one kind of user what is meant for the other: a
/// store owner's coupon never touches experience, a user's never touches
/// missions, and any factor or head count it sets is positive.
pub proof fn law_coupon_effects_by_role(
    user_type: Seq<char>,
    name: Seq<char>,
    info: UserInfo,
    mission_id: Option<i64>,
)
    ensures
        coupon_effect(user_type, name, info, mission_id) matches Some(e) ==> match e {
            CouponEffect::MissionPeople(v) => user_type == "STORE"@ && v > 0 && info.temp_mission_people <= 15,
            CouponEffect::PullUp(id) => user_type == "STORE"@ && mission_id == Some(id),
            CouponEffect::ExpMultiplier(v) => user_type == "USER"@ && v > 0 && info.temp_exp_multiplier <= 1,
        },
{
}

/// A coupon that has been used, or has expired, cannot be used.
pub proof fn law_used_or_expired_coupon_refused(found: CouponReceiveDetail, now: i64)
    requires
        found.used != 0 || found.expired_at <= now,
    ensures
        !usable(found, now),
{
}

} // verus!
