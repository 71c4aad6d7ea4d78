//! Missions: who may create, change and join them, the six-character code a
//! store hands its visitors, and the check of a visit — owner, lock, distance,
//! code — with the one-hour lock after three failed tries.

use vstd::prelude::*;
use crate::auth::{User, UserInfo};
use crate::number::int_decimal;
use crate::text::{ascii_upper, str_eq};

verus! {

/// A row of `MISSION`. Days are day numbers of the calendar, instants are
/// microseconds.
pub struct Mission {
    pub mission_id: i64,
    pub mission_title: Option<String>,
    pub mission_start: Option<i32>,
    pub mission_end: Option<i32>,
    pub mission_info: Option<String>,
    pub mission_people: i32,
    pub mission_code: Option<String>,
    pub mission_image: Option<String>,
    pub store_id: Option<i64>,
    pub is_pull_up: i32,
    pub store_reward_given_yn: Option<String>,
    pub mission_created_at: Option<i64>,
}

/// A row of `MISSION_BOOKMARK`.
pub struct MissionBookmark {
    pub bookmark_id: i64,
    pub user_id: i64,
    pub mission_id: i64,
}

/// A row of `MISSION_PARTICIPATE`. Days are day numbers, instants
/// microseconds.
pub struct MissionParticipate {
    pub participate_id: i64,
    pub mission_id: i64,
    pub user_id: i64,
    pub mission_participate_code: Option<String>,
    pub mission_participate_status: Option<String>,
    pub mission_participate_start_date: Option<i32>,
    pub mission_participate_complete_date: Option<i32>,
    pub mission_participate_given_yn: Option<String>,
    pub mission_participate_reward_exp: Option<i64>,
    pub mission_participate_authenticated_try: Option<i64>,
    pub mission_participate_locked_at: Option<i64>,
    pub mission_participate_locked_until: Option<i64>,
    pub coupon_receive_id: Option<i64>,
}

/// A request to create a mission.
pub struct MissionRequestDto {
    pub mission_title: String,
    pub mission_info: String,
}

/// The answer to a created mission. Days are day numbers.
pub struct MissionCreateResponseDto {
    pub mission_id: i64,
    pub mission_code: String,
    pub mission_start: i32,
    pub mission_end: i32,
}

/// A mission's code, as shown to its store.
pub struct MissionCodeResponseDto {
    pub mission_code: String,
}

/// A change to a mission. Days are day numbers.
pub struct MissionUpdateDto {
    pub mission_title: Option<String>,
    pub mission_info: Option<String>,
    pub mission_start: Option<i32>,
    pub mission_end: Option<i32>,
    pub mission_people: Option<i32>,
}

/// What a mission creation stores besides the request's text, and what it
/// leaves of the owner's allowance: one mission fewer to make, and the head
/// count back at its base (a raised head count serves one mission).
pub struct MissionDraft {
    pub mission_start: i32,
    pub mission_end: i32,
    pub mission_people: i32,
    pub mission_code: String,
    pub store_id: i64,
    pub owner_mission_make: i32,
    pub owner_mission_people: i32,
}

/// A participation about to be stored.
pub struct NewParticipation {
    pub mission_id: i64,
    pub user_id: i64,
    pub status: String,
    pub start_date: i32,
    pub given_yn: String,
    pub authenticated_try: i64,
    pub reward_exp: i64,
}

/// Which missions "my missions" lists.
pub enum MyMissionsScope {
    /// No such user: nothing.
    Nothing,
    /// An ordinary user: the missions joined.
    Joined,
    /// Anyone else: the missions of the user's store.
    Owned,
}

/// How a visit's check ends, when it ends with an answer.
pub enum AuthenticationOutcome {
    /// The participation is locked.
    Locked,
    /// The visitor is more than 200 m from the store.
    TooFar,
    /// The code matched; `exp` experience is granted.
    Verified { exp: i32 },
    /// The code did not match: the new failure count and lock.
    Failed { fail: i64, locked_at: Option<i64>, locked_until: Option<i64> },
}

/// Days a mission runs.
pub const MISSION_DAYS: i32 = 14;

/// The head count a mission admits when none was bought.
pub const BASE_MISSION_PEOPLE: i32 = 15;

/// Failed tries after which a participation is locked.
pub const MAX_TRIES: i64 = 3;

/// Experience granted when the participation names none.
pub const DEFAULT_REWARD_EXP: i64 = 200;

/// A lower-case hexadecimal digit.
pub open spec fn is_lower_hex(c: char) -> bool {
    ('0' <= c && c <= '9') || ('a' <= c && c <= 'f')
}

/// An upper-case hexadecimal digit.
pub open spec fn is_upper_hex(c: char) -> bool {
    ('0' <= c && c <= '9') || ('A' <= c && c <= 'F')
}

/// `uuid::Uuid::new_v4().simple().to_string()`: a random UUID in the simple
/// form, 32 lower-case hexadecimal digits (uuid's `format_simple`). Which
/// digits come is left open: they are random.
#[verifier::external_body]
pub(crate) fn random_uuid_simple() -> (s: String)
    ensures
        s@.len() == 32,
        forall|i: int| 0 <= i < 32 ==> is_lower_hex(#[trigger] s@[i]),
{
    uuid::Uuid::new_v4().simple().to_string()
}

/// The code of a mission: the first six digits of a simple UUID, in upper
/// case.
pub open spec fn code_from_uuid(simple: Seq<char>) -> Seq<char> {
    simple.take(6).map_values(|c: char| ascii_upper(c))
}

/// Six upper-case hexadecimal digits.
pub open spec fn is_mission_code(s: Seq<char>) -> bool {
    s.len() == 6 && forall|i: int| 0 <= i < 6 ==> is_upper_hex(#[trigger] s[i])
}

/// The code made from a simple UUID: its first six digits in upper case.
pub fn mission_code_from(simple: &str) -> (code: String)
    requires
        simple@.len() >= 6,
    ensures
        code@ == code_from_uuid(simple@),
{
    let v = crate::text::chars_of(simple);
    let mut out: Vec<char> = Vec::new();
    let mut i: usize = 0;
    while i < 6
        invariant
            v@ == simple@,
            v@.len() >= 6,
            i <= 6,
            out@ == v@.take(i as int).map_values(|c: char| ascii_upper(c)),
        decreases 6 - i,
    {
        out.push(crate::text::to_ascii_upper(v[i]));
        i = i + 1;
        assert(v@.take(i as int).map_values(|c: char| ascii_upper(c)) =~= v@.take(i - 1).map_values(
            |c: char| ascii_upper(c),
        ).push(ascii_upper(v@[i - 1])));
    }
    crate::text::string_of(out.as_slice())
}

/// A fresh mission code from a random UUID.
pub fn new_mission_code() -> (code: String)
    ensures
        is_mission_code(code@),
{
    let simple = random_uuid_simple();
    let code = mission_code_from(simple.as_str());
    assert forall|i: int| 0 <= i < 6 implies is_upper_hex(#[trigger] code@[i]) by {
        assert(is_lower_hex(simple@[i]));
    }
    code
}

/// The mission a store owner may create today: the account is a store's,
/// has missions left to make and has a store with a key.
pub open spec fn creation_allowed(user: Option<User>, info: Option<UserInfo>, store_id: Option<i64>) -> bool {
    &&& user matches Some(u) && u.user_type@ == "STORE"@
    &&& info matches Some(i) && i.user_info_mission_make > 0
    &&& store_id is Some
}

/// A user may join a mission that exists and that the user has not joined:
/// `existing` counts the user's participation rows for the mission.
pub open spec fn join_allowed(existing: int, mission_found: bool) -> bool {
    existing <= 0 && mission_found
}

/// Missions decisions; the caller reads and writes the records.
pub struct MissionService;

impl MissionService {
    /// The mission a store owner creates on day `today`: it runs fourteen
    /// days from today, admits the owner's current head count, and carries a
    /// fresh code; the owner is left one mission fewer to make and the base
    /// head count. `None` when the account is not a store's, has no missions
    /// left to make, or has no store.
    pub fn plan_mission(user: &Option<User>, user_info: &Option<UserInfo>, store_id: Option<i64>, today: i32) -> (r: Option<MissionDraft>)
        requires
            today <= i32::MAX - MISSION_DAYS,
        ensures
            creation_allowed(*user, *user_info, store_id) <==> r is Some,
            r matches Some(d) ==> {
                &&& d.mission_start == today
                &&& d.mission_end == today + MISSION_DAYS
                &&& d.mission_people == user_info->0.temp_mission_people
                &&& is_mission_code(d.mission_code@)
                &&& store_id == Some(d.store_id)
                &&& d.owner_mission_make == user_info->0.user_info_mission_make - 1
                &&& d.owner_mission_people == BASE_MISSION_PEOPLE
            },
    {
        let u = match user {
            Some(u) => u,
            None => return None,
        };
        if !str_eq(u.user_type.as_str(), "STORE") {
            return None;
        }
        let info = match user_info {
            Some(i) => i,
            None => return None,
        };
        if info.user_info_mission_make <= 0 {
            return None;
        }
        let sid = match store_id {
            Some(s) => s,
            None => return None,
        };
        let mission_code = new_mission_code();
        Some(MissionDraft {
            mission_start: today,
            mission_end: today + MISSION_DAYS,
            mission_people: info.temp_mission_people,
            mission_code,
            store_id: sid,
            owner_mission_make: info.user_info_mission_make - 1,
            owner_mission_people: BASE_MISSION_PEOPLE,
        })
    }

    /// The answer to a created mission.
    pub fn creation_response(mission_id: i64, draft: MissionDraft) -> (r: MissionCreateResponseDto)
        ensures
            r.mission_id == mission_id,
            r.mission_code == draft.mission_code,
            r.mission_start == draft.mission_start,
            r.mission_end == draft.mission_end,
    {
        MissionCreateResponseDto {
            mission_id,
            mission_code: draft.mission_code,
            mission_start: draft.mission_start,
            mission_end: draft.mission_end,
        }
    }

    /// Which missions a user's "my missions" lists: the joined ones for an
    /// ordinary user, the store's own for anyone else, none for no user.
    pub fn my_missions_scope(user: &Option<User>) -> (r: MyMissionsScope)
        ensures
            match *user {
                None => r is Nothing,
                Some(u) => if u.user_type@ == "USER"@ { r is Joined } else { r is Owned },
            },
    {
        match user {
            None => MyMissionsScope::Nothing,
            Some(u) => if str_eq(u.user_type.as_str(), "USER") {
                MyMissionsScope::Joined
            } else {
                MyMissionsScope::Owned
            },
        }
    }

    /// A mission may be changed or deleted by the owner of its store only:
    /// the mission must exist, its store must be found, and the store's
    /// owner must be the user.
    pub fn may_change_mission(current: &Option<Mission>, store_owner: Option<i64>, user_id: i64) -> (res: bool)
        ensures
            res == (current is Some && store_owner == Some(user_id)),
    {
        match current {
            Some(_) => match store_owner {
                Some(owner) => owner == user_id,
                None => false,
            },
            None => false,
        }
    }

    /// Joining a mission: refused when the user has joined it already
    /// (`existing` such rows) or the mission does not exist; otherwise the
    /// participation starts today, in progress, with no reward given, no
    /// try made and 200 experience to earn.
    pub fn participation_plan(existing: i64, mission_found: bool, mission_id: i64, user_id: i64, today: i32) -> (r: Option<NewParticipation>)
        ensures
            join_allowed(existing as int, mission_found) <==> r is Some,
            r matches Some(p) ==> {
                &&& p.mission_id == mission_id
                &&& p.user_id == user_id
                &&& p.status@ == "진행중"@
                &&& p.start_date == today
                &&& p.given_yn@ == "N"@
                &&& p.authenticated_try == 0
                &&& p.reward_exp == DEFAULT_REWARD_EXP
            },
    {
        if existing > 0 || !mission_found {
            return None;
        }
        Some(NewParticipation {
            mission_id,
            user_id,
            status: crate::text::string_from("진행중"),
            start_date: today,
            given_yn: crate::text::string_from("N"),
            authenticated_try: 0,
            reward_exp: DEFAULT_REWARD_EXP,
        })
    }

    /// A mission can be bookmarked once per user: only while no bookmark of
    /// it exists.
    pub fn bookmark_allowed(existing: i64) -> (res: bool)
        ensures
            res == (existing <= 0),
    {
        existing <= 0
    }
}

/// The failure count after one more failed try.
pub open spec fn next_failure_count(p: MissionParticipate) -> int {
    match p.mission_participate_authenticated_try {
        Some(t) => t + 1,
        None => 1,
    }
}

/// The experience a participation grants, as an `i32` (the stored `i64`
/// truncated, as a cast does).
pub open spec fn reward_exp_of(p: MissionParticipate) -> i32 {
    match p.mission_participate_reward_exp {
        Some(e) => e as i32,
        None => DEFAULT_REWARD_EXP as i32,
    }
}

/// The participation is locked at `now`.
pub open spec fn locked_at_instant(p: MissionParticipate, now: i64) -> bool {
    p.mission_participate_locked_until matches Some(until) && now < until
}

/// The code typed in matches the mission's.
pub open spec fn code_matches(m: Mission, input_code: Seq<char>) -> bool {
    m.mission_code matches Some(c) && c@ == input_code
}

/// The check of a visit: the participation must exist and be the user's,
/// and the coordinates valid (else no answer); a locked participation is
/// answered so; the mission and its store must be found (else no answer);
/// a visitor too far away is answered so; a matching code completes the
/// mission; any other code counts a failure, and the third failure locks
/// the participation for an hour from `now`.
pub open spec fn authentication_outcome(
    participate: Option<MissionParticipate>,
    user_id: i64,
    coords_valid: bool,
    now: i64,
    mission: Option<Mission>,
    store_found: bool,
    too_far: bool,
    input_code: Seq<char>,
) -> Option<AuthenticationOutcome> {
    match participate {
        None => None,
        Some(p) => if p.user_id != user_id || !coords_valid {
            None
        } else if locked_at_instant(p, now) {
            Some(AuthenticationOutcome::Locked)
        } else {
            match mission {
                None => None,
                Some(m) => if !store_found {
                    None
                } else if too_far {
                    Some(AuthenticationOutcome::TooFar)
                } else if code_matches(m, input_code) {
                    Some(AuthenticationOutcome::Verified { exp: reward_exp_of(p) })
                } else {
                    let fail = next_failure_count(p);
                    if fail >= MAX_TRIES {
                        Some(AuthenticationOutcome::Failed {
                            fail: fail as i64,
                            locked_at: Some(now),
                            locked_until: Some((now + crate::clock::HOUR_MICROS) as i64),
                        })
                    } else {
                        Some(AuthenticationOutcome::Failed {
                            fail: fail as i64,
                            locked_at: p.mission_participate_locked_at,
                            locked_until: p.mission_participate_locked_until,
                        })
                    }
                },
            }
        },
    }
}

/// The check reaches the count of a failed try.
pub open spec fn reaches_failure(
    participate: Option<MissionParticipate>,
    user_id: i64,
    coords_valid: bool,
    now: i64,
    mission: Option<Mission>,
    store_found: bool,
    too_far: bool,
    input_code: Seq<char>,
) -> bool {
    authentication_outcome(participate, user_id, coords_valid, now, mission, store_found, too_far, input_code)
        matches Some(AuthenticationOutcome::Failed { .. })
}

/// The failure count and the lock's end fit in `i64` where they are
/// computed.
pub open spec fn authentication_fits(
    participate: Option<MissionParticipate>,
    user_id: i64,
    coords_valid: bool,
    now: i64,
    mission: Option<Mission>,
    store_found: bool,
    too_far: bool,
    input_code: Seq<char>,
) -> bool {
    reaches_failure(participate, user_id, coords_valid, now, mission, store_found, too_far, input_code) ==> {
        let p = participate->0;
        &&& next_failure_count(p) <= i64::MAX
        &&& next_failure_count(p) >= MAX_TRIES ==> now + crate::clock::HOUR_MICROS <= i64::MAX
    }
}

/// The answer to a check.
pub open spec fn outcome_message(o: AuthenticationOutcome) -> Seq<char> {
    match o {
        AuthenticationOutcome::Locked => "잠금 상태입니다"@,
        AuthenticationOutcome::TooFar => "가게와 너무 멉니다"@,
        AuthenticationOutcome::Verified { .. } => "인증 성공"@,
        AuthenticationOutcome::Failed { fail, .. } => "인증 실패 ("@ + int_decimal(fail as int) + "/3)"@,
    }
}

/// The notice sent when a mission is completed.
pub open spec fn completion_notice(exp: i32) -> Seq<char> {
    "미션 완료! EXP +"@ + int_decimal(exp as int)
}

impl MissionService {
    fn outcome_before_code(p: &MissionParticipate, now: i64, mission: &Mission, input_code: &str) -> (r: AuthenticationOutcome)
        requires
            !code_matches(*mission, input_code@) ==> next_failure_count(*p) <= i64::MAX && (next_failure_count(*p)
                >= MAX_TRIES ==> now + crate::clock::HOUR_MICROS <= i64::MAX),
        ensures
            code_matches(*mission, input_code@) ==> r == (AuthenticationOutcome::Verified { exp: reward_exp_of(*p) }),
            !code_matches(*mission, input_code@) ==> r == (if next_failure_count(*p) >= MAX_TRIES {
                AuthenticationOutcome::Failed {
                    fail: next_failure_count(*p) as i64,
                    locked_at: Some(now),
                    locked_until: Some((now + crate::clock::HOUR_MICROS) as i64),
                }
            } else {
                AuthenticationOutcome::Failed {
                    fail: next_failure_count(*p) as i64,
                    locked_at: p.mission_participate_locked_at,
                    locked_until: p.mission_participate_locked_until,
                }
            }),
    {
        let matched = match &mission.mission_code {
            Some(c) => str_eq(c.as_str(), input_code),
            None => false,
        };
        if matched {
            let exp: i32 = match p.mission_participate_reward_exp {
                Some(e) => e as i32,
                None => DEFAULT_REWARD_EXP as i32,
            };
            return AuthenticationOutcome::Verified { exp };
        }
        let fail: i64 = match p.mission_participate_authenticated_try {
            Some(t) => t + 1,
            None => 1,
        };
        if fail >= MAX_TRIES {
            AuthenticationOutcome::Failed {
                fail,
                locked_at: Some(now),
                locked_until: Some(now + crate::clock::HOUR_MICROS),
            }
        } else {
            AuthenticationOutcome::Failed {
                fail,
                locked_at: p.mission_participate_locked_at,
                locked_until: p.mission_participate_locked_until,
            }
        }
    }

    /// Whether the check's arithmetic stays within `i64` (else the failure
    /// count or the lock's end overflows).
    pub fn authentication_in_range(
        participate: &Option<MissionParticipate>,
        user_id: i64,
        coords_valid: bool,
        now: i64,
        mission: &Option<Mission>,
        store_found: bool,
        too_far: bool,
        input_code: &str,
    ) -> (res: bool)
        ensures
            res == authentication_fits(*participate, user_id, coords_valid, now, *mission, store_found, too_far, input_code@),
    {
        let p = match participate {
            Some(p) => p,
            None => return true,
        };
        if p.user_id != user_id || !coords_valid {
            return true;
        }
        if let Some(until) = p.mission_participate_locked_until {
            if now < until {
                return true;
            }
        }
        let m = match mission {
            Some(m) => m,
            None => return true,
        };
        if !store_found || too_far {
            return true;
        }
        let matched = match &m.mission_code {
            Some(c) => str_eq(c.as_str(), input_code),
            None => false,
        };
        if matched {
            return true;
        }
        let tries: i64 = match p.mission_participate_authenticated_try {
            Some(t) => t,
            None => 0,
        };
        if tries == i64::MAX {
            return false;
        }
        if tries + 1 >= MAX_TRIES {
            now <= i64::MAX - crate::clock::HOUR_MICROS
        } else {
            true
        }
    }

    /// The check of a visit by `user_id` at `now`, given what the caller
    /// read: the participation, whether the coordinates lie in range, the
    /// mission, whether its store was found and whether the visitor is
    /// farther than 200 m from it, and the code typed in. `None` where the
    /// request is refused without an answer.
    pub fn authenticate(
        participate: &Option<MissionParticipate>,
        user_id: i64,
        coords_valid: bool,
        now: i64,
        mission: &Option<Mission>,
        store_found: bool,
        too_far: bool,
        input_code: &str,
    ) -> (r: Option<AuthenticationOutcome>)
        requires
            authentication_fits(*participate, user_id, coords_valid, now, *mission, store_found, too_far, input_code@),
        ensures
            r == authentication_outcome(*participate, user_id, coords_valid, now, *mission, store_found, too_far, input_code@),
    {
        let p = match participate {
            Some(p) => p,
            None => return None,
        };
        if p.user_id != user_id || !coords_valid {
            return None;
        }
        if let Some(until) = p.mission_participate_locked_until {
            if now < until {
                return Some(AuthenticationOutcome::Locked);
            }
        }
        let m = match mission {
            Some(m) => m,
            None => return None,
        };
        if !store_found {
            return None;
        }
        if too_far {
            return Some(AuthenticationOutcome::TooFar);
        }
        Some(Self::outcome_before_code(p, now, m, input_code))
    }

    /// The text answering a check.
    pub fn outcome_text(outcome: &AuthenticationOutcome) -> (s: String)
        ensures
            s@ == outcome_message(*outcome),
    {
        match outcome {
            AuthenticationOutcome::Locked => crate::text::string_from("잠금 상태입니다"),
            AuthenticationOutcome::TooFar => crate::text::string_from("가게와 너무 멉니다"),
            AuthenticationOutcome::Verified { .. } => crate::text::string_from("인증 성공"),
            AuthenticationOutcome::Failed { fail, .. } => {
                let mut v = crate::text::chars_of("인증 실패 (");
                crate::number::push_i64_decimal(&mut v, *fail);
                let tail = crate::text::chars_of("/3)");
                let mut s = crate::text::string_of(v.as_slice());
                crate::text::push_chars(&mut s, tail.as_slice());
                s
            },
        }
    }

    /// The notice of a completed mission.
    pub fn completion_text(exp: i32) -> (s: String)
        ensures
            s@ == completion_notice(exp),
    {
        let mut v = crate::text::chars_of("미션 완료! EXP +");
        crate::number::push_i64_decimal(&mut v, exp as i64);
        crate::text::string_of(v.as_slice())
    }
}

/// A locked participation stays locked until its lock ends: whatever code
/// is typed and wherever the visitor stands, the answer is the lock.
pub proof fn law_locked_participation_refuses(
    p: MissionParticipate,
    user_id: i64,
    now: i64,
    mission: Option<Mission>,
    store_found: bool,
    too_far: bool,
    input_code: Seq<char>,
)
    requires
        p.user_id == user_id,
        locked_at_instant(p, now),
    ensures
        authentication_outcome(Some(p), user_id, true, now, mission, store_found, too_far, input_code)
            == Some(AuthenticationOutcome::Locked),
{
}

/// Only the participant is answered: anyone else's check ends without an
/// answer and changes nothing.
pub proof fn law_only_participant_checks(
    p: MissionParticipate,
    user_id: i64,
    coords_valid: bool,
    now: i64,
    mission: Option<Mission>,
    store_found: bool,
    too_far: bool,
    input_code: Seq<char>,
)
    requires
        p.user_id != user_id,
    ensures
        authentication_outcome(Some(p), user_id, coords_valid, now, mission, store_found, too_far, input_code) is None,
{
}

/// Every failed try adds one to the count; from the third failure on, the
/// participation is locked for exactly one hour from the failure.
pub proof fn law_third_failure_locks_for_an_hour(
    p: MissionParticipate,
    user_id: i64,
    now: i64,
    mission: Option<Mission>,
    input_code: Seq<char>,
)
    requires
        authentication_outcome(Some(p), user_id, true, now, mission, true, false, input_code) matches Some(
            AuthenticationOutcome::Failed { .. },
        ),
        authentication_fits(Some(p), user_id, true, now, mission, true, false, input_code),
    ensures
        authentication_outcome(Some(p), user_id, true, now, mission, true, false, input_code) matches Some(
            AuthenticationOutcome::Failed { fail, locked_at, locked_until },
        ) && fail == next_failure_count(p) && (fail >= MAX_TRIES ==> locked_at == Some(now) && locked_until == Some(
            (now + crate::clock::HOUR_MICROS) as i64,
        )),
{
}

/// The right code, typed near the store while not locked, completes the
/// mission with the participation's experience.
pub proof fn law_matching_code_completes(
    p: MissionParticipate,
    now: i64,
    mission: Mission,
    input_code: Seq<char>,
)
    requires
        !locked_at_instant(p, now),
        code_matches(mission, input_code),
    ensures
        authentication_outcome(Some(p), p.user_id, true, now, Some(mission), true, false, input_code)
            == Some(AuthenticationOutcome::Verified { exp: reward_exp_of(p) }),
{
}

/// A user joins a mission at most once: the join that is allowed leaves one
/// more participation row for the pair, and with that row stored every
/// further join of the same mission by the same user is refused.
pub proof fn law_join_at_most_once(existing: int, mission_found: bool, later_found: bool)
    requires
        join_allowed(existing, mission_found),
        existing >= 0,
    ensures
        !join_allowed(existing + 1, later_found),
{
}

/// A wrong code typed by the participant, near the store and while not
/// locked, counts one more failure (the first when none was counted). Only a
/// count of three or more locks the participation, for one hour from `now`;
/// a count below three leaves its lock as it was.
pub proof fn law_lock_only_from_the_third_failure(
    p: MissionParticipate,
    user_id: i64,
    now: i64,
    m: Mission,
    input_code: Seq<char>,
)
    requires
        p.user_id == user_id,
        !(p.mission_participate_locked_until matches Some(until) && now < until),
        !(m.mission_code matches Some(c) && c@ == input_code),
    ensures
        ({
            let fail: int = match p.mission_participate_authenticated_try {
                Some(t) => t + 1,
                None => 1,
            };
            authentication_outcome(Some(p), user_id, true, now, Some(m), true, false, input_code) == Some(
                if fail < 3 {
                    AuthenticationOutcome::Failed {
                        fail: fail as i64,
                        locked_at: p.mission_participate_locked_at,
                        locked_until: p.mission_participate_locked_until,
                    }
                } else {
                    AuthenticationOutcome::Failed {
                        fail: fail as i64,
                        locked_at: Some(now),
                        locked_until: Some((now + 3_600_000_000) as i64),
                    }
                },
            )
        }),
{
}

/// What the participant's visit is answered, before any code is counted:
/// while the lock lasts (`now` before its end) the lock; else, with the
/// mission and its store found, a visitor farther than allowed is told so,
/// and the mission's own code completes the mission with the
/// participation's experience (200 when it names none).
pub proof fn law_visit_answers(
    p: MissionParticipate,
    now: i64,
    m: Mission,
    too_far: bool,
    input_code: Seq<char>,
)
    ensures
        (p.mission_participate_locked_until matches Some(until) && now < until) ==> authentication_outcome(
            Some(p), p.user_id, true, now, Some(m), true, too_far, input_code,
        ) == Some(AuthenticationOutcome::Locked),
        !(p.mission_participate_locked_until matches Some(until) && now < until) && too_far ==> authentication_outcome(
            Some(p), p.user_id, true, now, Some(m), true, too_far, input_code,
        ) == Some(AuthenticationOutcome::TooFar),
        !(p.mission_participate_locked_until matches Some(until) && now < until) && !too_far
            && (m.mission_code matches Some(c) && c@ == input_code) ==> authentication_outcome(
            Some(p), p.user_id, true, now, Some(m), true, too_far, input_code,
        ) == Some(AuthenticationOutcome::Verified {
            exp: match p.mission_participate_reward_exp {
                Some(e) => e as i32,
                None => 200i32,
            },
        }),
{
}

} // verus!
