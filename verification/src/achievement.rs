//! Achievements: when a user's record meets an achievement's condition, and
//! which achievements a check grants, each at most once.

use vstd::prelude::*;
use crate::auth::UserInfo;
use crate::text::str_eq;

verus! {

/// An achievement and its reward.
pub struct Achievement {
    pub achievement_id: i64,
    pub achievement_name: String,
    pub condition_desc: Option<String>,
    pub condition_type: Option<String>,
    pub condition_value: Option<i32>,
    pub reward_point: Option<i32>,
    pub reward_exp: Option<i32>,
}

/// An achievement a user holds. The instant is in microseconds.
pub struct UserAchievement {
    pub user_achievement_id: i64,
    pub user_id: i64,
    pub achievement_id: i64,
    pub achieved_at: Option<i64>,
    pub achievement_name: Option<String>,
}

/// An achievement to grant, with the points and experience it adds.
pub struct Award {
    pub achievement_id: i64,
    pub reward_point: i32,
    pub reward_exp: i32,
}

/// The user's record meets the achievement's condition: its level, missions
/// done, missions to make or attendance reaches the threshold (0 when none
/// is set); an achievement of any other kind is never met.
pub open spec fn condition_met(info: UserInfo, a: Achievement) -> bool {
    let threshold: i32 = match a.condition_value {
        Some(v) => v,
        None => 0,
    };
    match a.condition_type {
        Some(t) => if t@ == "LEVEL"@ {
            info.user_info_level >= threshold
        } else if t@ == "MISSION_DO"@ {
            info.user_info_mission_do >= threshold
        } else if t@ == "MISSION_MAKE"@ {
            info.user_info_mission_make >= threshold
        } else if t@ == "ATTEND"@ {
            info.user_info_attend >= threshold
        } else {
            false
        },
        None => false,
    }
}

/// The award of an achievement: its points and experience, 0 when unset.
pub open spec fn award_of(a: Achievement) -> Award {
    Award {
        achievement_id: a.achievement_id,
        reward_point: match a.reward_point {
            Some(p) => p,
            None => 0,
        },
        reward_exp: match a.reward_exp {
            Some(e) => e,
            None => 0,
        },
    }
}

/// The awards of a check, in the order of the achievements: each
/// achievement whose id is not among `held` (the ids the user holds,
/// growing with each grant) and whose condition the record meets.
pub open spec fn awards_of(info: UserInfo, achievements: Seq<Achievement>, held: Seq<i64>) -> Seq<Award>
    decreases achievements.len(),
{
    if achievements.len() == 0 {
        Seq::empty()
    } else {
        let a = achievements[0];
        if !held.contains(a.achievement_id) && condition_met(info, a) {
            seq![award_of(a)] + awards_of(info, achievements.drop_first(), held.push(a.achievement_id))
        } else {
            awards_of(info, achievements.drop_first(), held)
        }
    }
}

/// The ids of the achievements `awards` grant, in order.
pub open spec fn award_ids(awards: Seq<Award>) -> Seq<i64> {
    awards.map_values(|w: Award| w.achievement_id)
}

/// The two records agree on everything an achievement's condition reads.
pub open spec fn same_progress(a: UserInfo, b: UserInfo) -> bool {
    &&& a.user_info_level == b.user_info_level
    &&& a.user_info_mission_do == b.user_info_mission_do
    &&& a.user_info_mission_make == b.user_info_mission_make
    &&& a.user_info_attend == b.user_info_attend
}

fn holds_id(held: &Vec<i64>, id: i64) -> (r: bool)
    ensures
        r == held@.contains(id),
{
    let mut i: usize = 0;
    while i < held.len()
        invariant
            i <= held.len(),
            forall|j: int| 0 <= j < i ==> held@[j] != id,
        decreases held.len() - i,
    {
        if held[i] == id {
            assert(held@[i as int] == id);
            return true;
        }
        i = i + 1;
    }
    false
}

/// Achievement decisions; the caller reads and writes the records.
pub struct AchievementService;

impl AchievementService {
    /// Whether the record meets the achievement's condition.
    pub fn is_achieved(info: &UserInfo, achievement: &Achievement) -> (res: bool)
        ensures
            res == condition_met(*info, *achievement),
    {
        let threshold: i32 = match achievement.condition_value {
            Some(v) => v,
            None => 0,
        };
        match &achievement.condition_type {
            Some(t) => if str_eq(t.as_str(), "LEVEL") {
                info.user_info_level >= threshold
            } else if str_eq(t.as_str(), "MISSION_DO") {
                info.user_info_mission_do >= threshold
            } else if str_eq(t.as_str(), "MISSION_MAKE") {
                info.user_info_mission_make >= threshold
            } else if str_eq(t.as_str(), "ATTEND") {
                info.user_info_attend >= threshold
            } else {
                false
            },
            None => false,
        }
    }

    /// What a check grants the user with record `info`, given every
    /// achievement and the ids of those the user holds already.
    pub fn plan_awards(info: &UserInfo, achievements: &Vec<Achievement>, held: &Vec<i64>) -> (r: Vec<Award>)
        ensures
            r@ == awards_of(*info, achievements@, held@),
    {
        let mut seen: Vec<i64> = Vec::new();
        let mut j: usize = 0;
        while j < held.len()
            invariant
                j <= held.len(),
                seen@ == held@.take(j as int),
            decreases held.len() - j,
        {
            seen.push(held[j]);
            assert(held@.take(j + 1) =~= held@.take(j as int).push(held@[j as int]));
            j = j + 1;
        }
        assert(held@.take(held.len() as int) =~= held@);
        let mut r: Vec<Award> = Vec::new();
        let mut i: usize = 0;
        assert(achievements@.skip(0) =~= achievements@);
        while i < achievements.len()
            invariant
                i <= achievements.len(),
                r@ + awards_of(*info, achievements@.skip(i as int), seen@) == awards_of(*info, achievements@, held@),
            decreases achievements.len() - i,
        {
            let a = &achievements[i];
            let ghost rest = achievements@.skip(i as int);
            assert(rest[0] == achievements@[i as int]);
            assert(rest.drop_first() =~= achievements@.skip(i + 1));
            if !holds_id(&seen, a.achievement_id) && Self::is_achieved(info, a) {
                let reward_point: i32 = match a.reward_point {
                    Some(p) => p,
                    None => 0,
                };
                let reward_exp: i32 = match a.reward_exp {
                    Some(e) => e,
                    None => 0,
                };
                let ghost before = r@;
                r.push(Award { achievement_id: a.achievement_id, reward_point, reward_exp });
                seen.push(a.achievement_id);
                assert(r@ =~= before + seq![award_of(*a)]);
                assert(before + (seq![award_of(*a)] + awards_of(*info, achievements@.skip(i + 1), seen@))
                    =~= r@ + awards_of(*info, achievements@.skip(i + 1), seen@));
            }
            i = i + 1;
        }
        assert(achievements@.skip(achievements.len() as int) =~= Seq::<Achievement>::empty());
        assert(r@ + Seq::<Award>::empty() =~= r@);
        r
    }
}

/// A check grants only achievements the user does not hold yet and whose
/// condition the record meets, each with its own reward, and none twice; it
/// never grants more awards than there are achievements.
pub proof fn law_awards_are_earned_and_new(info: UserInfo, achievements: Seq<Achievement>, held: Seq<i64>)
    ensures
        awards_of(info, achievements, held).len() <= achievements.len(),
        forall|k: int| 0 <= k < awards_of(info, achievements, held).len() ==> exists|i: int|
            0 <= i < achievements.len() && !held.contains(achievements[i].achievement_id)
                && condition_met(info, achievements[i])
                && #[trigger] awards_of(info, achievements, held)[k] == award_of(achievements[i]),
        forall|k: int| 0 <= k < awards_of(info, achievements, held).len()
            ==> !held.contains(#[trigger] awards_of(info, achievements, held)[k].achievement_id),
        forall|k: int, l: int| 0 <= k < l < awards_of(info, achievements, held).len()
            ==> #[trigger] awards_of(info, achievements, held)[k].achievement_id
                != #[trigger] awards_of(info, achievements, held)[l].achievement_id,
    decreases achievements.len(),
{
    if achievements.len() > 0 {
        let a = achievements[0];
        let tail = achievements.drop_first();
        let all = awards_of(info, achievements, held);
        if !held.contains(a.achievement_id) && condition_met(info, a) {
            let held2 = held.push(a.achievement_id);
            law_awards_are_earned_and_new(info, tail, held2);
            let rest = awards_of(info, tail, held2);
            assert(all == seq![award_of(a)] + rest);
            assert forall|k: int| 0 <= k < all.len() implies exists|i: int|
                0 <= i < achievements.len() && !held.contains(achievements[i].achievement_id)
                    && condition_met(info, achievements[i]) && #[trigger] all[k] == award_of(achievements[i]) by {
                if k == 0 {
                    assert(all[0] == award_of(achievements[0]));
                } else {
                    assert(all[k] == rest[k - 1]);
                    let i = choose|i: int| 0 <= i < tail.len() && !held2.contains(tail[i].achievement_id)
                        && condition_met(info, tail[i]) && rest[k - 1] == award_of(tail[i]);
                    assert(achievements[i + 1] == tail[i]);
                    assert(!held.contains(tail[i].achievement_id)) by {
                        if held.contains(tail[i].achievement_id) {
                            let j = choose|j: int| 0 <= j < held.len() && held[j] == tail[i].achievement_id;
                            assert(held2[j] == held[j]);
                        }
                    }
                }
            }
            assert forall|k: int| 0 <= k < all.len() implies !held.contains(#[trigger] all[k].achievement_id) by {
                if k > 0 {
                    assert(all[k] == rest[k - 1]);
                    if held.contains(all[k].achievement_id) {
                        let j = choose|j: int| 0 <= j < held.len() && held[j] == all[k].achievement_id;
                        assert(held2[j] == held[j]);
                    }
                }
            }
            assert forall|k: int, l: int| 0 <= k < l < all.len() implies #[trigger] all[k].achievement_id
                != #[trigger] all[l].achievement_id by {
                assert(all[l] == rest[l - 1]);
                if k == 0 {
                    assert(held2[held.len() as int] == a.achievement_id);
                    assert(!held2.contains(rest[l - 1].achievement_id));
                } else {
                    assert(all[k] == rest[k - 1]);
                }
            }
        } else {
            law_awards_are_earned_and_new(info, tail, held);
            let rest = awards_of(info, tail, held);
            assert(all == rest);
            assert forall|k: int| 0 <= k < all.len() implies exists|i: int|
                0 <= i < achievements.len() && !held.contains(achievements[i].achievement_id)
                    && condition_met(info, achievements[i]) && #[trigger] all[k] == award_of(achievements[i]) by {
                let i = choose|i: int| 0 <= i < tail.len() && !held.contains(tail[i].achievement_id)
                    && condition_met(info, tail[i]) && rest[k] == award_of(tail[i]);
                assert(achievements[i + 1] == tail[i]);
            }
        }
    }
}

/// Checking again right after a check grants nothing: once the granted
/// achievements are held, and the record has changed only in what rewards
/// add (points and experience), no achievement is left to grant.
pub proof fn law_nothing_granted_twice(info: UserInfo, later: UserInfo, achievements: Seq<Achievement>, held: Seq<i64>)
    requires
        same_progress(info, later),
    ensures
        awards_of(later, achievements, held + award_ids(awards_of(info, achievements, held))).len() == 0,
    decreases achievements.len(),
{
    if achievements.len() > 0 {
        let a = achievements[0];
        let tail = achievements.drop_first();
        let all = awards_of(info, achievements, held);
        if !held.contains(a.achievement_id) && condition_met(info, a) {
            let held2 = held.push(a.achievement_id);
            law_nothing_granted_twice(info, later, tail, held2);
            let rest = awards_of(info, tail, held2);
            assert(all == seq![award_of(a)] + rest);
            assert(award_ids(all) =~= seq![a.achievement_id] + award_ids(rest));
            assert(held + award_ids(all) =~= held2 + award_ids(rest));
            let after = held + award_ids(all);
            assert(after[held.len() as int] == a.achievement_id);
            assert(after.contains(a.achievement_id));
        } else {
            law_nothing_granted_twice(info, later, tail, held);
            let rest = awards_of(info, tail, held);
            assert(all == rest);
            let after = held + award_ids(all);
            if held.contains(a.achievement_id) {
                let j = choose|j: int| 0 <= j < held.len() && held[j] == a.achievement_id;
                assert(after[j] == held[j]);
            }
        }
    }
}

/// Each kind of achievement reads its own part of the record against its
/// threshold (0 when none is set): `LEVEL` the level, `MISSION_DO` the
/// missions done, `MISSION_MAKE` the missions to make, `ATTEND` the total
/// attendance; an achievement of no kind or of any other kind is never met.
pub proof fn law_each_kind_reads_its_own_field(info: UserInfo, a: Achievement)
    ensures
        ({
            let threshold: int = match a.condition_value {
                Some(v) => v as int,
                None => 0,
            };
            let kind: Option<Seq<char>> = match a.condition_type {
                Some(t) => Some(t@),
                None => None,
            };
            &&& kind == Some("LEVEL"@) ==> (condition_met(info, a) <==> info.user_info_level >= threshold)
            &&& kind == Some("MISSION_DO"@) ==> (condition_met(info, a) <==> info.user_info_mission_do >= threshold)
            &&& kind == Some("MISSION_MAKE"@) ==> (condition_met(info, a) <==> info.user_info_mission_make >= threshold)
            &&& kind == Some("ATTEND"@) ==> (condition_met(info, a) <==> info.user_info_attend >= threshold)
            &&& kind != Some("LEVEL"@) && kind != Some("MISSION_DO"@) && kind != Some("MISSION_MAKE"@)
                && kind != Some("ATTEND"@) ==> !condition_met(info, a)
        }),
{
    reveal_strlit("LEVEL");
    reveal_strlit("MISSION_DO");
    reveal_strlit("MISSION_MAKE");
    reveal_strlit("ATTEND");
    assert("LEVEL"@[0] != "MISSION_DO"@[0]);
    assert("LEVEL"@[0] != "MISSION_MAKE"@[0]);
    assert("MISSION_DO"@[8] != "MISSION_MAKE"@[8]);
    assert("LEVEL"@[0] != "ATTEND"@[0]);
    assert("MISSION_DO"@[0] != "ATTEND"@[0]);
}

} // verus!
