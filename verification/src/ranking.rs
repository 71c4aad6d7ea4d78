//! Rankings: the weekly and monthly boards, and the personal standing that
//! ordinary users see and store owners never do.

use vstd::prelude::*;
use crate::auth::User;
use crate::text::str_eq;

verus! {

/// A settled ranking row. Instants are microseconds.
pub struct Ranking {
    pub ranking_id: i64,
    pub ranking_type: String,
    pub user_id: i64,
    pub rank_no: i32,
    pub exp_score: i32,
    pub reward_point: i32,
    pub period_start: i64,
    pub period_end: i64,
    pub settled_nickname: Option<String>,
    pub settled_avatar: Option<String>,
    pub settled_at: Option<i64>,
}

/// A line of a board.
pub struct RankItemDto {
    pub rank_no: i32,
    pub user_id: i64,
    pub nickname: String,
    pub avatar: Option<String>,
    pub season_exp: i32,
}

/// A board, with the asking user's standing when it is shown.
pub struct RankingResponseDto {
    pub ranking_type: String,
    pub my_ranking: Option<RankItemDto>,
    pub ranking_list: Vec<RankItemDto>,
}

/// The query of a personal standing: which board.
pub struct MyStatusQuery {
    pub ranking_type: String,
}

/// The boards there are.
pub open spec fn known_board(t: Seq<char>) -> bool {
    t == "WEEKLY"@ || t == "MONTHLY"@
}

/// A board shows the asking user's standing only to ordinary users.
pub open spec fn board_shows(user_type: Seq<char>) -> bool {
    user_type == "USER"@
}

/// A standing may be asked for alone by anyone but a store owner.
pub open spec fn standing_query_allowed(user_type: Seq<char>) -> bool {
    user_type != "STORE"@
}

/// A user's standing: the settled one when there is one, else first place
/// with no experience yet, under the user's own name and avatar.
pub open spec fn standing(user: User, settled: Option<RankItemDto>, r: RankItemDto) -> bool {
    match settled {
        Some(s) => r == s,
        None => {
            &&& r.rank_no == 1
            &&& r.user_id == (match user.user_id {
                Some(id) => id,
                None => 0,
            })
            &&& r.nickname == user.user_nickname
            &&& r.avatar == user.user_avatar
            &&& r.season_exp == 0
        },
    }
}

/// Ranking decisions; the caller reads the records.
pub struct RankingService;

impl RankingService {
    /// Whether `t` names a board.
    pub fn is_known_board(t: &str) -> (res: bool)
        ensures
            res == known_board(t@),
    {
        str_eq(t, "WEEKLY") || str_eq(t, "MONTHLY")
    }

    /// Whether a board shows the asking user's standing: only to ordinary
    /// users.
    pub fn board_shows_standing(user: &User) -> (res: bool)
        ensures
            res == board_shows(user.user_type@),
    {
        str_eq(user.user_type.as_str(), "USER")
    }

    /// Whether a user may ask for a standing alone: anyone but a store
    /// owner.
    pub fn standing_allowed(user: &User) -> (res: bool)
        ensures
            res == standing_query_allowed(user.user_type@),
    {
        !str_eq(user.user_type.as_str(), "STORE")
    }

    /// The user's standing on a board, given the settled row found for them.
    pub fn my_status(user: &User, settled: Option<RankItemDto>) -> (r: RankItemDto)
        ensures
            standing(*user, settled, r),
    {
        match settled {
            Some(s) => s,
            None => RankItemDto {
                rank_no: 1,
                user_id: match user.user_id {
                    Some(id) => id,
                    None => 0,
                },
                nickname: user.user_nickname.clone(),
                avatar: match &user.user_avatar {
                    Some(a) => Some(a.clone()),
                    None => None,
                },
                season_exp: 0,
            },
        }
    }

    /// The board of type `ranking_type`: its lines, and the standing when
    /// the board shows one to this user.
    pub fn ranking_board(
        ranking_type: &str,
        user: &User,
        ranking_list: Vec<RankItemDto>,
        settled: Option<RankItemDto>,
    ) -> (r: RankingResponseDto)
        ensures
            r.ranking_type@ == ranking_type@,
            r.ranking_list == ranking_list,
            board_shows(user.user_type@) <==> r.my_ranking is Some,
            r.my_ranking matches Some(m) ==> standing(*user, settled, m),
    {
        let my_ranking = if Self::board_shows_standing(user) {
            Some(Self::my_status(user, settled))
        } else {
            None
        };
        RankingResponseDto {
            ranking_type: crate::text::string_from(ranking_type),
            my_ranking,
            ranking_list,
        }
    }
}

/// A store owner never sees a personal standing, neither on a board nor
/// asked for alone; an ordinary user sees it both ways.
pub proof fn law_store_owners_have_no_standing(user_type: Seq<char>)
    ensures
        user_type == "STORE"@ ==> !board_shows(user_type) && !standing_query_allowed(user_type),
        user_type == "USER"@ ==> board_shows(user_type) && standing_query_allowed(user_type),
{
    reveal_strlit("STORE");
    reveal_strlit("USER");
    assert("STORE"@ != "USER"@) by {
        assert("STORE"@[0] != "USER"@[0]);
    }
}

} // verus!
