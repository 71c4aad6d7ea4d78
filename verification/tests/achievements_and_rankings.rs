use mission_service::achievement::{Achievement, AchievementService};
use mission_service::auth::{User, UserInfo};
use mission_service::ranking::{RankItemDto, RankingService};
use mission_service::search::KeywordQuery;
use mission_service::servicecenter::{ServiceCenter, ServiceCenterService};

fn achievement(id: i64, kind: Option<&str>, value: Option<i32>) -> Achievement {
    Achievement {
        achievement_id: id,
        achievement_name: format!("a{}", id),
        condition_desc: None,
        condition_type: kind.map(|k| k.to_string()),
        condition_value: value,
        reward_point: Some(100),
        reward_exp: None,
    }
}

#[test]
fn conditions_by_kind() {
    let mut info = UserInfo::for_normal_user(1);
    info.user_info_level = 5;
    info.user_info_attend = 3;
    assert!(AchievementService::is_achieved(&info, &achievement(1, Some("LEVEL"), Some(5))));
    assert!(!AchievementService::is_achieved(&info, &achievement(1, Some("LEVEL"), Some(6))));
    assert!(AchievementService::is_achieved(&info, &achievement(1, Some("MISSION_DO"), Some(10))));
    assert!(AchievementService::is_achieved(&info, &achievement(1, Some("MISSION_MAKE"), None)));
    assert!(!AchievementService::is_achieved(&info, &achievement(1, Some("ATTEND"), Some(4))));
    assert!(!AchievementService::is_achieved(&info, &achievement(1, Some("REVIEW"), Some(0))));
    assert!(!AchievementService::is_achieved(&info, &achievement(1, None, Some(0))));
}

#[test]
fn awards_are_new_and_earned() {
    let info = UserInfo::for_normal_user(1);
    let all = vec![
        achievement(1, Some("LEVEL"), Some(1)),
        achievement(2, Some("LEVEL"), Some(2)),
        achievement(3, Some("MISSION_DO"), Some(10)),
        achievement(4, Some("ATTEND"), Some(0)),
    ];
    let awards = AchievementService::plan_awards(&info, &all, &vec![3]);
    let ids: Vec<i64> = awards.iter().map(|a| a.achievement_id).collect();
    assert_eq!(ids, vec![1, 4]);
    assert_eq!((awards[0].reward_point, awards[0].reward_exp), (100, 0));
    let none = AchievementService::plan_awards(&info, &all, &vec![1, 2, 3, 4]);
    assert!(none.is_empty());
}

#[test]
fn second_check_grants_nothing() {
    let info = UserInfo::for_normal_user(1);
    let all = vec![
        achievement(1, Some("LEVEL"), Some(1)),
        achievement(2, Some("LEVEL"), Some(2)),
        achievement(4, Some("ATTEND"), Some(0)),
    ];
    let mut held: Vec<i64> = vec![];
    let first = AchievementService::plan_awards(&info, &all, &held);
    assert_eq!(first.len(), 2);
    held.extend(first.iter().map(|a| a.achievement_id));
    assert!(AchievementService::plan_awards(&info, &all, &held).is_empty());
}

#[test]
fn an_id_listed_twice_is_granted_once() {
    let info = UserInfo::for_normal_user(1);
    let all = vec![achievement(7, Some("LEVEL"), Some(1)), achievement(7, Some("ATTEND"), Some(0))];
    let awards = AchievementService::plan_awards(&info, &all, &vec![]);
    assert_eq!(awards.len(), 1);
    assert_eq!(awards[0].achievement_id, 7);
}

fn person(kind: &str) -> User {
    let mut u = User::new("n".to_string(), "nick".to_string(), "pw".to_string(), kind.to_string(), 0);
    u.user_id = Some(8);
    u.user_avatar = Some("a.png".to_string());
    u
}

#[test]
fn standings() {
    assert!(RankingService::is_known_board("WEEKLY"));
    assert!(RankingService::is_known_board("MONTHLY"));
    assert!(!RankingService::is_known_board("DAILY"));
    let fallback = RankingService::my_status(&person("USER"), None);
    assert_eq!((fallback.rank_no, fallback.user_id, fallback.season_exp), (1, 8, 0));
    assert_eq!(fallback.nickname, "nick");
    assert_eq!(fallback.avatar, Some("a.png".to_string()));
    let settled = RankItemDto { rank_no: 4, user_id: 8, nickname: "old".to_string(), avatar: None, season_exp: 900 };
    assert_eq!(RankingService::my_status(&person("USER"), Some(settled)).rank_no, 4);
    assert!(RankingService::standing_allowed(&person("PENDING")));
    assert!(!RankingService::standing_allowed(&person("STORE")));
}

#[test]
fn boards() {
    let line = RankItemDto { rank_no: 1, user_id: 2, nickname: "x".to_string(), avatar: None, season_exp: 10 };
    let b = RankingService::ranking_board("WEEKLY", &person("USER"), vec![line], None);
    assert_eq!(b.ranking_type, "WEEKLY");
    assert_eq!(b.ranking_list.len(), 1);
    assert_eq!(b.my_ranking.expect("shown").rank_no, 1);
    let s = RankingService::ranking_board("MONTHLY", &person("STORE"), Vec::new(), None);
    assert!(s.my_ranking.is_none());
    let p = RankingService::ranking_board("MONTHLY", &person("PENDING"), Vec::new(), None);
    assert!(p.my_ranking.is_none());
}

#[test]
fn inquiries_and_search_terms() {
    let rows = vec![
        ServiceCenter {
            service_center_id: 1,
            user_id: 5,
            title: "t1".to_string(),
            content: "c1".to_string(),
            status: "OPEN".to_string(),
            created_date: 10,
            response_content: None,
            response_date: None,
        },
        ServiceCenter {
            service_center_id: 2,
            user_id: 5,
            title: "t2".to_string(),
            content: "c2".to_string(),
            status: "DONE".to_string(),
            created_date: 9,
            response_content: Some("ok".to_string()),
            response_date: Some(11),
        },
    ];
    let shown = ServiceCenterService::to_responses(rows);
    assert_eq!(shown.len(), 2);
    assert_eq!((shown[0].id, shown[0].title.as_str()), (1, "t1"));
    assert_eq!((shown[1].id, shown[1].status.as_str(), shown[1].response_date), (2, "DONE", Some(11)));
    let q = KeywordQuery { keyword: None, category: Some("CAFE".to_string()) };
    assert_eq!(q.keyword_term(), "");
    let q = KeywordQuery { keyword: Some("빵".to_string()), category: None };
    assert_eq!(q.category_term(), "");
}
