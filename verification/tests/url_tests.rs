use wom_rs::clients::group_client;
use wom_rs::clients::group_client::GroupEndPoints;
use wom_rs::clients::player_client;
use wom_rs::clients::player_client::PlayerEndPoints;
use wom_rs::models::competition::CompetitionStatus;
use wom_rs::models::global_enums::Metric;
use wom_rs::models::global_enums::Period;
use wom_rs::models::global_enums::Skill;
use wom_rs::models::global_types::Timestamp;
use wom_rs::get_url;
use wom_rs::query_params_to_string;
use wom_rs::ApiEndpoint;
use wom_rs::Pagination;

const BASE: &str = "http://localhost:1234";

#[test]
fn api_endpoint_prefixes() {
    assert_eq!(ApiEndpoint::Player.as_str(), "/players");
    assert_eq!(ApiEndpoint::Group.as_str(), "/groups");
}

#[test]
fn pagination_defaults_when_fields_unset() {
    let pagination = Pagination {
        limit: None,
        offset: None,
    };
    let query = pagination.to_query();
    assert_eq!(
        query,
        vec![
            ("limit".to_string(), "20".to_string()),
            ("offset".to_string(), "0".to_string()),
        ]
    );
}

#[test]
fn pagination_with_only_limit_set() {
    let pagination = Pagination {
        limit: Some(10),
        offset: None,
    };
    let query = pagination.to_query();
    assert_eq!(
        query,
        vec![
            ("limit".to_string(), "10".to_string()),
            ("offset".to_string(), "0".to_string()),
        ]
    );
}

#[test]
fn query_string_rendering() {
    assert_eq!(query_params_to_string(&vec![]), "");
    assert_eq!(
        query_params_to_string(&vec![("a".to_string(), "b".to_string())]),
        "?a=b"
    );
    assert_eq!(
        query_params_to_string(&vec![
            ("a".to_string(), "b".to_string()),
            ("c".to_string(), "d".to_string()),
        ]),
        "?a=b&c=d"
    );
}

#[test]
fn search_url_without_pagination_has_no_window_params() {
    let url = player_client::search_url(BASE, "Zezima", None);
    assert_eq!(url, format!("{}/players/search?username=Zezima", BASE));
}

#[test]
fn search_url_with_pagination() {
    let pagination = Pagination {
        limit: Some(10),
        offset: Some(10),
    };
    let url = player_client::search_url(BASE, "Zezima", Some(pagination));
    assert_eq!(
        url,
        format!("{}/players/search?limit=10&offset=10&username=Zezima", BASE)
    );
}

#[test]
fn player_endpoint_paths() {
    assert_eq!(
        PlayerEndPoints::Update("Zezima".to_string()).url(),
        "/players/Zezima"
    );
    assert_eq!(
        PlayerEndPoints::AssertType("Zezima".to_string()).url(),
        "/players/Zezima/assert-type"
    );
    assert_eq!(
        PlayerEndPoints::Details("IFat Fingers".to_string()).url(),
        "/players/IFat Fingers"
    );
    assert_eq!(PlayerEndPoints::DetailsById(1).url(), "/players/id/1");
    assert_eq!(
        PlayerEndPoints::Achievements("Zezima".to_string()).url(),
        "/players/Zezima/achievements"
    );
    assert_eq!(
        PlayerEndPoints::AchievementsProgress("Zezima".to_string()).url(),
        "/players/Zezima/achievements/progress"
    );
    assert_eq!(
        PlayerEndPoints::Snapshots("Zezima".to_string()).url(),
        "/players/Zezima/snapshots"
    );
    assert_eq!(PlayerEndPoints::Search.url(), "/players/search");
}

#[test]
fn details_url_built_from_endpoint() {
    let url = get_url(
        BASE,
        PlayerEndPoints::Details("IFat Fingers".to_string()).url(),
        None,
    );
    assert_eq!(url, format!("{}/players/IFat Fingers", BASE));
}

#[test]
fn competitions_url_with_all_params() {
    let pagination = Pagination {
        limit: Some(10),
        offset: Some(10),
    };
    let url = player_client::competitions_url(
        BASE,
        "IFat Fingers",
        Some(CompetitionStatus::Finished),
        Some(pagination),
    );
    assert_eq!(
        url,
        format!(
            "{}/players/IFat Fingers/competitions?limit=10&offset=10&status=finished",
            BASE
        )
    );
}

#[test]
fn competitions_url_with_only_status() {
    let url = player_client::competitions_url(
        BASE,
        "IFat Fingers",
        Some(CompetitionStatus::Finished),
        None,
    );
    assert_eq!(
        url,
        format!("{}/players/IFat Fingers/competitions?status=finished", BASE)
    );
}

#[test]
fn competitions_url_with_only_pagination() {
    let pagination = Pagination {
        limit: Some(10),
        offset: Some(10),
    };
    let url = player_client::competitions_url(BASE, "IFat Fingers", None, Some(pagination));
    assert_eq!(
        url,
        format!(
            "{}/players/IFat Fingers/competitions?limit=10&offset=10",
            BASE
        )
    );
}

#[test]
fn competition_standings_url_carries_status() {
    let url =
        player_client::competition_standings_url(BASE, "IFat Fingers", CompetitionStatus::Finished);
    assert_eq!(
        url,
        format!(
            "{}/players/IFat Fingers/competitions/standings?status=finished",
            BASE
        )
    );
}

#[test]
fn group_membership_url_without_pagination() {
    let url = player_client::group_membership_url(BASE, "IFat Fingers", None);
    assert_eq!(url, format!("{}/players/IFat Fingers/groups", BASE));
}

#[test]
fn gains_by_period_url_carries_period() {
    let url = player_client::gains_by_period_url(BASE, "IFat Fingers", Period::Week);
    assert_eq!(
        url,
        format!("{}/players/IFat Fingers/gained?period=week", BASE)
    );
}

#[test]
fn gains_by_date_url_formats_timestamps() {
    let start = Timestamp {
        year: 2023,
        month: 1,
        day: 2,
        hour: 3,
        minute: 4,
        second: 5,
    };
    let end = Timestamp {
        year: 987,
        month: 12,
        day: 31,
        hour: 23,
        minute: 59,
        second: 0,
    };
    let url = player_client::gains_by_date_url(BASE, "IFat Fingers", start, end);
    assert_eq!(
        url,
        format!(
            "{}/players/IFat Fingers/gained?startDate=2023-01-02 03:04:05&endDate=0987-12-31 23:59:00",
            BASE
        )
    );
}

#[test]
fn records_url_with_period_and_metric() {
    let url = player_client::records_url(
        BASE,
        "IFat Fingers",
        Some(Period::Week),
        Some(Metric::Skill(Skill::Overall)),
    );
    assert_eq!(
        url,
        format!(
            "{}/players/IFat Fingers/records?period=week&metric=overall",
            BASE
        )
    );
}

#[test]
fn records_url_without_filters() {
    let url = player_client::records_url(BASE, "IFat Fingers", None, None);
    assert_eq!(url, format!("{}/players/IFat Fingers/records", BASE));
}

#[test]
fn group_endpoint_paths() {
    assert_eq!(GroupEndPoints::Search.url(), "/groups");
    assert_eq!(GroupEndPoints::GetGroupDetails(1).url(), "/groups/1");
    assert_eq!(GroupEndPoints::CreateGroup.url(), "/groups");
}

#[test]
fn group_search_url_carries_name() {
    let url = group_client::search_url(BASE, "A Cool Group Name", None);
    assert_eq!(url, format!("{}/groups?name=A Cool Group Name", BASE));
}

#[test]
fn timestamp_query_value_is_zero_padded() {
    let ts = Timestamp {
        year: 4,
        month: 10,
        day: 7,
        hour: 0,
        minute: 5,
        second: 59,
    };
    assert_eq!(ts.to_query_value(), "0004-10-07 00:05:59");
}

#[test]
fn decimal_renderings() {
    assert_eq!(wom_rs::text::u64_to_string(0), "0");
    assert_eq!(wom_rs::text::u64_to_string(102030), "102030");
    assert_eq!(wom_rs::text::i64_to_string(-45), "-45");
    assert_eq!(wom_rs::text::i64_to_string(i64::MIN), "-9223372036854775808");
}
