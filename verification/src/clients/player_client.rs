//! URL building for the player endpoints. The embedding application issues
//! the HTTP calls; everything it sends is computed here.
use vstd::prelude::*;

use crate::get_url;
use crate::pagination_params_spec;
use crate::params_view;
use crate::query_string_spec;
use crate::ApiEndpoint;
use crate::Pagination;
use crate::QueryParams;
use crate::models::competition::CompetitionStatus;
use crate::models::global_enums::Metric;
use crate::models::global_enums::Period;
use crate::models::global_types::PlayerId;
use crate::models::global_types::Timestamp;
use crate::models::global_types::Username;
use crate::text::dec_int;
use crate::text::i64_to_string;
use crate::text::push_char;

verus! {

/// The player endpoints, each with what its path carries.
pub enum PlayerEndPoints {
    Search,
    Update(Username),
    AssertType(Username),
    Details(Username),
    DetailsById(PlayerId),
    Achievements(Username),
    AchievementsProgress(Username),
    Competitions(Username),
    CompetitionsStandings(Username),
    GroupMembership(Username),
    Gains(Username),
    Records(Username),
    Snapshots(Username),
    SnapshotsTimeline,
    NameChange,
    Archives,
}

impl PlayerEndPoints {
    /// The path of this endpoint under the API root.
    pub open spec fn url_spec(self) -> Seq<char> {
        match self {
            PlayerEndPoints::Search => "/players"@ + "/search"@,
            PlayerEndPoints::Update(username) => "/players"@ + seq!['/'] + username@,
            PlayerEndPoints::AssertType(username) => "/players"@ + seq!['/'] + username@
                + "/assert-type"@,
            PlayerEndPoints::Details(username) => "/players"@ + seq!['/'] + username@,
            PlayerEndPoints::DetailsById(player_id) => "/players"@ + "/id/"@ + dec_int(
                player_id as int,
            ),
            PlayerEndPoints::Achievements(username) => "/players"@ + seq!['/'] + username@
                + "/achievements"@,
            PlayerEndPoints::AchievementsProgress(username) => "/players"@ + seq!['/'] + username@
                + "/achievements/progress"@,
            PlayerEndPoints::Competitions(username) => "/players"@ + seq!['/'] + username@
                + "/competitions"@,
            PlayerEndPoints::CompetitionsStandings(username) => "/players"@ + seq!['/'] + username@
                + "/competitions/standings"@,
            PlayerEndPoints::GroupMembership(username) => "/players"@ + seq!['/'] + username@
                + "/groups"@,
            PlayerEndPoints::Gains(username) => "/players"@ + seq!['/'] + username@ + "/gained"@,
            PlayerEndPoints::Records(username) => "/players"@ + seq!['/'] + username@ + "/records"@,
            PlayerEndPoints::Snapshots(username) => "/players"@ + seq!['/'] + username@
                + "/snapshots"@,
            PlayerEndPoints::SnapshotsTimeline => "/players"@,
            PlayerEndPoints::NameChange => "/players"@,
            PlayerEndPoints::Archives => "/players"@,
        }
    }

    pub fn url(&self) -> (r: String)
        ensures
            r@ == self.url_spec(),
    {
        let mut out = ApiEndpoint::Player.as_str().to_owned();
        match self {
            PlayerEndPoints::Search => {
                out.append("/search");
            },
            PlayerEndPoints::Update(username) => {
                push_char(&mut out, '/');
                out.append(username.as_str());
            },
            PlayerEndPoints::AssertType(username) => {
                push_char(&mut out, '/');
                out.append(username.as_str());
                out.append("/assert-type");
            },
            PlayerEndPoints::Details(username) => {
                push_char(&mut out, '/');
                out.append(username.as_str());
            },
            PlayerEndPoints::DetailsById(player_id) => {
                out.append("/id/");
                let digits = i64_to_string(*player_id);
                out.append(digits.as_str());
            },
            PlayerEndPoints::Achievements(username) => {
                push_char(&mut out, '/');
                out.append(username.as_str());
                out.append("/achievements");
            },
            PlayerEndPoints::AchievementsProgress(username) => {
                push_char(&mut out, '/');
                out.append(username.as_str());
                out.append("/achievements/progress");
            },
            PlayerEndPoints::Competitions(username) => {
                push_char(&mut out, '/');
                out.append(username.as_str());
                out.append("/competitions");
            },
            PlayerEndPoints::CompetitionsStandings(username) => {
                push_char(&mut out, '/');
                out.append(username.as_str());
                out.append("/competitions/standings");
            },
            PlayerEndPoints::GroupMembership(username) => {
                push_char(&mut out, '/');
                out.append(username.as_str());
                out.append("/groups");
            },
            PlayerEndPoints::Gains(username) => {
                push_char(&mut out, '/');
                out.append(username.as_str());
                out.append("/gained");
            },
            PlayerEndPoints::Records(username) => {
                push_char(&mut out, '/');
                out.append(username.as_str());
                out.append("/records");
            },
            PlayerEndPoints::Snapshots(username) => {
                push_char(&mut out, '/');
                out.append(username.as_str());
                out.append("/snapshots");
            },
            // These endpoints live at the family root and carry no path
            // parameter.
            PlayerEndPoints::SnapshotsTimeline => {},
            PlayerEndPoints::NameChange => {},
            PlayerEndPoints::Archives => {},
        }
        out
    }
}

/// The query parameter a competition-status filter contributes.
pub open spec fn status_params_spec(status: Option<CompetitionStatus>) -> Seq<
    (Seq<char>, Seq<char>),
> {
    match status {
        Some(s) => seq![("status"@, s.as_str_spec())],
        None => Seq::empty(),
    }
}

/// The query parameter a period filter contributes.
pub open spec fn period_params_spec(period: Option<Period>) -> Seq<(Seq<char>, Seq<char>)> {
    match period {
        Some(p) => seq![("period"@, p.as_str_spec())],
        None => Seq::empty(),
    }
}

/// The query parameter a metric filter contributes: the metric in its
/// snake_case wire rendering.
pub open spec fn metric_params_spec(metric: Option<Metric>) -> Seq<(Seq<char>, Seq<char>)> {
    match metric {
        Some(m) => seq![("metric"@, m.wire_spec())],
        None => Seq::empty(),
    }
}

/// The URL of a player search: the pagination window's parameters when one
/// is given, then the searched username.
pub fn search_url(base_url: &str, username: &str, pagination: Option<Pagination>) -> (r: String)
    ensures
        r@ == base_url@ + "/players"@ + "/search"@ + query_string_spec(
            pagination_params_spec(pagination) + seq![("username"@, username@)],
        ),
{
    let mut queries: QueryParams = match pagination {
        Some(p) => p.to_query(),
        None => Vec::new(),
    };
    queries.push(("username".to_owned(), username.to_owned()));
    proof {
        assert(params_view(queries@) =~= pagination_params_spec(pagination) + seq![
            ("username"@, username@),
        ]);
    }
    get_url(base_url, PlayerEndPoints::Search.url(), Some(&queries))
}

/// The URL of a player's competition participations: the pagination
/// window's parameters when one is given, then the status filter when one
/// is given.
pub fn competitions_url(
    base_url: &str,
    username: &str,
    competition_status: Option<CompetitionStatus>,
    pagination: Option<Pagination>,
) -> (r: String)
    ensures
        r@ == base_url@ + "/players"@ + seq!['/'] + username@ + "/competitions"@
            + query_string_spec(
            pagination_params_spec(pagination) + status_params_spec(competition_status),
        ),
{
    let mut queries: QueryParams = match pagination {
        Some(p) => p.to_query(),
        None => Vec::new(),
    };
    match competition_status {
        Some(s) => {
            queries.push(("status".to_owned(), s.as_str().to_owned()));
        },
        None => {},
    }
    proof {
        assert(params_view(queries@) =~= pagination_params_spec(pagination) + status_params_spec(
            competition_status,
        ));
    }
    get_url(base_url, PlayerEndPoints::Competitions(username.to_owned()).url(), Some(&queries))
}

/// The URL of a player's competition standings, always filtered by one
/// status.
pub fn competition_standings_url(
    base_url: &str,
    username: &str,
    competition_status: CompetitionStatus,
) -> (r: String)
    ensures
        r@ == base_url@ + "/players"@ + seq!['/'] + username@ + "/competitions/standings"@
            + query_string_spec(seq![("status"@, competition_status.as_str_spec())]),
{
    let mut queries: QueryParams = Vec::new();
    queries.push(("status".to_owned(), competition_status.as_str().to_owned()));
    proof {
        assert(params_view(queries@) =~= seq![("status"@, competition_status.as_str_spec())]);
    }
    get_url(
        base_url,
        PlayerEndPoints::CompetitionsStandings(username.to_owned()).url(),
        Some(&queries),
    )
}

/// The URL of a player's group memberships: only the pagination window's
/// parameters, when one is given.
pub fn group_membership_url(base_url: &str, username: &str, pagination: Option<Pagination>) -> (r:
    String)
    ensures
        r@ == base_url@ + "/players"@ + seq!['/'] + username@ + "/groups"@ + query_string_spec(
            pagination_params_spec(pagination),
        ),
{
    let queries: QueryParams = match pagination {
        Some(p) => p.to_query(),
        None => Vec::new(),
    };
    proof {
        assert(params_view(queries@) =~= pagination_params_spec(pagination));
    }
    get_url(base_url, PlayerEndPoints::GroupMembership(username.to_owned()).url(), Some(&queries))
}

/// The URL of a player's gains over a named period.
pub fn gains_by_period_url(base_url: &str, username: &str, period: Period) -> (r: String)
    ensures
        r@ == base_url@ + "/players"@ + seq!['/'] + username@ + "/gained"@ + query_string_spec(
            seq![("period"@, period.as_str_spec())],
        ),
{
    let mut queries: QueryParams = Vec::new();
    queries.push(("period".to_owned(), period.as_str().to_owned()));
    proof {
        assert(params_view(queries@) =~= seq![("period"@, period.as_str_spec())]);
    }
    get_url(base_url, PlayerEndPoints::Gains(username.to_owned()).url(), Some(&queries))
}

/// The URL of a player's gains over an explicit date range, both ends
/// rendered as `YYYY-MM-DD HH:MM:SS` in UTC.
pub fn gains_by_date_url(
    base_url: &str,
    username: &str,
    start_date: Timestamp,
    end_date: Timestamp,
) -> (r: String)
    ensures
        r@ == base_url@ + "/players"@ + seq!['/'] + username@ + "/gained"@ + query_string_spec(
            seq![("startDate"@, start_date.format_spec()), ("endDate"@, end_date.format_spec())],
        ),
{
    let mut queries: QueryParams = Vec::new();
    queries.push(("startDate".to_owned(), start_date.to_query_value()));
    queries.push(("endDate".to_owned(), end_date.to_query_value()));
    proof {
        assert(params_view(queries@) =~= seq![
            ("startDate"@, start_date.format_spec()),
            ("endDate"@, end_date.format_spec()),
        ]);
    }
    get_url(base_url, PlayerEndPoints::Gains(username.to_owned()).url(), Some(&queries))
}

/// The URL of a player's records: the period filter when one is given, then
/// the metric filter when one is given.
pub fn records_url(
    base_url: &str,
    username: &str,
    period: Option<Period>,
    metric: Option<Metric>,
) -> (r: String)
    ensures
        r@ == base_url@ + "/players"@ + seq!['/'] + username@ + "/records"@ + query_string_spec(
            period_params_spec(period) + metric_params_spec(metric),
        ),
{
    let mut queries: QueryParams = Vec::new();
    match period {
        Some(p) => {
            queries.push(("period".to_owned(), p.as_str().to_owned()));
        },
        None => {},
    }
    match metric {
        Some(m) => {
            queries.push(("metric".to_owned(), m.to_string()));
        },
        None => {},
    }
    proof {
        assert(params_view(queries@) =~= period_params_spec(period) + metric_params_spec(metric));
    }
    get_url(base_url, PlayerEndPoints::Records(username.to_owned()).url(), Some(&queries))
}

} // verus!
