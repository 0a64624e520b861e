//! End-to-end scenarios against a stubbed exchange: the library builds the
//! request URL and dispatches on the stub's status and body; only the
//! transport itself is elided.
use wom_rs::clients::player_client;
use wom_rs::clients::player_client::PlayerEndPoints;
use wom_rs::get_url;
use wom_rs::handle_response;
use wom_rs::WomError;

const BASE: &str = "http://stub.local";

#[test]
fn player_search_returns_two_players() {
    let url = player_client::search_url(BASE, "Zezima", None);
    // The stub serves the search endpoint with the username attached and no
    // pagination parameters.
    assert_eq!(url, format!("{}/players/search?username=Zezima", BASE));

    let body = r#"[{"id":1,"username":"zezima"},{"id":2,"username":"zezima two"}]"#;
    let result = handle_response(Ok((200, body.to_string())));

    assert!(result.is_ok());
    let players: serde_json::Value = serde_json::from_str(&result.unwrap()).unwrap();
    assert_eq!(players.as_array().unwrap().len(), 2);
}

#[test]
fn player_details_by_id_returns_matching_id() {
    let url = get_url(BASE, PlayerEndPoints::DetailsById(1).url(), None);
    // The stub serves the details of the player with the numeric id 1.
    assert_eq!(url, format!("{}/players/id/1", BASE));

    let body = r#"{"id":1,"username":"zezima","displayName":"Zezima"}"#;
    let result = handle_response(Ok((200, body.to_string())));

    assert!(result.is_ok());
    let details: serde_json::Value = serde_json::from_str(&result.unwrap()).unwrap();
    assert_eq!(details.get("id").unwrap().as_i64().unwrap(), 1);
}

#[test]
fn player_not_found_surfaces_upstream_message() {
    let url = get_url(
        BASE,
        PlayerEndPoints::Details("Nobody".to_string()).url(),
        None,
    );
    assert_eq!(url, format!("{}/players/Nobody", BASE));

    // The stub answers 404 with the uniform error envelope.
    let result = handle_response(Ok((404, r#"{"message":"Player not found."}"#.to_string())));

    assert_eq!(
        result,
        Err(WomError::Upstream("Player not found.".to_string()))
    );
    if let Err(e) = result {
        assert_eq!(e.message(), "Player not found.");
    }
}
