/// URL building for the group endpoints.
pub mod group_client;
/// URL building for the player endpoints.
pub mod player_client;
