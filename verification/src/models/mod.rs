/// Enumerations and progress values of the competitions API.
pub mod competition;
/// Enumerations shared by all models: the metric vocabularies and time
/// periods.
pub mod global_enums;
/// Identifier aliases and the plain calendar timestamp.
pub mod global_types;
/// Enumerations of the name-change API.
pub mod name;
/// Enumerations of the player API.
pub mod player;
/// Snapshot values without fractional data.
pub mod snapshot;
