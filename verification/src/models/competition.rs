//! Enumerations and progress values of the competitions API.
use vstd::prelude::*;

verus! {

/// Whether a competition is scored individually or by team.
#[derive(Debug, Clone, Copy, PartialEq, Eq, Structural)]
pub enum CompetitionType {
    Classic,
    Team,
}

/// Where a competition stands relative to now.
#[derive(Debug, Clone, Copy, PartialEq, Eq, Structural)]
pub enum CompetitionStatus {
    Upcoming,
    Ongoing,
    Finished,
}

impl CompetitionStatus {
    /// The value this status takes in a `status=` query parameter.
    pub open spec fn as_str_spec(self) -> Seq<char> {
        match self {
            CompetitionStatus::Upcoming => "upcoming"@,
            CompetitionStatus::Ongoing => "ongoing"@,
            CompetitionStatus::Finished => "finished"@,
        }
    }

    pub fn as_str(&self) -> (r: &'static str)
        ensures
            r@ == self.as_str_spec(),
    {
        match self {
            CompetitionStatus::Upcoming => "upcoming",
            CompetitionStatus::Ongoing => "ongoing",
            CompetitionStatus::Finished => "finished",
        }
    }
}

/// The shape of a CSV table exported for a competition.
#[derive(Debug, Clone, Copy, PartialEq, Eq, Structural)]
pub enum CompetitionCSVTableType {
    Team,
    Teams,
    Participants,
}

/// A participant's metric value at the start and end of a competition.
#[derive(Debug, Clone, Copy, PartialEq, Eq, Structural)]
pub struct CompetitionProgress {
    pub start: i64,
    pub end: i64,
    pub gained: i64,
}

/// A participant's level at the start and end of a competition.
#[derive(Debug, Clone, Copy, PartialEq, Eq, Structural)]
pub struct CompetitionLevelsProgress {
    pub start: i64,
    pub end: i64,
    pub gained: i64,
}

} // verus!
