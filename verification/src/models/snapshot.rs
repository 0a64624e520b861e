//! The snapshot values that hold no fractional data: activity scores.
//! Skill, boss and computed-metric snapshot values carry fractional
//! efficiency figures and live with the embedding application.
use vstd::prelude::*;

use crate::models::global_enums::Activity;

verus! {

/// One activity's snapshot value.
#[derive(Debug, Clone, Copy, PartialEq, Eq, Structural)]
pub struct ActivityMetric {
    pub metric: Activity,
    pub score: i64,
    pub rank: i64,
}

/// A player's snapshot values for every tracked activity.
#[derive(Debug, Clone, Copy, PartialEq, Eq, Structural)]
pub struct Activities {
    pub league_points: ActivityMetric,
    pub bounty_hunter_hunter: ActivityMetric,
    pub bounty_hunter_rogue: ActivityMetric,
    pub clue_scrolls_all: ActivityMetric,
    pub clue_scrolls_beginner: ActivityMetric,
    pub clue_scrolls_easy: ActivityMetric,
    pub clue_scrolls_medium: ActivityMetric,
    pub clue_scrolls_hard: ActivityMetric,
    pub clue_scrolls_elite: ActivityMetric,
    pub clue_scrolls_master: ActivityMetric,
    pub last_man_standing: ActivityMetric,
    pub pvp_arena: ActivityMetric,
    pub soul_wars_zeal: ActivityMetric,
    pub guardians_of_the_rift: ActivityMetric,
}

} // verus!
