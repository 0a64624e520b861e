use wom_rs::models::global_enums::Activity;
use wom_rs::models::global_enums::Boss;
use wom_rs::models::global_enums::ComputedMetricEnum;
use wom_rs::models::global_enums::Metric;
use wom_rs::models::global_enums::Period;
use wom_rs::models::global_enums::Skill;
use wom_rs::models::competition::CompetitionStatus;

#[test]
fn decode_skill_snake_case() {
    assert_eq!(Metric::parse("overall"), Ok(Metric::Skill(Skill::Overall)));
    assert_eq!(Metric::parse("attack"), Ok(Metric::Skill(Skill::Attack)));
    assert_eq!(
        Metric::parse("runecrafting"),
        Ok(Metric::Skill(Skill::Runecrafting))
    );
}

#[test]
fn decode_boss_any_supported_casing() {
    let expected = Ok(Metric::Boss(Boss::ChambersOfXeric));
    assert_eq!(Metric::parse("chambers_of_xeric"), expected);
    assert_eq!(Metric::parse("chambersOfXeric"), expected);
    assert_eq!(Metric::parse("ChambersOfXeric"), expected);
}

#[test]
fn decode_activity_and_computed() {
    assert_eq!(
        Metric::parse("clue_scrolls_all"),
        Ok(Metric::Activity(Activity::ClueScrollsAll))
    );
    assert_eq!(
        Metric::parse("guardians_of_the_rift"),
        Ok(Metric::Activity(Activity::GuardiansOfTheRift))
    );
    assert_eq!(
        Metric::parse("ehp"),
        Ok(Metric::ComputedMetric(ComputedMetricEnum::Ehp))
    );
    assert_eq!(
        Metric::parse("ehb"),
        Ok(Metric::ComputedMetric(ComputedMetricEnum::Ehb))
    );
}

#[test]
fn encode_always_snake_case() {
    assert_eq!(Metric::Skill(Skill::Overall).to_string(), "overall");
    assert_eq!(
        Metric::Boss(Boss::ChambersOfXericChallengeMode).to_string(),
        "chambers_of_xeric_challenge_mode"
    );
    assert_eq!(
        Metric::Activity(Activity::BountyHunterRogue).to_string(),
        "bounty_hunter_rogue"
    );
    assert_eq!(
        Metric::ComputedMetric(ComputedMetricEnum::Ehb).to_string(),
        "ehb"
    );
}

#[test]
fn decode_then_encode_gives_snake_form() {
    for token in ["tzkal_zuk", "tzkalZuk", "TzkalZuk"] {
        let metric = Metric::parse(token).unwrap();
        assert_eq!(metric, Metric::Boss(Boss::TzkalZuk));
        assert_eq!(metric.to_string(), "tzkal_zuk");
    }
}

#[test]
fn decode_tolerates_mixed_separators() {
    let expected = Ok(Metric::Boss(Boss::ChambersOfXeric));
    assert_eq!(Metric::parse("Chambers_Of_Xeric"), expected);
    assert_eq!(Metric::parse("chambers of xeric"), expected);
    assert_eq!(Metric::parse("chambers-of-xeric"), expected);
}

#[test]
fn decode_unknown_token_keeps_original() {
    let err = Metric::parse("not_a_metric").unwrap_err();
    assert_eq!(err.token, "not_a_metric");
    let err = Metric::parse("Slayer Points").unwrap_err();
    assert_eq!(err.token, "Slayer Points");
    assert!(Metric::parse("").is_err());
}

#[test]
fn decode_priority_prefers_skill_on_collision() {
    // Every vocabulary holds the placeholder named `None`; the decoder must
    // resolve it to the skill vocabulary, which is probed first.
    assert_eq!(Metric::parse("none"), Ok(Metric::Skill(Skill::Unspecified)));
    assert_eq!(Metric::parse("None"), Ok(Metric::Skill(Skill::Unspecified)));
}

#[test]
fn round_trip_is_stable() {
    let tokens = [
        "overall",
        "none",
        "chambersOfXeric",
        "clue_scrolls_master",
        "ehp",
        "theatre_of_blood_hard_mode",
        "kril_tsutsaroth",
        "soulWarsZeal",
    ];
    for token in tokens {
        let first = Metric::parse(token).unwrap();
        let encoded = first.to_string();
        let second = Metric::parse(&encoded).unwrap();
        assert_eq!(first, second);
        assert_eq!(second.to_string(), encoded);
    }
}

#[test]
fn period_query_values() {
    assert_eq!(Period::FiveMin.as_str(), "five_min");
    assert_eq!(Period::Day.as_str(), "day");
    assert_eq!(Period::Week.as_str(), "week");
    assert_eq!(Period::Month.as_str(), "month");
    assert_eq!(Period::Year.as_str(), "year");
}

#[test]
fn competition_status_query_values() {
    assert_eq!(CompetitionStatus::Upcoming.as_str(), "upcoming");
    assert_eq!(CompetitionStatus::Ongoing.as_str(), "ongoing");
    assert_eq!(CompetitionStatus::Finished.as_str(), "finished");
}
