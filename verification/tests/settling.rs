use club_core::adaptation::{
    dream_lift, settlement_band, AdaptationSquadContext, ReputationGap, SettlementBypassReason, Tenure,
    SETTLEMENT_WINDOW_DAYS,
};
use club_core::happiness::{
    CareerDesireEvidence, HappinessEventSeverity, HappinessEventType,
};
use club_core::language::{Language, PlayerLanguage};
use club_core::settling::{isolation_word, AdaptationFailureSignals, IntegrationRules};
use club_core::date::Date;
use club_core::decisions::PlayerDecisionHistory;
use club_core::happiness::PlayerHappiness;
use club_core::ledger::{PlayerFieldPositionGroup, PlayerStatistics};
use club_core::measure::Measure;
use club_core::player::{PersonAttributes, Player, PlayerAttributes, PositionSlot};
use club_core::status::PlayerStatus;

/// The order key of a single-precision number.
fn m(x: f32) -> Measure {
    Measure::from_bits(x.to_bits()).unwrap()
}

fn d(year: i32, month: u32, day: u32) -> Date {
    Date::from_ymd_opt(year, month, day).unwrap()
}

fn plain_player() -> Player {
    let ten = m(10.0);
    Player {
        id: 1,
        country_id: 1,
        position: PositionSlot { position: 14, group: PlayerFieldPositionGroup::Forward },
        attributes: PersonAttributes {
            adaptability: ten,
            ambition: ten,
            controversy: ten,
            loyalty: ten,
            pressure: ten,
            professionalism: ten,
        },
        player_attributes: PlayerAttributes {
            current_ability: 100,
            potential_ability: 100,
            current_reputation: 0,
            world_reputation: 0,
            international_apps: 0,
        },
        languages: Vec::new(),
        favorite_clubs: Vec::new(),
        happiness: PlayerHappiness::new(m(50.0)),
        statuses: PlayerStatus::new(),
        statistics: PlayerStatistics::new(),
        decision_history: PlayerDecisionHistory::new(),
        plan: None,
        last_transfer_date: None,
        pending_signing: None,
        contract: None,
        is_on_loan: false,
        loan_from_club_id: None,
        is_force_match_selection: false,
        release_reason: None,
        free_agent_state: None,
        pending_pre_contract: None,
    }
}

fn f(x: Measure) -> f32 {
    f32::from_bits(x.to_bits())
}

fn today() -> Date {
    d(2026, 4, 26)
}

fn newcomer(adaptability: f32, world_rep: i16, ca: u8, international_apps: u16) -> Player {
    let mut p = plain_player();
    p.id = 42;
    p.attributes.adaptability = m(adaptability);
    p.attributes.ambition = m(12.0);
    p.attributes.professionalism = m(12.0);
    p.player_attributes.world_reputation = world_rep;
    p.player_attributes.current_reputation = world_rep;
    p.player_attributes.current_ability = ca;
    p.player_attributes.potential_ability = ca;
    p.player_attributes.international_apps = international_apps;
    p
}

fn average_foreigner() -> Player {
    newcomer(10.0, 4000, 140, 5)
}

fn elite_world_star() -> Player {
    newcomer(18.0, 9500, 185, 80)
}

fn isolated_foreigner() -> Player {
    newcomer(5.0, 3000, 130, 2)
}

/// The adaptation score of a player at no step up and with no record behind him.
fn adaptation_score(p: &Player, now: Date, code: &str) -> f32 {
    let squad = AdaptationSquadContext::default();
    let t = p.adaptation_tally(now, code, None, &squad, false);
    let mut score = 35.0 + t.days as f32 / 84.0 * 25.0 + t.language as f32;
    score += ((f(p.attributes.adaptability) - 10.0) * 1.2).clamp(-10.0, 12.0);
    score += ((f(p.attributes.professionalism) - 10.0) * 0.7).clamp(-6.0, 7.0);
    score += t.role as f32 + f(squad.manager_relation_level) / 100.0 * 8.0;
    score += (t.mentor + t.language_buddies + t.compatriots) as f32;
    score += ((f(squad.squad_chemistry) - 50.0) * 0.15).clamp(-7.5, 7.5);
    score += (t.appearances + t.step_up + t.shock) as f32;
    score.clamp(0.0, 100.0)
}

/// The rating that is shown, with the multiplier and the reason where it is not dampened.
fn adjusted(p: &Player, raw: f32, now: Date) -> (f32, f32, Option<SettlementBypassReason>) {
    let reason = p.settlement_bypass(m(raw), now, "es");
    if reason.is_some() {
        return (raw, 1.0, reason);
    }
    let score = adaptation_score(p, now, "es");
    let band = settlement_band(m(score));
    let floor = band.floor as f32 / 100.0;
    let multiplier = floor + (score - band.from as f32) / 20.0 * (band.rise as f32 / 100.0);
    let multiplier = multiplier.min(1.0);
    (6.0 + (raw - 6.0) * multiplier, multiplier, None)
}

#[test]
fn fresh_foreign_signing_day_zero_dampens_above_baseline() {
    let mut p = average_foreigner();
    p.last_transfer_date = Some(today());
    let (public, multiplier, reason) = adjusted(&p, 8.0, today());
    assert!(reason.is_none());
    assert!(multiplier < 1.0);
    assert!(public < 8.0 - 0.15);
    assert!(public > 6.0);
}

#[test]
fn after_settlement_window_passes_through() {
    let mut p = average_foreigner();
    let signing = d(2026, 1, 1);
    p.last_transfer_date = Some(signing);
    let now = signing.checked_add_days(SETTLEMENT_WINDOW_DAYS).unwrap();
    let (public, multiplier, reason) = adjusted(&p, 8.0, now);
    assert_eq!(reason, Some(SettlementBypassReason::PastSettlementWindow));
    assert!((public - 8.0).abs() < 1e-6);
    assert!((multiplier - 1.0).abs() < 1e-6);
    assert_eq!(p.settlement_bypass(m(8.0), now.checked_add_days(-1).unwrap(), "es"), None);
}

#[test]
fn elite_player_bypasses_dampening_day_zero() {
    let mut p = elite_world_star();
    p.last_transfer_date = Some(today());
    let (public, _, reason) = adjusted(&p, 8.5, today());
    assert_eq!(reason, Some(SettlementBypassReason::EliteReputation));
    assert!((public - 8.5).abs() < 1e-6);
}

#[test]
fn low_adaptability_dampens_more_than_average() {
    let mut avg = average_foreigner();
    avg.last_transfer_date = Some(today());
    let mut bad = isolated_foreigner();
    bad.last_transfer_date = Some(today());
    let (avg_public, avg_multiplier, _) = adjusted(&avg, 8.0, today());
    let (bad_public, bad_multiplier, _) = adjusted(&bad, 8.0, today());
    assert!(bad_multiplier < avg_multiplier);
    assert!(bad_public < avg_public);
}

#[test]
fn below_baseline_rating_is_never_softened() {
    let mut p = isolated_foreigner();
    p.last_transfer_date = Some(today());
    let (public, multiplier, reason) = adjusted(&p, 5.4, today());
    assert_eq!(reason, Some(SettlementBypassReason::BelowBaseline));
    assert!((public - 5.4).abs() < 1e-6);
    assert!((multiplier - 1.0).abs() < 1e-6);
    assert_eq!(
        p.settlement_bypass(m(6.0), today(), "es"),
        Some(SettlementBypassReason::BelowBaseline)
    );
}

#[test]
fn no_recent_transfer_bypasses() {
    let p = average_foreigner();
    let (public, _, reason) = adjusted(&p, 7.5, today());
    assert_eq!(reason, Some(SettlementBypassReason::NoRecentTransfer));
    assert!((public - 7.5).abs() < 1e-6);
}

#[test]
fn enough_appearances_bypasses_within_window() {
    let mut p = average_foreigner();
    p.last_transfer_date = Some(today());
    p.statistics.played = 8;
    let now = today().checked_add_days(7).unwrap();
    let (public, _, reason) = adjusted(&p, 8.0, now);
    assert_eq!(reason, Some(SettlementBypassReason::EnoughAppearances));
    assert!((public - 8.0).abs() < 1e-6);
}

#[test]
fn sub_apps_accelerate_less_than_starts() {
    let mut starter = average_foreigner();
    starter.last_transfer_date = Some(today());
    starter.statistics.played = 8;
    starter.statistics.played_subs = 0;
    let (starter_public, _, reason) = adjusted(&starter, 8.0, today());
    assert_eq!(reason, Some(SettlementBypassReason::EnoughAppearances));

    let mut sub_only = average_foreigner();
    sub_only.last_transfer_date = Some(today());
    sub_only.statistics.played = 0;
    sub_only.statistics.played_subs = 8;
    let (sub_public, _, reason) = adjusted(&sub_only, 8.0, today());
    assert!(reason != Some(SettlementBypassReason::EnoughAppearances));
    assert!(sub_public < starter_public);
}

#[test]
fn weighted_appearance_threshold_crossover() {
    let mut at_threshold = average_foreigner();
    at_threshold.last_transfer_date = Some(today());
    at_threshold.statistics.played = 4;
    at_threshold.statistics.played_subs = 8;
    let (_, _, reason) = adjusted(&at_threshold, 8.0, today());
    assert_eq!(reason, Some(SettlementBypassReason::EnoughAppearances));

    let mut just_under = average_foreigner();
    just_under.last_transfer_date = Some(today());
    just_under.statistics.played = 4;
    just_under.statistics.played_subs = 7;
    let (_, _, reason) = adjusted(&just_under, 8.0, today());
    assert!(reason != Some(SettlementBypassReason::EnoughAppearances));
}

#[test]
fn an_adaptable_international_who_speaks_the_language_settles_at_once() {
    let mut p = newcomer(16.0, 5000, 150, 20);
    p.last_transfer_date = Some(today());
    assert!(!p.is_elite_settlement_bypass("es"));
    p.languages.push(PlayerLanguage::native(Language::Spanish));
    assert!(p.is_elite_settlement_bypass("es"));
    p.player_attributes.international_apps = 19;
    assert!(!p.is_elite_settlement_bypass("es"));
}

#[test]
fn the_tally_adds_up() {
    let mut p = average_foreigner();
    p.last_transfer_date = Some(today());
    p.statistics.played = 3;
    p.statistics.played_subs = 4;
    p.happiness.add_event(HappinessEventType::AmbitionShock, m(-8.0));
    p.languages.push(PlayerLanguage::learning(Language::Spanish, 45));
    let squad = AdaptationSquadContext {
        same_language_teammates: 1,
        same_nationality_teammates: 3,
        mentor_quality: Some(true),
        is_loan: true,
        ..AdaptationSquadContext::default()
    };
    let keeper = PositionSlot { position: 0, group: PlayerFieldPositionGroup::Goalkeeper };
    let formation = [p.position, keeper];
    let now = today().checked_add_days(42).unwrap();
    let t = p.adaptation_tally(now, "es", Some(&formation), &squad, true);
    assert_eq!(t.days, 42);
    assert_eq!((t.language, t.role, t.mentor), (7, 10, 8));
    assert_eq!((t.language_buddies, t.compatriots), (4, 3));
    assert_eq!((t.appearances, t.step_up, t.shock), (16, 5, -8));
    assert!(t.capped);
    let t = p.adaptation_tally(now, "fr", None, &AdaptationSquadContext::default(), false);
    assert_eq!((t.language, t.role, t.capped), (-10, 0, false));
}

#[test]
fn bands_rise_with_the_score() {
    let at = |x: f32| {
        let b = settlement_band(m(x));
        (b.from, b.floor, b.rise)
    };
    assert_eq!(at(0.0), (0, 78, 4));
    assert_eq!(at(19.99), (0, 78, 4));
    assert_eq!(at(20.0), (20, 82, 6));
    assert_eq!(at(40.0), (40, 88, 6));
    assert_eq!(at(60.0), (60, 94, 4));
    assert_eq!(at(100.0), (80, 98, 2));
}

#[test]
fn a_gap_of_three_thousand_makes_an_outlier() {
    let p = newcomer(10.0, 6000, 140, 0);
    let gap = ReputationGap::compute(&p, 3000, 5000);
    assert_eq!((gap.player_vs_club, gap.player_vs_league), (3000, 1000));
    assert_eq!(gap.ability_vs_tier, 90);
    assert!(gap.is_outlier_above() && !gap.is_outlier_below());
    let gap = ReputationGap::compute(&p, 9000, 9000);
    assert!(!gap.is_outlier_above() && gap.is_outlier_below());
    assert!(!ReputationGap::compute(&p, 3001, 8999).is_outlier_above());
}

#[test]
fn a_newly_generated_player_claims_no_tenure() {
    let p = plain_player();
    assert_eq!(p.years_at_club(d(2026, 8, 1), 28, false), Tenure::Years(0));
}

#[test]
fn a_career_spent_elsewhere_claims_no_tenure() {
    // A season at one club and a move to another: not a career at the club he is at.
    let mut p = plain_player();
    p.id = 82_060_853;
    p.statistics.played = 25;
    p.statistics.goals = 4;
    assert_eq!(p.years_at_club(d(2026, 8, 1), 28, false), Tenure::Years(0));
}

#[test]
fn a_transfer_anchor_wins_over_every_guess() {
    let mut p = plain_player();
    p.last_transfer_date = Some(d(2022, 8, 1));
    match p.years_at_club(d(2026, 8, 1), 28, true) {
        Tenure::Days(days) => assert!((days as f32 / 365.0 - 4.0).abs() < 0.05),
        Tenure::Years(_) => panic!("the move is known"),
    }
}

#[test]
fn a_genuine_one_club_man_still_counts_from_his_debut() {
    let p = plain_player();
    assert_eq!(p.years_at_club(d(2026, 8, 1), 28, true), Tenure::Years(11));
    assert_eq!(p.years_at_club(d(2026, 8, 1), 16, true), Tenure::Years(0));
}

#[test]
fn tenure_never_goes_negative() {
    let mut p = plain_player();
    p.last_transfer_date = Some(d(2027, 1, 1));
    assert_eq!(p.years_at_club(d(2026, 8, 1), 28, true), Tenure::Days(0));
}

fn integration_rules() -> IntegrationRules {
    IntegrationRules {
        integration_window_days: 168,
        early_isolation_max_weeks: 4,
        early_isolation_max_adaptability: m(10.0),
        settled_min_weeks: 6,
        settled_pull_threshold: m(0.6),
        chronic_isolation_suppress_threshold: m(0.75),
    }
}

fn events(p: &Player) -> Vec<(HappinessEventType, f32)> {
    p.happiness.recent_events.iter().map(|e| (e.event_type, f(e.magnitude))).collect()
}

fn with_buddies(n: u8) -> AdaptationSquadContext {
    AdaptationSquadContext { same_language_teammates: n, ..AdaptationSquadContext::default() }
}

#[test]
fn early_weeks_abroad_can_be_lonely() {
    for (adaptability, buddies, roll, lonely) in [
        (7.5, 0, 0.34, true),
        (7.5, 0, 0.35, false),
        (9.0, 0, 0.99, true),
        (9.0, 1, 0.59, true),
        (9.0, 1, 0.60, false),
        (9.0, 2, 0.29, true),
        (9.0, 3, 0.30, false),
        (10.0, 0, 0.0, false),
    ] {
        let mut p = average_foreigner();
        p.attributes.adaptability = m(adaptability);
        p.last_transfer_date = today().checked_add_days(-10);
        p.process_integration_with_squad(
            today(),
            "es",
            &with_buddies(buddies),
            &integration_rules(),
            m(0.5),
            m(roll),
        );
        let expected =
            if lonely { vec![(HappinessEventType::FeelingIsolated, -2.0)] } else { vec![] };
        assert_eq!(events(&p), expected);
    }
}

#[test]
fn a_place_in_the_squad_is_found_once() {
    let mut p = average_foreigner();
    p.last_transfer_date = today().checked_add_days(-42);
    for _ in 0..2 {
        p.process_integration(today(), "es", &integration_rules(), m(0.61), m(0.0));
    }
    assert_eq!(events(&p), vec![(HappinessEventType::SettledIntoSquad, 1.0)]);
    let mut q = average_foreigner();
    q.last_transfer_date = today().checked_add_days(-42);
    q.process_integration(today(), "es", &integration_rules(), m(0.6), m(0.0));
    assert!(q.happiness.recent_events.is_empty());
}

#[test]
fn an_outsider_feels_it_on_the_first_of_the_month() {
    let mut p = average_foreigner();
    p.process_integration(d(2026, 4, 2), "es", &integration_rules(), m(0.5), m(0.0));
    p.process_integration(d(2026, 4, 1), "es", &integration_rules(), m(0.76), m(0.0));
    assert!(p.happiness.recent_events.is_empty());
    p.process_integration(d(2026, 4, 1), "es", &integration_rules(), m(0.75), m(0.0));
    assert_eq!(events(&p), vec![(HappinessEventType::FeelingIsolated, -1.5)]);
    p.languages.push(PlayerLanguage::learning(Language::Spanish, 70));
    p.process_integration(d(2026, 5, 1), "es", &integration_rules(), m(0.5), m(0.0));
    assert_eq!(p.happiness.recent_events.len(), 1);
}

#[test]
fn the_word_of_a_day_mixes_player_and_date() {
    let h = 42u64
        .wrapping_mul(0x9E37_79B9_7F4A_7C15)
        .wrapping_add(today().days as u64);
    assert_eq!(isolation_word(42, today()), (h >> 13) as u32);
}

fn failing_signals() -> AdaptationFailureSignals {
    AdaptationFailureSignals {
        player_nationality_continent_id: 1,
        club_continent_id: 2,
        club_in_home_country: false,
        destination_is_favourite: false,
        same_language_or_nationality_teammates: 0,
        adaptation_score: m(30.0),
        club_fit: m(-3.0),
    }
}

fn homesick() -> Player {
    let mut p = isolated_foreigner();
    p.last_transfer_date = today().checked_add_days(-60);
    p
}

#[test]
fn a_failed_adaptation_brings_the_wish_to_return() {
    let mut p = homesick();
    assert!(p.process_chronic_adaptation_failure(today(), "es", &failing_signals(), m(-5.0)));
    assert_eq!(
        events(&p),
        vec![
            (HappinessEventType::WantsReturnHome, -5.0),
            (HappinessEventType::FeelingIsolated, -1.0)
        ]
    );
    let desire = p.happiness.recent_events[0]
        .context
        .as_ref()
        .unwrap()
        .career_desire
        .as_ref()
        .unwrap();
    assert_eq!(desire.days_at_club, Some(60));
    assert_eq!(desire.adaptation_score, Some(m(30.0)));
    assert_eq!(
        desire.evidence,
        vec![
            CareerDesireEvidence::DifferentContinent,
            CareerDesireEvidence::NoLocalLanguage,
            CareerDesireEvidence::LowAdaptability,
            CareerDesireEvidence::NoCompatriotSupport,
            CareerDesireEvidence::PoorAdaptationScore,
            CareerDesireEvidence::LowClubFit,
        ]
    );
    let note = p.happiness.recent_events[1].context.as_ref().unwrap();
    assert_eq!(note.severity, HappinessEventSeverity::Moderate);
    assert_eq!(
        p.happiness.recent_events[0].context.as_ref().unwrap().severity,
        HappinessEventSeverity::ByMagnitude
    );
    // The wish rests, and its note is no lonely day.
    assert!(!p.process_chronic_adaptation_failure(today(), "es", &failing_signals(), m(-5.0)));
    assert_eq!(p.happiness.recent_events.len(), 2);
    let facts = p.adaptation_failure_facts("es", &failing_signals());
    assert!(!facts.repeated_isolation);
    assert_eq!(facts.total(), 18);
}

#[test]
fn patience_has_its_reasons() {
    let x = failing_signals();
    let mut early = homesick();
    early.last_transfer_date = today().checked_add_days(-59);
    assert!(!early.process_chronic_adaptation_failure(today(), "es", &x, m(-5.0)));

    let home = AdaptationFailureSignals { club_in_home_country: true, ..x };
    assert!(!homesick().process_chronic_adaptation_failure(today(), "es", &home, m(-5.0)));

    let favourite = AdaptationFailureSignals { destination_is_favourite: true, ..x };
    assert!(!homesick().process_chronic_adaptation_failure(today(), "es", &favourite, m(-5.0)));
    let mut broken = homesick();
    broken.happiness.morale = m(20.0);
    assert!(broken.process_chronic_adaptation_failure(today(), "es", &favourite, m(-5.0)));

    // A different continent, a foreign language and no company weigh four and a half.
    let mild = AdaptationFailureSignals { adaptation_score: m(60.0), club_fit: m(0.0), ..x };
    let mut p = homesick();
    p.attributes.adaptability = m(12.0);
    assert_eq!(p.adaptation_failure_facts("es", &mild).total(), 9);
    assert!(!p.process_chronic_adaptation_failure(today(), "es", &mild, m(-5.0)));
    // Two lonely days tip the balance.
    p.happiness.add_event(HappinessEventType::FeelingIsolated, m(-2.0));
    assert!(!p.process_chronic_adaptation_failure(today(), "es", &mild, m(-5.0)));
    p.happiness.add_event(HappinessEventType::FeelingIsolated, m(-2.0));
    assert!(p.process_chronic_adaptation_failure(today(), "es", &mild, m(-5.0)));
}

#[test]
fn every_lonely_day_counts() {
    let mut p = homesick();
    for _ in 0..256 {
        p.happiness.add_event(HappinessEventType::FeelingIsolated, m(-2.0));
    }
    assert!(p.adaptation_failure_facts("es", &failing_signals()).repeated_isolation);
}

#[test]
fn a_dream_move_lifts_the_settled() {
    assert_eq!(dream_lift(m(80.0), true), 2);
    assert_eq!(dream_lift(m(100.0), true), 2);
    assert_eq!(dream_lift(m(79.99), true), 0);
    assert_eq!(dream_lift(m(100.0), false), 0);
}

#[test]
fn the_days_to_settle_run_out() {
    let now = d(2026, 8, 1);
    let mut p = plain_player();
    assert_eq!(p.settling_days_left(now), 0);
    for (days, left) in [(0, 84), (1, 83), (42, 42), (83, 1), (84, 0), (400, 0), (-1, 0)] {
        p.last_transfer_date = now.checked_add_days(-days);
        assert_eq!(p.settling_days_left(now), left);
    }
}
