use club_core::market::{
    FreeAgentBlockReason, FreeAgentMarketState, FreeAgentStatusCategory, MarketStage,
    PreContractAgreement, ReleaseContext,
};
use club_core::player::PlayerSquadStatus;
use club_core::status::PlayerStatusType;
use club_core::date::Date;
use club_core::decisions::PlayerDecisionHistory;
use club_core::happiness::PlayerHappiness;
use club_core::ledger::{PlayerFieldPositionGroup, PlayerStatistics};
use club_core::measure::Measure;
use club_core::player::{PersonAttributes, Player, PlayerAttributes, PositionSlot};
use club_core::status::PlayerStatus;

/// The order key of a single-precision number.
fn m(x: f32) -> Measure {
    Measure::from_bits(x.to_bits()).unwrap()
}

fn d(year: i32, month: u32, day: u32) -> Date {
    Date::from_ymd_opt(year, month, day).unwrap()
}

fn plain_player() -> Player {
    let ten = m(10.0);
    Player {
        id: 1,
        country_id: 1,
        position: PositionSlot { position: 14, group: PlayerFieldPositionGroup::Forward },
        attributes: PersonAttributes {
            adaptability: ten,
            ambition: ten,
            controversy: ten,
            loyalty: ten,
            pressure: ten,
            professionalism: ten,
        },
        player_attributes: PlayerAttributes {
            current_ability: 100,
            potential_ability: 100,
            current_reputation: 0,
            world_reputation: 0,
            international_apps: 0,
        },
        languages: Vec::new(),
        favorite_clubs: Vec::new(),
        happiness: PlayerHappiness::new(m(50.0)),
        statuses: PlayerStatus::new(),
        statistics: PlayerStatistics::new(),
        decision_history: PlayerDecisionHistory::new(),
        plan: None,
        last_transfer_date: None,
        pending_signing: None,
        contract: None,
        is_on_loan: false,
        loan_from_club_id: None,
        is_force_match_selection: false,
        release_reason: None,
        free_agent_state: None,
        pending_pre_contract: None,
    }
}

fn make_player(ca: u8) -> Player {
    let mut p = plain_player();
    p.player_attributes.current_ability = ca;
    p.player_attributes.potential_ability = ca;
    p.player_attributes.current_reputation = (ca as i16) * 30;
    p
}

fn later(day: Date, days: i64) -> Date {
    day.checked_add_days(days).unwrap()
}

fn ensure(p: &mut Player, today: Date, reputation: u16) {
    p.ensure_free_agent_state(today, reputation, m(reputation as f32 / 10_000.0), 50_000);
}

#[test]
fn fresh_release_yields_low_pressure() {
    let today = d(2026, 5, 8);
    let mut p = make_player(120);
    p.enter_free_agent_market(ReleaseContext {
        date: today,
        last_club_id: Some(10),
        last_country_id: Some(1),
        last_country_reputation: 6000,
        last_league_reputation: 7000,
        last_club_reputation_score: m(0.6),
        last_salary: 500_000,
        last_squad_status: PlayerSquadStatus::FirstTeamRegular,
    });
    assert!(p.career_pressure(today, 26) < 200);
    // Quality takes 0.05 off and the silence adds 0.10.
    assert_eq!(p.career_pressure(today, 26), 50);
}

#[test]
fn old_low_quality_long_unemployed_player_caps_near_one() {
    let mut p = make_player(50);
    p.enter_free_agent_market(ReleaseContext {
        date: d(2024, 1, 1),
        last_club_id: Some(10),
        last_country_id: Some(1),
        last_country_reputation: 1500,
        last_league_reputation: 1200,
        last_club_reputation_score: m(0.2),
        last_salary: 30_000,
        last_squad_status: PlayerSquadStatus::MainBackupPlayer,
    });
    assert!(p.career_pressure(d(2026, 5, 8), 36) > 850);
}

#[test]
fn windows_closed_between_counts_summer_and_winter_closes() {
    let closed = FreeAgentMarketState::windows_closed_between(d(2026, 1, 1), d(2027, 2, 28));
    assert_eq!(closed, 3);
}

#[test]
fn offers_in_last_30_days_prunes_old_entries() {
    let today = d(2026, 5, 8);
    let mut p = make_player(100);
    p.enter_free_agent_market(ReleaseContext {
        date: later(today, -120),
        last_club_id: Some(10),
        last_country_id: Some(1),
        last_country_reputation: 4000,
        last_league_reputation: 4000,
        last_club_reputation_score: m(0.4),
        last_salary: 200_000,
        last_squad_status: PlayerSquadStatus::FirstTeamRegular,
    });
    p.on_offer_received(later(today, -60));
    p.on_offer_received(today);
    assert_eq!(p.free_agent_state().unwrap().offers_received_30d(today), 1);
}

#[test]
fn ensure_state_is_idempotent() {
    let today = d(2026, 5, 8);
    let mut p = make_player(100);
    ensure(&mut p, today, 5000);
    let first = p.free_agent_state().unwrap().free_since;
    ensure(&mut p, today, 9999);
    let second = p.free_agent_state().unwrap().free_since;
    assert_eq!(first, second);
}

#[test]
fn market_stage_thresholds() {
    assert_eq!(MarketStage::from_days_free(0), MarketStage::Fresh);
    assert_eq!(MarketStage::from_days_free(29), MarketStage::Fresh);
    assert_eq!(MarketStage::from_days_free(30), MarketStage::Open);
    assert_eq!(MarketStage::from_days_free(89), MarketStage::Open);
    assert_eq!(MarketStage::from_days_free(90), MarketStage::Flexible);
    assert_eq!(MarketStage::from_days_free(179), MarketStage::Flexible);
    assert_eq!(MarketStage::from_days_free(180), MarketStage::Desperate);
    assert_eq!(MarketStage::from_days_free(364), MarketStage::Desperate);
    assert_eq!(MarketStage::from_days_free(365), MarketStage::LastChance);
}

#[test]
fn on_market_blocked_keeps_highest_rank_same_day_and_resets_next_day() {
    let today = d(2026, 6, 13);
    let mut p = make_player(80);
    ensure(&mut p, today, 4000);

    p.on_market_blocked(today, FreeAgentBlockReason::AcceptanceRollFailed);
    p.on_market_blocked(today, FreeAgentBlockReason::CountryReputationGap);
    assert_eq!(
        p.free_agent_state().unwrap().last_block,
        Some((today, FreeAgentBlockReason::AcceptanceRollFailed))
    );

    let tomorrow = later(today, 1);
    p.on_market_blocked(tomorrow, FreeAgentBlockReason::CountryReputationGap);
    assert_eq!(
        p.free_agent_state().unwrap().last_block,
        Some((tomorrow, FreeAgentBlockReason::CountryReputationGap))
    );
}

#[test]
fn reference_reputation_takes_max_of_state_and_nationality() {
    let today = d(2026, 5, 8);
    let mut p = make_player(100);
    p.enter_free_agent_market(ReleaseContext {
        date: today,
        last_club_id: Some(10),
        last_country_id: Some(1),
        last_country_reputation: 5000,
        last_league_reputation: 6000,
        last_club_reputation_score: m(0.5),
        last_salary: 200_000,
        last_squad_status: PlayerSquadStatus::FirstTeamRegular,
    });
    assert_eq!(p.reference_reputation(8000), 5600);
    assert!(p.reference_reputation(20_000) > 5600);
    assert_eq!(make_player(100).reference_reputation(8000), 4800);
}

fn release_into_market(p: &mut Player, release: Date, last_salary: u32, rep: u16) {
    p.enter_free_agent_market(ReleaseContext {
        date: release,
        last_club_id: Some(10),
        last_country_id: Some(1),
        last_country_reputation: rep,
        last_league_reputation: rep,
        last_club_reputation_score: m((rep as f32 / 10_000.0).clamp(0.0, 1.0)),
        last_salary,
        last_squad_status: PlayerSquadStatus::FirstTeamRegular,
    });
}

#[test]
fn fresh_high_rep_pressure_climbs_from_fresh_to_desperate() {
    let release = d(2026, 1, 1);
    let mut p = make_player(140);
    release_into_market(&mut p, release, 2_000_000, 7000);
    let fresh = p.career_pressure(later(release, 5), 28);
    let desperate = p.career_pressure(later(release, 200), 28);
    assert!(fresh < 250);
    assert!(desperate > fresh + 300);
}

#[test]
fn repeated_rejections_increase_pressure() {
    let release = d(2026, 4, 1);
    let today = later(release, 60);
    let mut patient = make_player(85);
    release_into_market(&mut patient, release, 300_000, 4000);
    let mut picky = make_player(85);
    release_into_market(&mut picky, release, 300_000, 4000);
    for _ in 0..4 {
        picky.on_offer_rejected(today);
    }
    assert!(picky.career_pressure(today, 28) > patient.career_pressure(today, 28));
}

#[test]
fn offer_drought_raises_pressure() {
    let release = d(2026, 1, 1);
    let today = later(release, 200);
    let mut drought = make_player(85);
    release_into_market(&mut drought, release, 200_000, 4000);
    let mut some_history = make_player(85);
    release_into_market(&mut some_history, release, 200_000, 4000);
    some_history.on_offer_received(later(release, 100));
    assert!(drought.career_pressure(today, 27) > some_history.career_pressure(today, 27));
}

#[test]
fn failed_approach_streak_increments_once_per_day_and_resets_on_offer() {
    let today = d(2026, 6, 13);
    let mut p = make_player(80);
    ensure(&mut p, today, 4000);

    p.on_market_blocked(today, FreeAgentBlockReason::DailyChanceRollFailed);
    p.on_market_blocked(today, FreeAgentBlockReason::DailyChanceRollFailed);
    assert_eq!(p.free_agent_state().unwrap().failed_approach_streak, 1);

    let d2 = later(today, 1);
    p.on_market_blocked(d2, FreeAgentBlockReason::RegionPrestigeGap);
    assert_eq!(p.free_agent_state().unwrap().failed_approach_streak, 1);

    let d3 = later(today, 2);
    p.on_market_blocked(d3, FreeAgentBlockReason::DailyChanceRollFailed);
    assert_eq!(p.free_agent_state().unwrap().failed_approach_streak, 2);

    p.on_offer_received(d3);
    assert_eq!(p.free_agent_state().unwrap().failed_approach_streak, 0);
    p.on_market_blocked(d3, FreeAgentBlockReason::DailyChanceRollFailed);
    assert_eq!(p.free_agent_state().unwrap().failed_approach_streak, 0);
}

#[test]
fn market_explanation_reports_offers_refused_when_rejections_high() {
    let release = d(2026, 3, 1);
    let today = later(release, 120);
    let mut p = make_player(90);
    release_into_market(&mut p, release, 500_000, 5000);
    p.on_offer_rejected(today);
    p.on_offer_rejected(today);

    let exp = p.market_explanation(today).unwrap();
    assert_eq!(exp.category, FreeAgentStatusCategory::OffersRefused);
    assert_eq!(exp.market_stage, MarketStage::Flexible);
    assert!(!exp.message.is_empty());
    assert_eq!(exp.message, FreeAgentStatusCategory::OffersRefused.default_message());
}

#[test]
fn market_explanation_none_when_signed() {
    let p = make_player(80);
    assert!(p.market_explanation(d(2026, 6, 13)).is_none());
    assert_eq!(p.career_pressure(d(2026, 6, 13), 27), 0);
    assert!(p.market_stage(d(2026, 6, 13)).is_none());
}

#[test]
fn a_signature_clears_the_state() {
    let today = d(2026, 6, 13);
    let mut p = make_player(80);
    ensure(&mut p, today, 4000);
    assert_eq!(p.market_stage(today), Some(MarketStage::Open));
    p.clear_free_agent_state();
    assert!(p.free_agent_state().is_none());
    p.on_offer_received(today);
    assert!(p.free_agent_state().is_none());
}

#[test]
fn a_pre_contract_is_marked_and_cleared() {
    let today = d(2026, 6, 13);
    let mut p = make_player(80);
    let agreement = PreContractAgreement {
        to_club_id: 5,
        to_country_id: 6,
        annual_wage: 100_000,
        contract_years: 3,
        promised_status: None,
        agreed_on: today,
    };
    p.stage_pre_contract(agreement, today);
    assert_eq!(p.pending_pre_contract().unwrap().to_club_id, 5);
    assert!(p.statuses.has(PlayerStatusType::Trn));
    p.clear_pre_contract();
    assert!(p.pending_pre_contract().is_none());
    assert!(!p.statuses.has(PlayerStatusType::Trn));
}

#[test]
fn reasons_are_ranked_and_named() {
    assert_eq!(FreeAgentBlockReason::UnknownNationality.rank(), 0);
    assert_eq!(FreeAgentBlockReason::AcceptanceRollFailed.rank(), 13);
    assert_eq!(FreeAgentBlockReason::RegionPrestigeGap.label(), "region_prestige_gap");
    assert_eq!(MarketStage::LastChance.label(), "Last chance");
    assert_eq!(
        FreeAgentStatusCategory::from_block_reason(Some(
            FreeAgentBlockReason::WageReservationMismatch
        )),
        FreeAgentStatusCategory::WageTooHigh
    );
}

#[test]
fn every_reason_has_its_category() {
    use_case(None, FreeAgentStatusCategory::LowInterest);
    use_case(
        Some(FreeAgentBlockReason::UnknownNationality),
        FreeAgentStatusCategory::DataUnknown,
    );
    use_case(
        Some(FreeAgentBlockReason::PositionMismatch),
        FreeAgentStatusCategory::NoPositionNeed,
    );
    use_case(
        Some(FreeAgentBlockReason::RegionPrestigeGap),
        FreeAgentStatusCategory::ReputationWait,
    );
    use_case(
        Some(FreeAgentBlockReason::AcceptanceRollFailed),
        FreeAgentStatusCategory::OffersRefused,
    );
    use_case(
        Some(FreeAgentBlockReason::AlreadySignedOrStaged),
        FreeAgentStatusCategory::InterestBuilding,
    );
    assert_eq!(
        FreeAgentStatusCategory::NoPositionNeed.default_message(),
        "No clubs currently need his position."
    );
}

fn use_case(reason: Option<FreeAgentBlockReason>, expected: FreeAgentStatusCategory) {
    assert_eq!(FreeAgentStatusCategory::from_block_reason(reason), expected);
}

#[test]
fn nobody_who_waits_gets_choosier() {
    let release = d(2026, 5, 8);
    let mut p = make_player(120);
    release_into_market(&mut p, release, 500_000, 6000);
    p.on_offer_received(later(release, 1));
    p.on_offer_received(later(release, 3));
    let mut before = 0;
    for days in 3..500 {
        let pressure = p.career_pressure(later(release, days), 26);
        assert!(before <= pressure);
        before = pressure;
    }
    assert_eq!(before, 1000);
}
