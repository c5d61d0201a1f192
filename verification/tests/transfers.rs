use club_core::adaptation::{fit_in, RoleFit};
use club_core::arrival::{
    veteran_percent, Arrival, ArrivalMagnitudes, ArrivalReadings, ArrivalRules, ManagerPromise,
    ManagerPromiseKind, Prestige,
    TransferShockBudget, TransferShockExtremes,
};
use club_core::environment::{
    environment_story_word, EnvCandidatePool, EnvRole, MagnitudeFactor, ProfileReadings,
    SocialSignals, TransferEnvironmentProfile, WeeklyEnvSignals, WeeklyReadings,
};
use club_core::happiness::{
    CareerDesireKind, HappinessEventEvidence, HappinessEventType,
};
use club_core::language::{Language, PlayerLanguage};
use club_core::player::{PendingSigning, PlayerClubContract, PlayerSquadStatus};
use club_core::date::Date;
use club_core::decisions::PlayerDecisionHistory;
use club_core::happiness::PlayerHappiness;
use club_core::ledger::{PlayerFieldPositionGroup, PlayerStatistics};
use club_core::measure::Measure;
use club_core::player::{PersonAttributes, Player, PlayerAttributes, PositionSlot};
use club_core::status::PlayerStatus;

/// The order key of a single-precision number.
fn m(x: f32) -> Measure {
    Measure::from_bits(x.to_bits()).unwrap()
}

fn d(year: i32, month: u32, day: u32) -> Date {
    Date::from_ymd_opt(year, month, day).unwrap()
}

fn plain_player() -> Player {
    let ten = m(10.0);
    Player {
        id: 1,
        country_id: 1,
        position: PositionSlot { position: 14, group: PlayerFieldPositionGroup::Forward },
        attributes: PersonAttributes {
            adaptability: ten,
            ambition: ten,
            controversy: ten,
            loyalty: ten,
            pressure: ten,
            professionalism: ten,
        },
        player_attributes: PlayerAttributes {
            current_ability: 100,
            potential_ability: 100,
            current_reputation: 0,
            world_reputation: 0,
            international_apps: 0,
        },
        languages: Vec::new(),
        favorite_clubs: Vec::new(),
        happiness: PlayerHappiness::new(m(50.0)),
        statuses: PlayerStatus::new(),
        statistics: PlayerStatistics::new(),
        decision_history: PlayerDecisionHistory::new(),
        plan: None,
        last_transfer_date: None,
        pending_signing: None,
        contract: None,
        is_on_loan: false,
        loan_from_club_id: None,
        is_force_match_selection: false,
        release_reason: None,
        free_agent_state: None,
        pending_pre_contract: None,
    }
}

fn f(x: Measure) -> f32 {
    f32::from_bits(x.to_bits())
}

fn rules() -> ArrivalRules {
    ArrivalRules {
        ambition_shock_min_ambition: m(12.0),
        ambition_shock_threshold: m(2000.0),
        dream_move_threshold: m(3000.0),
        elite_club_reputation: m(7500.0),
        elite_club_min_player_gap: m(2000.0),
        salary_shock_ratio: m(0.4),
        salary_boost_ratio: m(1.5),
    }
}

fn magnitudes() -> ArrivalMagnitudes {
    ArrivalMagnitudes {
        ambition_shock: m(-8.0),
        dream_move: m(10.0),
        dream_loan: m(6.0),
        homecoming: m(5.0),
        joining_elite: m(6.0),
        salary_shock: m(-7.0),
        salary_boost: m(5.0),
        continental: m(4.0),
        home_return: m(3.0),
    }
}

/// The readings of a move, with an ambition of ten asking for nothing and each point above it
/// for six hundred more.
fn readings(p: &Player, age: u8, club_share: f32, league: u16) -> ArrivalReadings {
    let ambition = f(p.attributes.ambition);
    let expected = (ambition - 10.0).max(0.0) * 600.0;
    let club = club_share * 10000.0;
    let ratio = match (p.pending_signing, &p.contract) {
        (Some(PendingSigning { previous_salary: Some(old), .. }), Some(c)) if old > 0 => {
            c.salary as f32 / old as f32
        }
        _ => 1.0,
    };
    ArrivalReadings {
        age,
        club_share: m(club_share),
        club_reputation: m(club),
        club_points: (club_share.clamp(0.0, 1.0) * 10000.0) as u16,
        league_reputation: league,
        ambition_gap: m(expected - club),
        dream_surplus: m(club - expected),
        club_lead: m(club - p.player_attributes.world_reputation as f32),
        wage_ratio: m(ratio),
        uefa_suspended: false,
        promise_horizon_days: 0,
    }
}

fn arrival_day() -> Date {
    d(2026, 7, 1)
}

fn count(p: &Player, t: HappinessEventType) -> usize {
    p.happiness.recent_events.iter().filter(|e| e.event_type == t).count()
}

fn dreamer(ambition: f32, world_rep: i16) -> Player {
    let mut p = plain_player();
    p.attributes.ambition = m(ambition);
    p.player_attributes.world_reputation = world_rep;
    p.player_attributes.current_reputation = world_rep;
    p
}

fn signing(dest: u32, is_loan: bool, club: u16, league: u16, rank: Option<u8>) -> PendingSigning {
    PendingSigning {
        previous_salary: Some(50_000),
        is_loan,
        destination_club_id: dest,
        had_return_home_desire: false,
        had_european_desire: false,
        had_libertadores_desire: false,
        source_club_reputation: club,
        source_league_reputation: league,
        dest_position_depth_rank: rank,
        source_is_rival: false,
    }
}

fn arrive(p: &mut Player, age: u8, share: f32, league: u16, code: &str) -> Option<Arrival> {
    let x = readings(p, age, share, league);
    p.process_transfer_shock(arrival_day(), code, None, &rules(), &x, &magnitudes())
}

/// A permanent move between clubs that are no favourites.
fn move_for_good(p: &mut Player, age: u8, share: f32, league: u16, club: u16, old_league: u16) {
    p.pending_signing = Some(signing(99, false, club, old_league, None));
    arrive(p, age, share, league, "");
}

fn move_on_loan(p: &mut Player, age: u8, share: f32, league: u16, club: u16, old_league: u16) {
    p.pending_signing = Some(signing(99, true, club, old_league, None));
    arrive(p, age, share, league, "");
}

#[test]
fn pinsoglio_to_cittadella_does_not_fire_dream_move() {
    let mut p = dreamer(10.0, 4500);
    move_for_good(&mut p, 36, 0.30, 5000, 9000, 8500);
    assert_eq!(count(&p, HappinessEventType::DreamMove), 0);
}

#[test]
fn step_down_at_any_age_does_not_fire_dream_move() {
    let mut p = dreamer(12.0, 6000);
    move_for_good(&mut p, 25, 0.40, 5000, 6500, 6000);
    assert_eq!(count(&p, HappinessEventType::DreamMove), 0);
}

#[test]
fn young_prospect_to_top_club_fires_dream_move() {
    let mut p = dreamer(10.0, 2000);
    move_for_good(&mut p, 22, 0.85, 9500, 1500, 2500);
    assert_eq!(count(&p, HappinessEventType::DreamMove), 1);
}

#[test]
fn veteran_needs_extra_margin_for_dream_move() {
    let mut p = dreamer(12.0, 5000);
    move_for_good(&mut p, 33, 0.60, 6000, 3500, 4000);
    assert_eq!(count(&p, HappinessEventType::DreamMove), 0);

    let mut p2 = dreamer(12.0, 5000);
    move_for_good(&mut p2, 33, 0.80, 8000, 3500, 4000);
    assert_eq!(count(&p2, HappinessEventType::DreamMove), 1);
}

#[test]
fn over_35_requires_elite_destination() {
    let mut p = dreamer(12.0, 3000);
    move_for_good(&mut p, 36, 0.60, 6000, 2500, 3000);
    assert_eq!(count(&p, HappinessEventType::DreamMove), 0);

    let mut p2 = dreamer(12.0, 3000);
    move_for_good(&mut p2, 36, 0.85, 9500, 2500, 3000);
    assert_eq!(count(&p2, HappinessEventType::DreamMove), 1);
}

#[test]
fn source_aware_step_up_requires_meaningful_gap() {
    assert!(!Player::is_source_aware_step_up(5500, 6000, 4500, 5500));
    assert!(Player::is_source_aware_step_up(6500, 6000, 4500, 5500));
    assert!(Player::is_source_aware_step_up(5500, 7000, 4500, 5500));
    assert!(!Player::is_source_aware_step_up(9500, 9500, 0, 0));
}

#[test]
fn spartak_to_dynamo_kyiv_is_not_a_dream_move() {
    let mut p = dreamer(14.0, 4500);
    move_for_good(&mut p, 20, 0.65, 5500, 7000, 6500);
    assert_eq!(count(&p, HappinessEventType::DreamMove), 0);
}

#[test]
fn ordinary_loan_does_not_fire_dream_move() {
    let mut p = dreamer(16.0, 1500);
    move_on_loan(&mut p, 19, 0.55, 6000, 1500, 2500);
    assert_eq!(count(&p, HappinessEventType::DreamMove), 0);
    assert_eq!(count(&p, HappinessEventType::DreamLoanOpportunity), 0);
}

#[test]
fn loan_to_elite_club_fires_dream_loan_opportunity() {
    assert!(Player::is_source_aware_step_up(9500, 9500, 1500, 2500));
    let mut p = dreamer(14.0, 1500);
    move_on_loan(&mut p, 19, 0.95, 9500, 1500, 2500);
    assert_eq!(count(&p, HappinessEventType::DreamMove), 0);
    assert_eq!(count(&p, HappinessEventType::DreamLoanOpportunity), 1);
    let event = p
        .happiness
        .recent_events
        .iter()
        .find(|e| e.event_type == HappinessEventType::DreamLoanOpportunity)
        .unwrap();
    let evidence = &event.context.as_ref().unwrap().evidence;
    assert_eq!(
        evidence,
        &vec![
            HappinessEventEvidence::JoinedEliteClub,
            HappinessEventEvidence::ReputationGap,
            HappinessEventEvidence::HighAmbition,
        ]
    );
}

#[test]
fn veteran_loan_does_not_fire_dream_loan_opportunity() {
    assert!(Player::is_source_aware_step_up(9500, 9500, 4000, 5000));
    let mut p = dreamer(14.0, 4000);
    move_on_loan(&mut p, 36, 0.95, 9500, 4000, 5000);
    assert_eq!(count(&p, HappinessEventType::DreamLoanOpportunity), 0);
}

#[test]
fn favourite_club_loan_never_emits_dream_move() {
    assert!(Player::is_source_aware_step_up(9500, 9500, 3500, 4500));
    let mut p = dreamer(14.0, 3000);
    move_on_loan(&mut p, 20, 0.95, 9500, 3500, 4500);
    assert_eq!(count(&p, HappinessEventType::DreamMove), 0);
}

#[test]
fn favourite_club_permanent_without_step_up_emits_homecoming() {
    assert!(!Player::is_source_aware_step_up(5500, 5500, 8000, 8500));
    let mut p = dreamer(12.0, 6000);
    p.favorite_clubs.push(99);
    move_for_good(&mut p, 28, 0.55, 5500, 8000, 8500);
    assert_eq!(count(&p, HappinessEventType::DreamMove), 0);
    assert_eq!(count(&p, HappinessEventType::HomeReturnOpportunity), 1);
}

#[test]
fn favourite_club_permanent_with_real_step_up_still_emits_dream_move() {
    assert!(Player::is_source_aware_step_up(9000, 9500, 2000, 2500));
    let mut p = dreamer(14.0, 2000);
    p.favorite_clubs.push(99);
    move_for_good(&mut p, 22, 0.90, 9500, 2000, 2500);
    assert_eq!(count(&p, HappinessEventType::DreamMove), 1);
    assert_eq!(count(&p, HappinessEventType::HomeReturnOpportunity), 0);
}

#[test]
fn favourite_club_homecoming_uses_dedicated_desire_kind() {
    let mut p = dreamer(12.0, 5000);
    p.favorite_clubs.push(99);
    move_for_good(&mut p, 25, 0.50, 5000, 5000, 5000);
    assert_eq!(count(&p, HappinessEventType::HomeReturnOpportunity), 1);
    let event = p
        .happiness
        .recent_events
        .iter()
        .find(|e| e.event_type == HappinessEventType::HomeReturnOpportunity)
        .unwrap();
    let kind = event
        .context
        .as_ref()
        .and_then(|c| c.career_desire.as_ref())
        .map(|c| c.kind);
    assert_eq!(kind, Some(CareerDesireKind::FavoriteClubHomecoming));
}

#[test]
fn a_homecoming_is_logged_once() {
    let mut p = dreamer(12.0, 5000);
    p.favorite_clubs.push(99);
    let mut s = signing(99, false, 5000, 5000, None);
    s.had_return_home_desire = true;
    p.pending_signing = Some(s);
    let arrival = arrive(&mut p, 25, 0.50, 5000, "").unwrap();
    assert_eq!(arrival.facts.prestige, Prestige::Homecoming);
    assert!(arrival.facts.home_return);
    assert_eq!(count(&p, HappinessEventType::HomeReturnOpportunity), 1);
}

#[test]
fn a_signing_is_taken_up_once() {
    let mut p = dreamer(12.0, 5000);
    p.pending_signing = Some(signing(99, false, 5000, 5000, None));
    assert!(arrive(&mut p, 25, 0.50, 5000, "fr").is_some());
    assert!(p.pending_signing.is_none());
    let logged = p.happiness.recent_events.len();
    assert!(arrive(&mut p, 25, 0.50, 5000, "fr").is_none());
    assert_eq!(p.happiness.recent_events.len(), logged);
}

fn contract(salary: u32, shirt_number: Option<u8>) -> PlayerClubContract {
    PlayerClubContract {
        salary,
        expiration: d(2030, 6, 30),
        squad_status: PlayerSquadStatus::FirstTeamRegular,
        shirt_number,
        is_transfer_listed: false,
    }
}

#[test]
fn wages_and_shirt_are_felt() {
    // A third of the old wage, and the iconic ten.
    let mut p = dreamer(10.0, 5000);
    p.contract = Some(contract(20_000, Some(10)));
    let mut s = signing(99, false, 5000, 5000, None);
    s.previous_salary = Some(60_000);
    p.pending_signing = Some(s);
    let arrival = arrive(&mut p, 25, 0.50, 5000, "").unwrap();
    assert!(arrival.facts.salary_shock);
    assert!(arrival.extremes.huge_salary_cut);
    assert_eq!(count(&p, HappinessEventType::SalaryShock), 1);
    assert_eq!(count(&p, HappinessEventType::SalaryBoost), 0);
    let shirt = p
        .happiness
        .recent_events
        .iter()
        .find(|e| e.event_type == HappinessEventType::ShirtNumberPromotion)
        .unwrap();
    assert_eq!(f(shirt.magnitude), 4.0);

    // Three times the old wage, and a four on the back.
    let mut q = dreamer(10.0, 5000);
    q.contract = Some(contract(90_000, Some(4)));
    q.pending_signing = Some(PendingSigning { previous_salary: Some(30_000), ..s });
    arrive(&mut q, 25, 0.50, 5000, "");
    assert_eq!(count(&q, HappinessEventType::SalaryBoost), 1);
    assert_eq!(f(q.happiness.recent_events.last().unwrap().magnitude), 2.0);

    // A loan has its own wage, and twenty-three is just a number.
    let mut l = dreamer(10.0, 5000);
    l.contract = Some(contract(20_000, Some(23)));
    l.pending_signing = Some(PendingSigning { is_loan: true, ..s });
    arrive(&mut l, 25, 0.50, 5000, "");
    assert!(l.happiness.recent_events.is_empty());
}

#[test]
fn language_and_role_are_felt() {
    let forward = PositionSlot { position: 14, group: PlayerFieldPositionGroup::Forward };
    let winger = PositionSlot { position: 13, group: PlayerFieldPositionGroup::Forward };
    let keeper = PositionSlot { position: 0, group: PlayerFieldPositionGroup::Goalkeeper };
    assert_eq!(fit_in(forward, &[keeper, forward]), RoleFit::Natural);
    assert_eq!(fit_in(forward, &[keeper, winger]), RoleFit::SameGroup);
    assert_eq!(fit_in(forward, &[keeper]), RoleFit::Nowhere);

    let mut p = dreamer(10.0, 5000);
    p.pending_signing = Some(signing(99, false, 5000, 5000, None));
    let x = readings(&p, 25, 0.50, 5000);
    let formation = [keeper];
    let arrival =
        p.process_transfer_shock(arrival_day(), "fr", Some(&formation), &rules(), &x, &magnitudes()).unwrap();
    assert!(arrival.extremes.no_tactical_role);
    let events: Vec<(HappinessEventType, f32)> =
        p.happiness.recent_events.iter().map(|e| (e.event_type, f(e.magnitude))).collect();
    assert_eq!(
        events,
        vec![(HappinessEventType::FeelingIsolated, -5.0), (HappinessEventType::RoleMismatch, -8.0)]
    );

    let mut q = dreamer(10.0, 5000);
    q.languages.push(PlayerLanguage {
        language: Language::French,
        proficiency: 100,
        is_native: true,
    });
    q.pending_signing = Some(signing(99, true, 5000, 5000, None));
    let formation = [winger];
    q.process_transfer_shock(arrival_day(), "fr", Some(&formation), &rules(), &x, &magnitudes());
    let events: Vec<(HappinessEventType, f32)> =
        q.happiness.recent_events.iter().map(|e| (e.event_type, f(e.magnitude))).collect();
    assert_eq!(events, vec![(HappinessEventType::RoleMismatch, -4.0)]);
}

#[test]
fn a_promise_of_playing_time_goes_with_some_moves() {
    for (horizon_days, promised) in [(180, true), (1, true), (0, false), (-1, false)] {
        let mut p = dreamer(10.0, 5000);
        p.pending_signing = Some(signing(99, true, 5000, 5000, None));
        let x = ArrivalReadings { promise_horizon_days: horizon_days, ..readings(&p, 25, 0.50, 5000) };
        let arrival =
            p.process_transfer_shock(arrival_day(), "fr", None, &rules(), &x, &magnitudes()).unwrap();
        let promise = ManagerPromise {
            kind: ManagerPromiseKind::PlayingTime,
            made_on: arrival_day(),
            horizon_days,
        };
        assert_eq!(arrival.promise, if promised { Some(promise) } else { None });
    }
}

#[test]
fn continental_wishes_come_true_at_a_credible_club() {
    let mut s = signing(99, false, 5000, 5000, None);
    s.had_european_desire = true;
    for (share, suspended, expected) in
        [(0.55, false, 1), (0.5499999, false, 0), (0.90, true, 0)]
    {
        let mut p = dreamer(10.0, 9000);
        p.pending_signing = Some(s);
        let mut x = readings(&p, 25, share, 5000);
        x.uefa_suspended = suspended;
        p.process_transfer_shock(arrival_day(), "", None, &rules(), &x, &magnitudes());
        assert_eq!(count(&p, HappinessEventType::ContinentalAmbitionSatisfied), expected);
    }
    // The Libertadores come first, and no suspension bars them.
    s.had_european_desire = false;
    s.had_libertadores_desire = true;
    let mut p = dreamer(10.0, 9000);
    p.pending_signing = Some(s);
    let mut x = readings(&p, 25, 0.60, 5000);
    x.uefa_suspended = true;
    let arrival = p.process_transfer_shock(arrival_day(), "", None, &rules(), &x, &magnitudes()).unwrap();
    assert_eq!(
        arrival.facts.continental,
        Some(CareerDesireKind::CopaLibertadoresAmbition)
    );
}

#[test]
fn a_continental_season_satisfies_once_a_year() {
    let mut p = plain_player();
    p.on_continental_qualification_satisfaction(m(5.0));
    assert!(p.happiness.recent_events.is_empty());

    p.happiness.add_event(HappinessEventType::WantsEuropeanCompetition, m(-2.0));
    p.happiness.recent_events[0].days_ago = 241;
    p.on_continental_qualification_satisfaction(m(5.0));
    assert_eq!(count(&p, HappinessEventType::ContinentalAmbitionSatisfied), 0);

    p.happiness.recent_events[0].days_ago = 240;
    p.on_continental_qualification_satisfaction(m(5.0));
    p.on_continental_qualification_satisfaction(m(5.0));
    assert_eq!(count(&p, HappinessEventType::ContinentalAmbitionSatisfied), 1);
}

#[test]
fn veterans_feel_less() {
    assert_eq!(veteran_percent(Prestige::DreamMove, 31), 100);
    assert_eq!(veteran_percent(Prestige::DreamMove, 32), 60);
    assert_eq!(veteran_percent(Prestige::DreamLoan, 32), 70);
    assert_eq!(veteran_percent(Prestige::Homecoming, 40), 70);
    assert_eq!(veteran_percent(Prestige::Ordinary, 40), 100);
}

/// Scales the soft load so that all of today's load fits the budget.
fn cap_first_tick(h: &mut PlayerHappiness, extremes: TransferShockExtremes) {
    let budget = TransferShockBudget::default();
    let sum = |v: Vec<Measure>| v.into_iter().map(f).sum::<f32>();
    let hard = sum(TransferShockBudget::todays_load(h, false));
    let soft = sum(TransferShockBudget::todays_load(h, true));
    let remaining = (budget.cap(extremes) as f32 - hard).min(0.0);
    if TransferShockBudget::is_within(m(soft), m(remaining)) {
        return;
    }
    let scale = (remaining / soft).clamp(0.0, 1.0);
    let scaled = h.recent_events.iter().map(|e| m(f(e.magnitude) * scale)).collect();
    TransferShockBudget::rescale(h, &scaled);
}

fn happiness_with(events: &[(HappinessEventType, f32)]) -> PlayerHappiness {
    let mut h = PlayerHappiness::new(m(50.0));
    for (event_type, magnitude) in events {
        h.add_event(*event_type, m(*magnitude));
    }
    h
}

fn magnitude_of(h: &PlayerHappiness, event_type: HappinessEventType) -> f32 {
    h.recent_events
        .iter()
        .find(|e| e.event_type == event_type)
        .map(|e| f(e.magnitude))
        .unwrap_or(0.0)
}

#[test]
fn no_role_mismatch_is_hard_and_protected_from_scaling() {
    let mut h = happiness_with(&[
        (HappinessEventType::RoleMismatch, -8.0),
        (HappinessEventType::AmbitionShock, -8.0),
        (HappinessEventType::TooGoodForLevel, -8.0),
    ]);
    let extremes = TransferShockExtremes { no_tactical_role: true, ..Default::default() };
    cap_first_tick(&mut h, extremes);
    assert_eq!(magnitude_of(&h, HappinessEventType::RoleMismatch), -8.0);
    assert!(magnitude_of(&h, HappinessEventType::AmbitionShock) > -8.0);
}

#[test]
fn partial_role_mismatch_is_soft_and_scaled() {
    let mut h = happiness_with(&[
        (HappinessEventType::RoleMismatch, -4.0),
        (HappinessEventType::AmbitionShock, -8.0),
        (HappinessEventType::TooGoodForLevel, -8.0),
    ]);
    cap_first_tick(&mut h, TransferShockExtremes::default());
    let rm = magnitude_of(&h, HappinessEventType::RoleMismatch);
    assert!(rm > -4.0 && rm < 0.0);
}

#[test]
fn a_day_within_the_budget_is_left_alone() {
    let mut h = happiness_with(&[
        (HappinessEventType::SalaryShock, -4.0),
        (HappinessEventType::FeelingIsolated, -5.0),
        (HappinessEventType::DreamMove, 10.0),
    ]);
    assert_eq!(TransferShockBudget::todays_load(&h, true), vec![m(-5.0)]);
    assert_eq!(TransferShockBudget::todays_load(&h, false), vec![m(-4.0)]);
    cap_first_tick(&mut h, TransferShockExtremes::default());
    assert_eq!(magnitude_of(&h, HappinessEventType::FeelingIsolated), -5.0);
    assert_eq!(TransferShockBudget::default().cap(TransferShockExtremes::default()), -10);
    let extreme = TransferShockExtremes { high_controversy: true, ..Default::default() };
    assert_eq!(TransferShockBudget::default().cap(extreme), -22);
}

fn player_with(
    ambition: f32,
    world_rep: i16,
    current_rep: i16,
    ca: u8,
    pressure: f32,
    professionalism: f32,
    loyalty: f32,
) -> Player {
    let mut p = plain_player();
    p.id = 7;
    p.attributes.ambition = m(ambition);
    p.attributes.pressure = m(pressure);
    p.attributes.professionalism = m(professionalism);
    p.attributes.loyalty = m(loyalty);
    p.player_attributes.world_reputation = world_rep;
    p.player_attributes.current_reputation = current_rep;
    p.player_attributes.current_ability = ca;
    p.player_attributes.potential_ability = ca;
    p
}

fn profile_of(
    p: &Player,
    age: u8,
    s: &PendingSigning,
    fee: f64,
    share: f32,
    league: u16,
) -> TransferEnvironmentProfile {
    let points = (share.clamp(0.0, 1.0) * 10000.0) as u16;
    TransferEnvironmentProfile::build(p, age, s, points, league, fee as u64)
}

fn no_company() -> SocialSignals {
    SocialSignals { same_language_teammates: 0, same_nationality_teammates: 0 }
}

fn profile_readings(p: &Player, t: &TransferEnvironmentProfile) -> ProfileReadings {
    let club = t.club_rep_gap() as f32 / 10000.0;
    let league = t.league_rep_gap() as f32 / 10000.0;
    let ability = t.ability_vs_dest_tier() as f32 / 100.0;
    ProfileReadings {
        diligence: m(f(p.attributes.adaptability) + f(p.attributes.professionalism)),
        step_up: m(0.45 * club + 0.35 * league + 0.20 * ability),
    }
}

/// Tells the stories of the first day.
fn first_day(p: &mut Player, t: &TransferEnvironmentProfile, s: &SocialSignals) {
    let x = profile_readings(p, t);
    for c in t.first_tick_environment_events(s, &x) {
        p.emit_candidate(c, m(1.0));
    }
}

#[test]
fn weak_player_at_elite_club_fires_top_club_opportunity() {
    let mut p = player_with(14.0, 1000, 1000, 80, 12.0, 14.0, 10.0);
    let s = signing(100, false, 2000, 2500, Some(2));
    let t = profile_of(&p, 24, &s, 0.0, 0.85, 9000);
    assert!(t.is_weak_player_at_elite_club());
    first_day(&mut p, &t, &no_company());
    assert!(count(&p, HappinessEventType::TopClubOpportunity) >= 1);
}

#[test]
fn weak_player_with_low_pressure_and_depth_block_fires_primary_plus_one_flavor() {
    let mut p = player_with(12.0, 1000, 1000, 80, 5.0, 11.0, 10.0);
    let s = signing(100, false, 2000, 2500, Some(5));
    let t = profile_of(&p, 24, &s, 0.0, 0.85, 9000);
    first_day(&mut p, &t, &no_company());
    assert!(count(&p, HappinessEventType::TopClubOpportunity) >= 1);
    assert!(count(&p, HappinessEventType::RolePathBlockedAtEliteClub) >= 1);
    assert_eq!(count(&p, HappinessEventType::OverawedByEliteClub), 0);
}

#[test]
fn star_at_weak_club_fires_too_good_under_primary_cap() {
    let mut p = player_with(15.0, 8500, 8500, 170, 12.0, 14.0, 10.0);
    let s = signing(100, false, 9000, 9500, Some(1));
    let t = profile_of(&p, 28, &s, 0.0, 0.25, 3000);
    assert!(t.is_star_at_weak_club());
    first_day(&mut p, &t, &no_company());
    assert_eq!(count(&p, HappinessEventType::TooGoodForLevel), 1);
    assert_eq!(count(&p, HappinessEventType::StepDownEmbarrassment), 0);
}

#[test]
fn favorite_club_with_high_loyalty_suppresses_embarrassment() {
    let mut p = player_with(13.0, 8500, 8500, 170, 12.0, 14.0, 16.0);
    p.favorite_clubs.push(100);
    let s = signing(100, false, 9000, 9500, Some(1));
    let t = profile_of(&p, 28, &s, 0.0, 0.25, 3000);
    first_day(&mut p, &t, &no_company());
    assert_eq!(count(&p, HappinessEventType::TooGoodForLevel), 0);
    assert_eq!(count(&p, HappinessEventType::StepDownEmbarrassment), 0);
}

fn weekly(adaptation: f32, rating: f32, roll: f32) -> WeeklyReadings {
    WeeklyReadings {
        adaptation_score: m(adaptation),
        avg_rating: m(rating),
        roll: m(roll),
    }
}

#[test]
fn weekly_environment_story_caps_at_one_per_week() {
    let mut p = player_with(14.0, 1500, 1500, 85, 7.0, 12.0, 10.0);
    let now = d(2026, 4, 26);
    p.last_transfer_date = now.checked_add_days(-14);
    p.happiness.add_event(HappinessEventType::OverawedByEliteClub, m(-3.0));
    assert!(p.transfer_environment_story(now, 8500, 9000, &weekly(30.0, 6.0, 0.0)).is_none());
    p.happiness.recent_events[0].days_ago = 8;
    let c = p.transfer_environment_story(now, 8500, 9000, &weekly(30.0, 6.0, 0.0)).unwrap();
    assert_eq!(c.event_type, HappinessEventType::OverawedByEliteClub);
}

#[test]
fn profile_step_up_score_positive_for_weak_to_elite() {
    let p = player_with(14.0, 1000, 1000, 80, 12.0, 14.0, 10.0);
    let s = signing(100, false, 2000, 2500, Some(2));
    let t = profile_of(&p, 24, &s, 0.0, 0.85, 9000);
    assert!(t.step_up_score() > 0);
    // 45 * 6500 + 35 * 6500 + 2000 * (80 - 150)
    assert_eq!(t.step_up_score(), 380_000);
}

#[test]
fn profile_step_up_score_negative_for_star_to_weak() {
    let p = player_with(15.0, 8500, 8500, 170, 12.0, 14.0, 10.0);
    let s = signing(100, false, 9000, 9500, Some(1));
    let t = profile_of(&p, 28, &s, 0.0, 0.25, 3000);
    assert!(t.step_up_score() < 0);
}

#[test]
fn profile_pressure_score_high_for_elite_destination() {
    let p = player_with(14.0, 6000, 6000, 150, 12.0, 14.0, 10.0);
    let s = signing(100, false, 5000, 6000, Some(1));
    let t = profile_of(&p, 26, &s, 5_000_000.0, 0.95, 9500);
    assert!(t.pressure_score() >= 700_000);
    // 50 * 9500 + 30 * 9500 + 20 * 6000
    assert_eq!(t.pressure_score(), 880_000);
}

fn count_env_first_tick_events(p: &Player) -> usize {
    p.happiness
        .recent_events
        .iter()
        .filter(|e| {
            matches!(
                e.event_type,
                HappinessEventType::TopClubOpportunity
                    | HappinessEventType::EliteTrainingLift
                    | HappinessEventType::OverawedByEliteClub
                    | HappinessEventType::RolePathBlockedAtEliteClub
                    | HappinessEventType::DressingRoomStatusShock
                    | HappinessEventType::SeniorMentorSupport
                    | HappinessEventType::TooGoodForLevel
                    | HappinessEventType::StepDownEmbarrassment
                    | HappinessEventType::TrainingStandardFrustration
                    | HappinessEventType::FanExpectationBurden
            )
        })
        .count()
}

#[test]
fn first_tick_caps_narrative_events_to_one_primary_plus_one_flavor() {
    let mut p = player_with(14.0, 1000, 1000, 80, 5.0, 12.0, 10.0);
    let s = signing(100, false, 2000, 2500, Some(5));
    let t = profile_of(&p, 24, &s, 0.0, 0.85, 9000);
    first_day(&mut p, &t, &no_company());
    assert!(count_env_first_tick_events(&p) <= 2);
    assert_eq!(count(&p, HappinessEventType::TopClubOpportunity), 1);
}

#[test]
fn first_tick_picks_role_path_blocked_as_top_flavor_when_depth_blocks() {
    let mut p = player_with(14.0, 1000, 1000, 80, 5.0, 10.0, 10.0);
    let s = signing(100, false, 2000, 2500, Some(5));
    let t = profile_of(&p, 24, &s, 0.0, 0.85, 9000);
    first_day(&mut p, &t, &no_company());
    assert_eq!(count(&p, HappinessEventType::RolePathBlockedAtEliteClub), 1);
}

#[test]
fn senior_mentor_support_fires_when_player_has_compatriot_anchor() {
    let mut p = player_with(14.0, 1000, 1000, 80, 5.0, 10.0, 10.0);
    let company = SocialSignals { same_language_teammates: 2, same_nationality_teammates: 2 };
    let s = signing(100, false, 2000, 2500, Some(5));
    let t = profile_of(&p, 24, &s, 0.0, 0.85, 9000);
    first_day(&mut p, &t, &company);
    assert_eq!(count(&p, HappinessEventType::SeniorMentorSupport), 1);
    assert_eq!(count(&p, HappinessEventType::RolePathBlockedAtEliteClub), 0);
    let c = t.senior_mentor_support_candidate(&company).unwrap();
    assert_eq!(c.magnitude.first, MagnitudeFactor::Percent(115));
    assert_eq!(c.magnitude.second, MagnitudeFactor::Percent(110));
    assert!(c.magnitude.joint);
}

#[test]
fn dressing_room_status_shock_fires_on_upward_jump_with_depth_block() {
    let mut p = player_with(12.0, 2500, 2500, 100, 12.0, 12.0, 10.0);
    let s = signing(100, false, 2500, 3000, Some(3));
    let t = profile_of(&p, 28, &s, 0.0, 0.85, 9000);
    assert!(t.is_weak_player_at_elite_club());
    first_day(&mut p, &t, &no_company());
    assert!(t.dressing_room_status_shock_candidate().is_some());
}

#[test]
fn loan_level_mismatch_fires_for_extreme_tier_jump() {
    let mut p = player_with(13.0, 4000, 4000, 130, 12.0, 12.0, 10.0);
    let s = signing(100, true, 2000, 2500, Some(4));
    let t = profile_of(&p, 22, &s, 0.0, 0.85, 9000);
    first_day(&mut p, &t, &no_company());
    assert_eq!(count(&p, HappinessEventType::LoanLevelMismatch), 1);
}

/// The chance of the week, read from its word.
fn story_roll(id: u32, now: Date) -> f32 {
    (environment_story_word(id, now) as f32 / u32::MAX as f32).clamp(0.0, 0.999)
}

#[test]
fn weekly_positive_recovery_outranks_negative_pressure() {
    let mut p = player_with(14.0, 1000, 1000, 80, 8.0, 12.0, 10.0);
    let now = d(2026, 4, 26);
    p.last_transfer_date = now.checked_add_days(-30);
    p.statistics.played = 8;
    let x = weekly(40.0, 7.2, story_roll(p.id, now));
    if let Some(c) = p.transfer_environment_story(now, 8500, 9000, &x) {
        p.emit_candidate(c, m(1.0));
    }
    let proved = count(&p, HappinessEventType::ProvedLevelAfterMove);
    let overawed = count(&p, HappinessEventType::OverawedByEliteClub);
    assert!(proved >= overawed);
    // With a chance that suits both, the good news is told.
    p.happiness.recent_events.clear();
    let c = p.transfer_environment_story(now, 8500, 9000, &weekly(40.0, 7.2, 0.0)).unwrap();
    assert_eq!(c.event_type, HappinessEventType::ProvedLevelAfterMove);
}

#[test]
fn weekly_fan_expectation_burden_does_not_fire_without_form_sample() {
    let mut p = player_with(14.0, 8500, 8500, 170, 6.0, 12.0, 10.0);
    let now = d(2026, 4, 26);
    p.last_transfer_date = now.checked_add_days(-30);
    for roll in [0.0, 0.2, 0.32, story_roll(p.id, now)] {
        let c = p.transfer_environment_story(now, 2500, 3000, &weekly(50.0, 0.0, roll));
        assert!(c.map(|c| c.event_type) != Some(HappinessEventType::FanExpectationBurden));
    }
}

fn week() -> WeeklyEnvSignals {
    WeeklyEnvSignals {
        days_since: 30,
        adaptation_score: m(50.0),
        apps: 0,
        starts: 0,
        avg_rating: m(0.0),
        league_reputation: 3000,
        ambition: m(15.0),
        pressure: m(12.0),
        current_reputation: 8500,
        had_recent_isolation: false,
        roll: m(0.10),
    }
}

#[test]
fn weekly_too_good_for_level_uses_no_minutes_framing_when_no_apps() {
    let c = week().too_good_for_level_candidate().unwrap();
    assert!(c.context.evidence.contains(&HappinessEventEvidence::BlockedByDepth));
}

#[test]
fn weekly_proved_level_after_move_requires_min_5_apps() {
    let signals = WeeklyEnvSignals {
        days_since: 30,
        adaptation_score: m(70.0),
        apps: 4,
        starts: 4,
        avg_rating: m(8.0),
        league_reputation: 9000,
        ambition: m(14.0),
        pressure: m(12.0),
        current_reputation: 1000,
        had_recent_isolation: false,
        roll: m(0.10),
    };
    assert!(signals.proved_level_after_move_candidate().is_none());
    let signals_ok = WeeklyEnvSignals { apps: 6, ..signals };
    assert!(signals_ok.proved_level_after_move_candidate().is_some());
}

#[test]
fn weekly_trust_takes_eleven_starts_of_twenty() {
    let signals = WeeklyEnvSignals {
        adaptation_score: m(55.0),
        apps: 20,
        starts: 11,
        roll: m(0.5),
        ..week()
    };
    assert!(signals.trusted_after_step_up_candidate().is_some());
    assert!(WeeklyEnvSignals { starts: 10, ..signals }.trusted_after_step_up_candidate().is_none());
    assert!(WeeklyEnvSignals { roll: m(0.55), ..signals }
        .trusted_after_step_up_candidate()
        .is_none());
    let lonely = WeeklyEnvSignals {
        adaptation_score: m(65.0),
        had_recent_isolation: true,
        roll: m(0.4999),
        ..week()
    };
    assert!(lonely.adaptation_breakthrough_candidate().is_some());
    assert!(WeeklyEnvSignals { roll: m(0.5), ..lonely }
        .adaptation_breakthrough_candidate()
        .is_none());
}

#[test]
fn env_candidate_pool_take_top_picks_highest_priority_per_role() {
    let mut pool = EnvCandidatePool::new();
    let p = player_with(14.0, 1000, 1000, 80, 5.0, 12.0, 10.0);
    let s = signing(100, false, 2000, 2500, Some(5));
    let t = profile_of(&p, 24, &s, 0.0, 0.85, 9000);
    pool.push_some(t.top_club_opportunity_candidate());
    pool.push_some(t.role_path_blocked_candidate());
    pool.push_some(t.overawed_by_elite_club_candidate());
    let primary = pool.take_top_of(EnvRole::Primary).unwrap();
    assert_eq!(primary.event_type, HappinessEventType::TopClubOpportunity);
    let flavor = pool.take_top_of(EnvRole::Flavor).unwrap();
    assert_eq!(flavor.event_type, HappinessEventType::RolePathBlockedAtEliteClub);
    assert_eq!(pool.into_top().unwrap().event_type, HappinessEventType::OverawedByEliteClub);
    assert!(EnvCandidatePool::new().into_top().is_none());
}

#[test]
fn of_two_equal_candidates_the_first_is_told() {
    let p = player_with(14.0, 1000, 1000, 80, 5.0, 12.0, 10.0);
    let s = signing(100, false, 2000, 2500, Some(5));
    let t = profile_of(&p, 24, &s, 0.0, 0.85, 9000);
    let mut pool = EnvCandidatePool::new();
    for priority in [40, 50, 50] {
        let mut c = t.top_club_opportunity_candidate().unwrap();
        c.priority = priority;
        c.cooldown_days = pool.items.len() as u16;
        pool.push_some(Some(c));
    }
    let told = pool.into_top().unwrap();
    assert_eq!((told.priority, told.cooldown_days), (50, 1));
}

#[test]
fn a_week_waits_for_a_story_in_the_window() {
    let today = d(2026, 8, 1);
    let mut p = plain_player();
    assert!(!p.awaits_environment_story(today));
    for (days, awaits) in [(-1, false), (0, true), (168, true), (169, false)] {
        p.last_transfer_date = today.checked_add_days(-days);
        assert_eq!(p.awaits_environment_story(today), awaits);
    }
    p.last_transfer_date = Some(today);
    p.happiness.add_event(HappinessEventType::TopClubOpportunity, m(3.0));
    assert!(!p.awaits_environment_story(today));
    p.happiness.recent_events[0].days_ago = 8;
    assert!(p.awaits_environment_story(today));
}

/// The whole first day: the reactions, then the stories.
fn whole_first_day(p: &mut Player, age: u8, fee: f64, share: f32, league: u16, code: &str) {
    let arrival = arrive(p, age, share, league, code).unwrap();
    let t = profile_of(p, age, &arrival.pending, fee, share, league);
    first_day(p, &t, &no_company());
    cap_first_tick(&mut p.happiness, arrival.extremes);
}

#[test]
fn signing_from_the_rival_carries_the_cold_shoulder_mark() {
    let mut p = player_with(12.0, 3000, 3000, 130, 12.0, 12.0, 10.0);
    let mut s = signing(200, false, 4000, 4000, Some(2));
    s.source_is_rival = true;
    p.pending_signing = Some(s);
    whole_first_day(&mut p, 24, 5_000_000.0, 0.45, 4500, "es");
    assert_eq!(count(&p, HappinessEventType::ColdShoulderOverRivalPast), 1);
}

#[test]
fn ordinary_signing_carries_no_cold_shoulder_mark() {
    let mut p = player_with(12.0, 3000, 3000, 130, 12.0, 12.0, 10.0);
    p.pending_signing = Some(signing(200, false, 4000, 4000, Some(2)));
    whole_first_day(&mut p, 24, 5_000_000.0, 0.45, 4500, "es");
    assert_eq!(count(&p, HappinessEventType::ColdShoulderOverRivalPast), 0);
}

#[test]
fn spartak_loan_to_dynamo_kyiv_never_fires_dream_move() {
    let mut p = player_with(14.0, 3500, 3500, 130, 12.0, 12.0, 10.0);
    p.pending_signing = Some(signing(200, true, 7000, 6500, Some(2)));
    whole_first_day(&mut p, 19, 1_000_000.0, 0.65, 5500, "ua");
    assert_eq!(count(&p, HappinessEventType::DreamMove), 0);
    assert_eq!(count(&p, HappinessEventType::DreamLoanOpportunity), 0);
}

#[test]
fn permanent_small_club_to_real_madrid_fires_dream_move() {
    let mut p = player_with(14.0, 2000, 2000, 130, 12.0, 12.0, 10.0);
    p.pending_signing = Some(signing(200, false, 1500, 2500, Some(2)));
    whole_first_day(&mut p, 22, 30_000_000.0, 0.95, 9500, "es");
    assert_eq!(count(&p, HappinessEventType::DreamMove), 1);
    assert_eq!(count(&p, HappinessEventType::DreamLoanOpportunity), 0);
}

#[test]
fn loan_small_club_to_real_madrid_fires_dream_loan_opportunity() {
    let mut p = player_with(14.0, 2000, 2000, 130, 12.0, 12.0, 10.0);
    p.pending_signing = Some(signing(200, true, 1500, 2500, Some(4)));
    whole_first_day(&mut p, 20, 0.0, 0.95, 9500, "es");
    assert_eq!(count(&p, HappinessEventType::DreamMove), 0);
    assert_eq!(count(&p, HappinessEventType::DreamLoanOpportunity), 1);
}

#[test]
fn favourite_club_loan_does_not_emit_dream_move() {
    let mut p = player_with(14.0, 3000, 3000, 130, 12.0, 12.0, 10.0);
    p.favorite_clubs.push(200);
    p.pending_signing = Some(signing(200, true, 6000, 6500, Some(2)));
    whole_first_day(&mut p, 20, 0.0, 0.55, 5500, "es");
    assert_eq!(count(&p, HappinessEventType::DreamMove), 0);
    assert_eq!(count(&p, HappinessEventType::DreamLoanOpportunity), 0);
}

#[test]
fn media_spotlight_needs_a_stage() {
    // 50 * 9000 + 30 * 5000 + 20 * 2500 is exactly 0.65.
    let p = player_with(14.0, 2000, 2500, 130, 10.0, 12.0, 10.0);
    let s = signing(100, false, 9000, 5000, Some(2));
    let t = profile_of(&p, 25, &s, 0.0, 0.90, 5000);
    assert_eq!(t.pressure_score(), 650_000);
    assert!(t.media_spotlight_pressure_candidate(m(0.0)).is_some());
    let thick = TransferEnvironmentProfile { pressure: m(10.5), ..t };
    assert!(thick.media_spotlight_pressure_candidate(m(0.29)).is_none());
    assert!(thick.media_spotlight_pressure_candidate(m(0.30)).is_some());
    let quiet = TransferEnvironmentProfile { player_current_rep: 2499, ..t };
    assert!(quiet.media_spotlight_pressure_candidate(m(1.0)).is_none());
}

#[test]
fn the_word_of_a_week_is_one() {
    // Monday 2026-04-20 to Sunday 2026-04-26, and the week that spans the turn of the year.
    let word = environment_story_word(7, d(2026, 4, 20));
    for day in 21..=26 {
        assert_eq!(environment_story_word(7, d(2026, 4, day)), word);
    }
    assert_ne!(environment_story_word(8, d(2026, 4, 20)), word);
    assert_eq!(
        environment_story_word(7, d(2025, 12, 29)),
        environment_story_word(7, d(2026, 1, 4))
    );
    let h = 7u64
        .wrapping_mul(0xBF58_476D_1CE4_E5B9)
        .wrapping_add(17)
        .wrapping_add(2026u64.wrapping_mul(54_321));
    assert_eq!(word, (h >> 17) as u32);
}
