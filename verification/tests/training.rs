use club_core::date::Date;
use club_core::happiness::{
    HappinessEventCause, HappinessEventContext, HappinessEventScope, HappinessEventType,
    PlayerHappiness,
};
use club_core::measure::Measure;
use club_core::training::{
    CoachingAttributes, MoraleReaction, OutcomeInputs, PlayerTraining, SessionPlan, Skill,
    SkillType, TrainingEventEvidence, TrainingEventReason, TrainingFocus, TrainingIntensity,
    TrainingSession, TrainingType,
};

/// The order key of a single-precision number.
fn m(x: f32) -> Measure {
    Measure::from_bits(x.to_bits()).unwrap()
}

fn d(year: i32, month: u32, day: u32) -> Date {
    Date::from_ymd_opt(year, month, day).unwrap()
}

fn session(t: TrainingType, intensity: TrainingIntensity) -> TrainingSession {
    TrainingSession { session_type: t, intensity, duration_minutes: 60 }
}

fn plan(t: TrainingType, intensity: TrainingIntensity, age: u8) -> SessionPlan {
    PlayerTraining::train(&session(t, intensity), &Vec::new(), age, 90)
}

/// The condition that a session costs at its intensity.
fn fatigue(p: &SessionPlan) -> f32 {
    let scale = if p.load.scales_with_intensity { p.intensity_percent as f32 / 100.0 } else { 1.0 };
    p.load.fatigue as f32 * scale
}

fn load_units(p: &SessionPlan) -> f32 {
    let scale = if p.load.scales_with_intensity { p.intensity_percent as f32 / 100.0 } else { 1.0 };
    p.load.load_units as f32 * scale
}

fn gain(p: &SessionPlan, skill: Skill) -> u32 {
    p.gains.iter().filter(|g| g.0 == skill).map(|g| g.1).sum()
}

#[test]
fn endurance_costs_condition_not_recovers_it() {
    let p = plan(TrainingType::Endurance, TrainingIntensity::Moderate, 25);
    assert!(fatigue(&p) > 0.0);
    assert!(load_units(&p) > 10.0);
    assert!(!p.restores_condition);
}

#[test]
fn recovery_session_restores_condition_with_little_sharpness() {
    let p = plan(TrainingType::Recovery, TrainingIntensity::VeryLight, 25);
    assert!(fatigue(&p) < -300.0);
    assert!(p.restores_condition);
    assert!((p.load.readiness_tenths as f32) / 10.0 < 0.3);
}

#[test]
fn pressing_drills_load_higher_than_video_analysis() {
    let pressing = plan(TrainingType::PressingDrills, TrainingIntensity::High, 25);
    let video = plan(TrainingType::VideoAnalysis, TrainingIntensity::VeryLight, 25);
    assert!(fatigue(&pressing) > fatigue(&video) + 200.0);
    assert!(load_units(&pressing) > load_units(&video) + 20.0);
    assert!(pressing.load.readiness_tenths > video.load.readiness_tenths + 5);
}

#[test]
fn match_preparation_gains_more_sharpness_than_rest_day() {
    let prep = plan(TrainingType::MatchPreparation, TrainingIntensity::Light, 25);
    let rest = plan(TrainingType::RestDay, TrainingIntensity::VeryLight, 25);
    assert!(prep.load.readiness_tenths > rest.load.readiness_tenths + 5);
}

#[test]
fn goalkeeper_session_trains_goalkeeping_skills() {
    let p = plan(TrainingType::GoalkeeperTraining, TrainingIntensity::Moderate, 25);
    assert!(gain(&p, Skill::Handling) > 0);
    assert!(gain(&p, Skill::Reflexes) > 0);
    assert_eq!(gain(&p, Skill::Passing), 0);
    assert_eq!(gain(&p, Skill::Technique), 0);
}

#[test]
fn veteran_technical_session_gains_taper_below_prime() {
    let prime = plan(TrainingType::Passing, TrainingIntensity::Moderate, 24);
    let veteran = plan(TrainingType::Passing, TrainingIntensity::Moderate, 36);
    assert_eq!(prime.gains, veteran.gains);
    assert!((veteran.technical_percent as f32) < prime.technical_percent as f32 * 0.6);
}

#[test]
fn light_short_session_teaches_less_than_high_long() {
    let light = TrainingSession {
        session_type: TrainingType::Passing,
        intensity: TrainingIntensity::VeryLight,
        duration_minutes: 30,
    };
    let heavy = TrainingSession {
        session_type: TrainingType::Passing,
        intensity: TrainingIntensity::High,
        duration_minutes: 90,
    };
    let light = PlayerTraining::train(&light, &Vec::new(), 25, 90);
    let heavy = PlayerTraining::train(&heavy, &Vec::new(), 25, 90);
    assert!(light.dose.gain_squared < heavy.dose.gain_squared);
    assert_eq!(light.gains, heavy.gains);
}

#[test]
fn individual_plan_focus_skill_receives_extra_gain() {
    let s = session(TrainingType::Passing, TrainingIntensity::Moderate);
    let without = PlayerTraining::train(&s, &Vec::new(), 25, 90);
    assert_eq!(gain(&without, Skill::FreeKicks), 0);
    assert!(without.extra.is_empty());
    let focus = vec![TrainingFocus::SpecificSkill(SkillType::FreeKicks)];
    let with = PlayerTraining::train(&s, &focus, 25, 90);
    assert_eq!(with.extra.len(), 1);
    assert_eq!((with.extra[0].skill, with.extra[0].tenths), (Skill::FreeKicks, 10));
    // A recovery session has no individual work.
    let rest = session(TrainingType::Recovery, TrainingIntensity::VeryLight);
    assert!(PlayerTraining::train(&rest, &focus, 25, 90).extra.is_empty());
}

#[test]
fn under_15_physical_session_caps_strength_gain_below_adult() {
    let young = plan(TrainingType::Strength, TrainingIntensity::High, 14);
    let adult = plan(TrainingType::Strength, TrainingIntensity::High, 22);
    let strength = |p: &SessionPlan| {
        gain(p, Skill::Strength) * p.age_percent * p.maturity_percent
    };
    assert!((strength(&young) as f32) * 1.5 < strength(&adult) as f32);
}

#[test]
fn under_15_technical_session_not_dampened_below_adult_baseline() {
    let young = plan(TrainingType::Passing, TrainingIntensity::Moderate, 14);
    let adult = plan(TrainingType::Passing, TrainingIntensity::Moderate, 22);
    assert_eq!(gain(&young, Skill::Passing), gain(&adult, Skill::Passing));
    assert!(young.gains_use_receptiveness && adult.gains_use_receptiveness);
    assert!(!young.gains_use_age && !adult.gains_use_age);
    assert_eq!(young.technical_percent, adult.technical_percent);
    // What is left between the two: how receptive they are, and how much of a potential of 150
    // is open at an ability of 75.
    let reached = |age: u8| {
        let receptiveness = 0.5 + PlayerTraining::receptive_age_bonus(age) as f32 / 10.0;
        let (gap, potential) =
            PlayerTraining::calculate_potential_development_factor(150, 75).unwrap();
        let open = gap as f32 / potential as f32;
        let aged = PlayerTraining::potential_age_factor(age) as f32 / 100.0;
        receptiveness.clamp(0.1, 1.6) * (1.0 + open * aged * 0.7)
    };
    let ratio = reached(14) / reached(22);
    assert!(ratio > 0.4, "ratio {ratio}");
    assert!(ratio < 1.0, "ratio {ratio}");
}

#[test]
fn a_longer_session_costs_by_the_minute() {
    let lasting = |minutes: u16| {
        let session = TrainingSession {
            session_type: TrainingType::PressingDrills,
            intensity: TrainingIntensity::High,
            duration_minutes: minutes,
        };
        PlayerTraining::train(&session, &vec![], 25, 95).dose
    };
    let hour = lasting(60);
    // 180 * 1.5, 0.004 * 1.5, 38 * 1.5 and 1.0.
    assert_eq!(hour.fatigue, 270 * 6000);
    assert_eq!(hour.injury_risk, 60 * 6000);
    assert_eq!(hour.load_units, 57 * 6000);
    assert_eq!(hour.readiness_squared, 6000);
    assert_eq!(hour.gain_squared, 115 * 115 * 60);
    let long = lasting(90);
    assert_eq!(2 * long.fatigue, 3 * hour.fatigue);
    assert_eq!(2 * long.injury_risk, 3 * hour.injury_risk);
    assert_eq!(2 * long.load_units, 3 * hour.load_units);
    assert_eq!(2 * long.readiness_squared, 3 * hour.readiness_squared);
    assert_eq!(2 * long.gain_squared, 3 * hour.gain_squared);
    assert_eq!(lasting(240), long);
    assert_eq!(lasting(0), lasting(21));
    assert_ne!(lasting(22), lasting(21));
}

fn neutral_outcome() -> OutcomeInputs {
    OutcomeInputs {
        raw: m(10.0),
        baseline: m(10.0),
        delta: m(0.0),
        effort: m(10.0),
        physical_state: m(14.0),
        psychological: m(10.0),
        coach_fit: m(10.0),
        session_fit: m(10.0),
        professionalism: m(12.0),
        morale: m(50.0),
        work_rate: m(12.0),
        determination: m(12.0),
        leadership: m(10.0),
        fatigue_change: m(50.0),
        recovery_debt: m(0.0),
        recovery_debt_heavy: false,
        workload_spike: false,
        in_recovery: false,
        condition_pct: 95,
        age: 25,
        session_type: TrainingType::Passing,
    }
}

fn happy() -> PlayerHappiness {
    PlayerHappiness::new(m(50.0))
}

#[test]
fn low_pro_low_workrate_can_produce_poor_attitude_outcome() {
    let inp = OutcomeInputs {
        raw: m(5.0),
        delta: m(-5.0),
        effort: m(4.0),
        professionalism: m(4.0),
        work_rate: m(4.0),
        determination: m(4.0),
        session_type: TrainingType::Endurance,
        ..neutral_outcome()
    };
    let (reason, evidence) = PlayerTraining::compute_outcome(&inp, &happy());
    assert_eq!(reason, TrainingEventReason::PoorAttitude);
    assert_eq!(
        evidence,
        vec![
            TrainingEventEvidence::LowSessionPerformance,
            TrainingEventEvidence::LowEffort,
            TrainingEventEvidence::LowProfessionalism,
        ]
    );
}

fn exhausted(raw: f32) -> OutcomeInputs {
    OutcomeInputs {
        raw: m(raw),
        delta: m(raw - 10.0),
        effort: m(5.0),
        professionalism: m(18.0),
        recovery_debt: m(320.0),
        recovery_debt_heavy: true,
        workload_spike: true,
        fatigue_change: m(200.0),
        condition_pct: 45,
        session_type: TrainingType::PressingDrills,
        ..neutral_outcome()
    }
}

#[test]
fn high_pro_low_condition_yields_struggled_with_intensity_not_attitude() {
    for raw in [1.0, 4.0, 9.9] {
        let (reason, evidence) = PlayerTraining::compute_outcome(&exhausted(raw), &happy());
        assert_eq!(reason, TrainingEventReason::StruggledWithIntensity);
        assert!(evidence.contains(&TrainingEventEvidence::FatigueLimited));
        assert!(evidence.contains(&TrainingEventEvidence::Overloaded));
    }
}

#[test]
fn exhausted_pro_main_negative_reason_is_fatigue_not_attitude() {
    // Even without a professional's character the body comes first.
    let inp = OutcomeInputs { professionalism: m(4.0), ..exhausted(3.0) };
    assert_eq!(
        PlayerTraining::pick_reason(&inp, false, true),
        TrainingEventReason::StruggledWithIntensity
    );
}

#[test]
fn transfer_target_shows_more_distraction_than_neutral() {
    let inp = OutcomeInputs { raw: m(8.0), delta: m(-2.0), ..neutral_outcome() };
    let mut rumoured = happy();
    rumoured.add_event(HappinessEventType::TransferRumour, m(-2.0));
    rumoured.add_event(HappinessEventType::AgentStirsInterest, m(-1.5));
    let (target, evidence) = PlayerTraining::compute_outcome(&inp, &rumoured);
    let (neutral, _) = PlayerTraining::compute_outcome(&inp, &happy());
    assert_eq!(target, TrainingEventReason::DistractedByRumours);
    assert_eq!(neutral, TrainingEventReason::RoutineBadSession);
    assert_eq!(
        evidence,
        vec![
            TrainingEventEvidence::TransferSpeculation,
            TrainingEventEvidence::TransferDistraction,
        ]
    );
}

#[test]
fn good_sessions_have_their_reasons() {
    let good = OutcomeInputs { raw: m(14.0), delta: m(4.0), ..neutral_outcome() };
    let reason = |inp: &OutcomeInputs, criticised| {
        PlayerTraining::pick_reason(inp, criticised, false)
    };
    assert_eq!(reason(&good, false), TrainingEventReason::RoutineGoodSession);
    assert_eq!(reason(&good, true), TrainingEventReason::RespondedToCriticism);
    let young = OutcomeInputs { age: 21, ..good };
    assert_eq!(reason(&young, false), TrainingEventReason::YoungImpressedStaff);
    let leader = OutcomeInputs { age: 30, leadership: m(14.0), ..good };
    assert_eq!(reason(&leader, false), TrainingEventReason::SettingStandards);
    let pro = OutcomeInputs { professionalism: m(15.0), ..good };
    assert_eq!(reason(&pro, false), TrainingEventReason::ExtraWorkAfterSession);
    let rehearsal = OutcomeInputs { session_type: TrainingType::OpponentSpecific, ..good };
    assert_eq!(reason(&rehearsal, false), TrainingEventReason::MatchPreparationFocus);
    let injured = OutcomeInputs { in_recovery: true, ..good };
    assert_eq!(reason(&injured, true), TrainingEventReason::ReturningFromInjuryNotSharp);
}

#[test]
fn outcome_breakdown_carries_reason_and_evidence() {
    let inp = OutcomeInputs {
        raw: m(13.0),
        delta: m(3.0),
        professionalism: m(18.0),
        work_rate: m(16.0),
        determination: m(16.0),
        session_type: TrainingType::MatchPreparation,
        ..neutral_outcome()
    };
    let (reason, evidence) = PlayerTraining::compute_outcome(&inp, &happy());
    assert_eq!(reason, TrainingEventReason::MatchPreparationFocus);
    assert!(evidence.contains(&TrainingEventEvidence::HighProfessionalism));
    assert!(evidence.contains(&TrainingEventEvidence::HighWorkRate));
    assert!(evidence.contains(&TrainingEventEvidence::HighDetermination));
}

fn reaction(raw: f32, delta: f32, professionalism: f32, controversy: f32) -> MoraleReaction {
    PlayerTraining::morale_change_from_outcome(
        m(raw),
        m(delta),
        TrainingEventReason::RoutineBadSession,
        m(professionalism),
        m(controversy),
        m(10.0),
    )
}

#[test]
fn recovery_session_no_longer_emits_morale_change_unless_outcome_qualifies() {
    assert_eq!(reaction(10.0, 0.0, 12.0, 10.0), MoraleReaction::Neutral);
    assert_eq!(reaction(14.0, 0.0, 12.0, 10.0), MoraleReaction::Lift);
    assert_eq!(reaction(10.0, 1.5, 12.0, 10.0), MoraleReaction::Lift);
    assert_eq!(
        reaction(6.5, 0.0, 15.0, 15.0),
        MoraleReaction::Drop { fatigue: false, professional: true, volatile: true }
    );
}

#[test]
fn deterministic_seed_reproduces_same_outcome() {
    let s = session(TrainingType::TeamShape, TrainingIntensity::Moderate);
    let date = d(2026, 3, 4);
    let noise = PlayerTraining::deterministic_noise(7, date, &s);
    assert_eq!(noise, PlayerTraining::deterministic_noise(7, date, &s));
    assert_ne!(noise, PlayerTraining::deterministic_noise(8, date, &s));
    assert_ne!(noise, PlayerTraining::deterministic_noise(7, d(2026, 3, 5), &s));
    let h = 7u64
        .wrapping_mul(0x9E37_79B9_7F4A_7C15)
        .wrapping_add((date.days as u64).wrapping_mul(0xC6BC_279E_9286_5A2B))
        .wrapping_add(12u64.wrapping_mul(0x1657_8F35_4D38_C5A7))
        .wrapping_add(3u64.wrapping_mul(0x94D0_49BB_1331_11EB));
    assert_eq!(noise.first, (h >> 11) as u32);
    assert_eq!(noise.second, (h.wrapping_mul(0xD1B5_4A32_D192_ED03) >> 17) as u32);
}

#[test]
fn cooldown_keeps_visible_events_under_three_per_14_days() {
    let mut h = happy();
    for _ in 0..14 {
        let context = HappinessEventContext::new(
            HappinessEventCause::Other,
            HappinessEventScope::TrainingGround,
        );
        for e in h.recent_events.iter_mut() {
            e.days_ago = e.days_ago.saturating_add(1);
        }
        h.add_event_with_context_and_cooldown(
            HappinessEventType::PoorTraining,
            m(-2.0),
            context,
            14,
        );
    }
    let visible =
        h.recent_events.iter().filter(|e| e.event_type == HappinessEventType::PoorTraining).count();
    assert!(visible <= 3);
    assert_eq!(visible, 1);
}

#[test]
fn deterministic_pair_can_emit_teammate_bonding() {
    let mut h = happy();
    let context = HappinessEventContext::new(
        HappinessEventCause::TrainingPartnership,
        HappinessEventScope::TrainingGround,
    );
    let emitted = h.add_event_with_partner_context_and_cooldown(
        HappinessEventType::TeammateBonding,
        m(0.6),
        42,
        context,
        14,
    );
    assert!(emitted);
    assert!(h.recent_events.iter().any(|e| e.event_type == HappinessEventType::TeammateBonding));
}

#[test]
fn deterministic_pair_friction_respects_cooldown() {
    let mut h = happy();
    let context = HappinessEventContext::new(
        HappinessEventCause::TrainingFriction,
        HappinessEventScope::TrainingGround,
    );
    let first = h.add_event_with_partner_context_and_cooldown(
        HappinessEventType::ConflictWithTeammate,
        m(-0.8),
        73,
        context.clone(),
        14,
    );
    let second = h.add_event_with_partner_context_and_cooldown(
        HappinessEventType::ConflictWithTeammate,
        m(-0.8),
        73,
        context.clone(),
        14,
    );
    assert!(first);
    assert!(!second);
    // Another teammate is another matter.
    assert!(h.add_event_with_partner_context_and_cooldown(
        HappinessEventType::ConflictWithTeammate,
        m(-0.8),
        74,
        context,
        14,
    ));
}

#[test]
fn ages_shape_what_a_session_gives() {
    assert_eq!(PlayerTraining::calculate_age_training_factor(22), 110);
    assert_eq!(PlayerTraining::calculate_physical_maturity_factor(22), 100);
    assert!(PlayerTraining::calculate_physical_maturity_factor(14) < 100);
    assert!(PlayerTraining::goalkeeping_age_training_factor(33)
        >= PlayerTraining::technical_age_training_factor(33));
    assert!(PlayerTraining::mental_age_training_factor(36) <= 100);
    assert!(PlayerTraining::potential_age_factor(17) > PlayerTraining::potential_age_factor(33));
    assert!(PlayerTraining::receptive_age_bonus(18) > PlayerTraining::receptive_age_bonus(35));
}

#[test]
fn overload_keeps_a_share() {
    let keep = |fatigue: f32, condition, heavy, spike| {
        PlayerTraining::overload_penalty(m(fatigue), condition, heavy, spike)
    };
    assert_eq!(keep(100.0, 90, false, false), 100);
    assert_eq!(keep(100.0, 59, false, false), 85);
    assert_eq!(keep(100.0, 39, false, false), 75);
    assert_eq!(keep(100.0, 39, true, true), 70);
    assert_eq!(keep(0.0, 39, true, true), 100);
}

#[test]
fn a_record_sets_the_standard() {
    let mut t = PlayerTraining::new();
    assert_eq!(t.training_performance, m(10.0));
    assert_eq!(t.baseline_score(m(12.5)), m(12.5));
    t.sessions_completed = 5;
    t.training_performance = m(25.0);
    assert_eq!(t.baseline_score(m(12.5)), m(20.0));
    t.training_performance = m(8.25);
    assert_eq!(t.baseline_score(m(12.5)), m(8.25));
}

#[test]
fn coaches_teach_what_they_know() {
    let c = CoachingAttributes {
        attacking: 10,
        defending: 11,
        tactical: 12,
        technical: 13,
        fitness: 14,
        mental: 15,
        gk_shot_stopping: 1,
        gk_handling: 2,
        gk_distribution: 3,
    };
    let points = |t| PlayerTraining::calculate_coach_effectiveness(&c, t);
    assert_eq!(points(TrainingType::Speed), (14, 20));
    assert_eq!(points(TrainingType::Passing), (13, 20));
    assert_eq!(points(TrainingType::GoalkeeperTraining), (6, 60));
    assert_eq!(points(TrainingType::SetPieces), (46, 80));
    assert_eq!(PlayerTraining::relationship_bonus(true, None), 2);
    assert_eq!(PlayerTraining::relationship_bonus(false, Some(m(-50.5))), -2);
    assert_eq!(PlayerTraining::relationship_bonus(false, Some(m(-50.0))), 0);
    assert_eq!(PlayerTraining::calculate_potential_development_factor(150, 100), Some((50, 150)));
    assert_eq!(PlayerTraining::calculate_potential_development_factor(100, 100), None);
}
