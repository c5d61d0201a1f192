use club_core::date::Date;
use club_core::decisions::PlayerDecisionHistory;
use club_core::interaction::{
    default_cooldown_days, InteractionOutcome, InteractionTone, InteractionTopic,
    ManagerInteraction, ManagerInteractionLog, MAX_INTERACTIONS,
};
use club_core::language::{
    weekly_language_factors, weekly_language_progress, Language, LanguageProfile, PlayerLanguage,
};
use club_core::ledger::{
    neutral_rating, PlayerFieldPositionGroup, PlayerStatCompetitionKind, PlayerStatistics,
    RatingLedger, RatingSource,
};
use club_core::measure::Measure;
use club_core::plan::{PlayerPlan, PlayerPlanRole};
use club_core::rapport::{CoachRapport, PlayerRapport};
use club_core::status::{PlayerStatus, PlayerStatusType};

/// The order key of a single-precision number.
fn m(x: f32) -> Measure {
    Measure::from_bits(x.to_bits()).unwrap()
}

fn d(year: i32, month: u32, day: u32) -> Date {
    Date::from_ymd_opt(year, month, day).unwrap()
}

#[test]
fn dates_follow_the_calendar() {
    assert_eq!(d(1, 1, 1).days, 1);
    assert_eq!(d(2026, 3, 1).days_since(d(2026, 2, 1)), 28);
    assert_eq!(d(2024, 3, 1).days_since(d(2024, 2, 1)), 29);
    assert!(Date::from_ymd_opt(2026, 2, 29).is_none());
    assert!(Date::from_ymd_opt(2026, 13, 1).is_none());
    assert_eq!(d(2026, 12, 31).year(), 2026);
    assert_eq!(d(2026, 12, 31).checked_add_days(1), Some(d(2027, 1, 1)));
    assert!(d(2026, 5, 1).is_first_of_month());
    assert!(!d(2026, 5, 31).is_first_of_month());
    assert_eq!(d(2026, 1, 1).iso_week(), (2026, 1));
    assert_eq!(d(2027, 1, 1).iso_week(), (2026, 53));
    assert!(d(2026, 1, 1).checked_add_days(i64::MAX).is_none());
}

#[test]
fn measures_sort_as_numbers() {
    let numbers = [f32::NEG_INFINITY, -3.5, -1.0, -0.1, 0.0, 1.0e-40, 0.5, 0.55, 7.0, 1.0e30];
    for (i, a) in numbers.iter().enumerate() {
        for (j, b) in numbers.iter().enumerate() {
            assert_eq!(m(*a).at_least(&m(*b)), i >= j);
        }
        assert_eq!(f32::from_bits(m(*a).to_bits()), *a);
    }
    assert!(Measure::from_bits(f32::NAN.to_bits()).is_none());
    assert_eq!(m(-0.0), m(0.0));
    assert_eq!(Measure::halves(-3), m(-1.5));
    assert_eq!(Measure::whole(7), m(7.0));
    assert_eq!(m(-7.25).abs(), m(7.25));
    assert_eq!(m(21.0).clamped(0, 20), m(20.0));
    assert_eq!(m(-0.5).clamped(0, 20), m(0.0));
    assert!(m(2.5).is_at_least_halves(5) && m(2.5).is_at_most_halves(5));
    assert!(m(7.0).is_at_least(7) && m(7.0).is_at_most(7));
    assert!(m(0.375).is_at_least_binary(3, 3) && m(0.375).is_at_most_binary(3, 3));
}

#[test]
fn hundredths_are_the_nearest_numbers() {
    for (h, x) in [
        (10, 0.10f32),
        (30, 0.30),
        (35, 0.35),
        (40, 0.40),
        (45, 0.45),
        (50, 0.50),
        (55, 0.55),
        (60, 0.60),
        (65, 0.65),
        (100, 1.00),
    ] {
        assert!(!m(x).is_below_hundredths(h));
        assert!(m(f32::from_bits(x.to_bits() - 1)).is_below_hundredths(h));
    }
}

fn entry(topic: InteractionTopic, date: Date, cooldown_until: Date) -> ManagerInteraction {
    ManagerInteraction {
        date,
        staff_id: 1,
        topic,
        tone: InteractionTone::Calm,
        player_mood_before: m(60.0),
        outcome: InteractionOutcome::Neutral,
        promise_created: false,
        relationship_delta: m(0.0),
        morale_delta: m(0.0),
        cooldown_until,
    }
}

#[test]
fn cooldown_blocks_topic_in_window() {
    let mut log = ManagerInteractionLog::new();
    log.push(entry(InteractionTopic::PlayingTime, d(2026, 4, 1), d(2026, 4, 22)));
    assert!(log.topic_on_cooldown(InteractionTopic::PlayingTime, d(2026, 4, 10)));
    assert!(!log.topic_on_cooldown(InteractionTopic::PlayingTime, d(2026, 4, 23)));
    assert!(!log.topic_on_cooldown(InteractionTopic::GoodForm, d(2026, 4, 10)));
}

#[test]
fn buffer_caps_at_max_interactions() {
    let mut log = ManagerInteractionLog::new();
    for i in 0..(MAX_INTERACTIONS + 5) {
        let day = ((i % 28) + 1) as u32;
        log.push(entry(InteractionTopic::GoodForm, d(2026, 4, day), d(2026, 4, day)));
    }
    assert_eq!(log.entries.len(), MAX_INTERACTIONS);
    assert_eq!(log.entries[0].date, d(2026, 4, 6));
}

#[test]
fn decay_drops_old_entries() {
    let mut log = ManagerInteractionLog::new();
    log.push(entry(InteractionTopic::PlayingTime, d(2025, 1, 1), d(2025, 1, 22)));
    log.push(entry(InteractionTopic::GoodForm, d(2026, 4, 1), d(2026, 4, 15)));
    log.decay(d(2026, 4, 26));
    assert_eq!(log.entries.len(), 1);
    assert_eq!(log.entries[0].topic, InteractionTopic::GoodForm);
}

#[test]
fn broken_promises_are_counted() {
    let mut log = ManagerInteractionLog::new();
    let mut broken = entry(InteractionTopic::PlayingTime, d(2026, 4, 1), d(2026, 4, 22));
    broken.outcome = InteractionOutcome::Negative;
    broken.promise_created = true;
    log.push(broken);
    log.push(entry(InteractionTopic::PlayingTime, d(2026, 4, 2), d(2026, 4, 23)));
    assert_eq!(log.broken_promise_count(d(2026, 4, 11), 10), 1);
    assert_eq!(log.broken_promise_count(d(2026, 4, 12), 10), 0);
    let last = log.last_for_topic(InteractionTopic::PlayingTime).unwrap();
    assert_eq!(last.date, d(2026, 4, 2));
    assert!(log.last_for_topic(InteractionTopic::Leadership).is_none());
    assert_eq!(default_cooldown_days(InteractionTopic::ContractStatus), 90);
}

#[test]
fn fluent_local_language_is_full_affinity() {
    let profile = LanguageProfile::from_languages(&[PlayerLanguage::native(Language::Spanish)]);
    assert_eq!(profile.affinity_for(Language::country_language_mask("es")), 100);
}

#[test]
fn conversational_local_language_is_partial() {
    let profile =
        LanguageProfile::from_languages(&[PlayerLanguage::learning(Language::German, 50)]);
    assert_eq!(profile.affinity_for(Language::country_language_mask("de")), 65);
}

#[test]
fn bridge_language_substitutes_partially() {
    let profile = LanguageProfile::from_languages(&[PlayerLanguage::native(Language::English)]);
    assert_eq!(profile.affinity_for(Language::country_language_mask("de")), 45);
}

#[test]
fn no_common_language_is_zero() {
    let profile = LanguageProfile::from_languages(&[PlayerLanguage::native(Language::Japanese)]);
    assert_eq!(profile.affinity_for(Language::country_language_mask("es")), 0);
}

#[test]
fn missing_data_reads_neutral() {
    let empty = LanguageProfile::default();
    assert_eq!(empty.affinity_for(Language::country_language_mask("es")), 100);
    let profile = LanguageProfile::from_languages(&[PlayerLanguage::native(Language::Japanese)]);
    assert_eq!(profile.affinity_for(0), 100);
}

#[test]
fn nationality_affinity_follows_country_languages() {
    assert_eq!(LanguageProfile::nationality_affinity("br", "pt"), 100);
    assert_eq!(LanguageProfile::nationality_affinity("gb", "de"), 45);
}

#[test]
fn multilingual_country_matches_any_official_language() {
    let profile = LanguageProfile::from_languages(&[PlayerLanguage::native(Language::French)]);
    assert_eq!(profile.affinity_for(Language::country_language_mask("be")), 100);
}

#[test]
fn languages_are_named_and_learned() {
    assert_eq!(Language::from_country_code("be"), vec![Language::Dutch, Language::French]);
    assert_eq!(Language::from_country_code("zz"), vec![Language::English]);
    assert_eq!(Language::Spanish.name(), "Spanish");
    assert_eq!(Language::Spanish.i18n_key(), "lang_spanish");
    assert_eq!(PlayerLanguage::native(Language::Spanish).level_key(), "lang_level_native");
    let factors = weekly_language_factors(20, 100, 0).unwrap();
    assert_eq!((factors.age, factors.star, factors.progress), (130, 100, 100));
    let factors = weekly_language_factors(33, 161, 85).unwrap();
    assert_eq!((factors.age, factors.star, factors.progress), (70, 40, 40));
    let by_age = |age: u8| weekly_language_factors(age, 100, 0).unwrap().age;
    assert_eq!((by_age(22), by_age(24), by_age(25)), (130, 115, 100));
    assert_eq!((by_age(30), by_age(31), by_age(32)), (100, 85, 85));
    assert!(weekly_language_factors(20, 100, 100).is_none());
}

#[test]
fn a_week_of_learning_carries_what_is_no_whole_point() {
    // 0.35 * 1.2 * 1.02 * 1.15 points.
    let first = weekly_language_progress(1200, 1200, 24, 100, 0, 0);
    assert_eq!((first.points, first.carried), (0, 492_660));
    let later = weekly_language_progress(1200, 1200, 24, 100, 0, 985_320);
    assert_eq!((later.points, later.carried), (1, 477_980));
    let last = weekly_language_progress(2000, 2000, 18, 100, 99, 999_999);
    assert_eq!((last.points, last.carried), (1, 0));
    let done = weekly_language_progress(1200, 1200, 24, 100, 100, 0);
    assert_eq!((done.points, done.carried), (0, 0));
}

#[test]
fn a_typical_player_learns_at_the_expected_pace() {
    let mut proficiency = 0u8;
    let mut carried = 0u32;
    let mut seen = Vec::new();
    for week in 1..=260 {
        let r = weekly_language_progress(1200, 1200, 24, 100, proficiency, carried);
        proficiency += r.points;
        carried = r.carried;
        if week == 78 || week == 156 || week == 228 {
            seen.push(proficiency);
        }
    }
    assert_eq!(seen, vec![38, 71, 90]);
}

#[test]
fn praise_lands_harder_with_high_rapport() {
    let neutral = PlayerRapport::new();
    let mut trusted = PlayerRapport::new();
    trusted.on_positive(42, d(2026, 4, 1), 60);
    let neutral_mult = neutral.talk_reception_multiplier(42, true);
    let trusted_mult = trusted.talk_reception_multiplier(42, true);
    assert!(trusted_mult > neutral_mult);
    assert_eq!(trusted_mult, 1240);
}

#[test]
fn criticism_hurts_more_with_low_rapport() {
    let neutral = PlayerRapport::new();
    let mut broken = PlayerRapport::new();
    broken.on_negative(42, d(2026, 4, 1), 30);
    assert_eq!(broken.score(42), -45);
    let neutral_mult = neutral.talk_reception_multiplier(42, false);
    let broken_mult = broken.talk_reception_multiplier(42, false);
    assert!(broken_mult > neutral_mult);
    assert_eq!(broken_mult, 1225);
}

#[test]
fn score_getter_returns_zero_when_absent() {
    let r = PlayerRapport::new();
    assert_eq!(r.score(99), 0);
}

#[test]
fn rapport_grows_by_contact_and_fades() {
    let mut r = PlayerRapport::new();
    for _ in 0..30 {
        r.accrue_training_day(7, d(2026, 4, 1), 10);
    }
    assert_eq!(r.score(7), 20);
    // 1 + 20 * 0.0015, and 0.02 for more than 200 days together.
    assert_eq!(r.training_multiplier(7), 10_500);
    assert_eq!(r.training_multiplier(8), 10_000);
}

#[test]
fn a_great_deed_brings_the_score_to_its_bound() {
    let mut r = PlayerRapport::new();
    r.on_positive(7, d(2026, 4, 1), 32_700);
    assert_eq!(r.score(7), 100);
    r.on_positive(7, d(2026, 4, 1), i16::MIN);
    assert_eq!(r.score(7), -50);
}

#[test]
fn every_language_has_a_bit_of_its_own() {
    let all = [Language::English, Language::Spanish, Language::Portuguese, Language::Icelandic];
    assert_eq!(Language::English.mask_bit(), 1);
    assert_eq!(Language::Spanish.mask_bit(), 2);
    for a in all {
        assert_eq!(a.mask_bit().count_ones(), 1);
        assert!(a.mask_bit() < 1 << 48);
        for b in all {
            assert_eq!(a.mask_bit() & b.mask_bit() == 0, a != b);
        }
    }
}

#[test]
fn strain_costs_twice_what_trust_brings() {
    let with_score = |score: i16, shared_days: u32| {
        let mut r = PlayerRapport::new();
        r.coaches.push(CoachRapport { coach_id: 7, score, last_touched: d(2026, 4, 1), shared_days });
        r.training_multiplier(7)
    };
    assert_eq!(with_score(100, 0), 11_500);
    assert_eq!(with_score(100, 201), 11_700);
    assert_eq!(with_score(-10, 0), 9_700);
    assert_eq!(with_score(-10, 201), 9_900);
    assert_eq!(with_score(-50, 0), 8_500);
    assert_eq!(with_score(-50, 201), 8_700);
    assert_eq!(with_score(-100, 201), 8_500);
}

#[test]
fn add_is_idempotent_single_instance_per_status() {
    let mut s = PlayerStatus::new();
    for _ in 0..11 {
        s.add(d(2026, 6, 1), PlayerStatusType::Lst);
    }
    assert_eq!(s.get().iter().filter(|&&x| x == PlayerStatusType::Lst).count(), 1);
}

#[test]
fn add_preserves_original_spell_start() {
    let mut s = PlayerStatus::new();
    s.add(d(2026, 6, 1), PlayerStatusType::Lst);
    s.add(d(2029, 1, 1), PlayerStatusType::Lst);
    assert_eq!(s.held_for_days(PlayerStatusType::Lst, d(2026, 6, 11)), Some(10));
    assert_eq!(s.held_for_days(PlayerStatusType::Loa, d(2026, 6, 11)), None);
}

#[test]
fn distinct_statuses_coexist_and_remove_clears_fully() {
    let mut s = PlayerStatus::new();
    s.add(d(2026, 6, 1), PlayerStatusType::Lst);
    s.add(d(2026, 6, 1), PlayerStatusType::Loa);
    s.add(d(2026, 6, 1), PlayerStatusType::Lst);
    assert!(s.has(PlayerStatusType::Lst));
    assert!(s.has(PlayerStatusType::Loa));
    s.remove(PlayerStatusType::Lst);
    assert!(!s.has(PlayerStatusType::Lst));
    assert!(s.has(PlayerStatusType::Loa));
    assert!(!s.is_on_international_duty());
    s.add(d(2026, 6, 1), PlayerStatusType::IntU21);
    assert!(s.is_on_international_duty());
}

#[test]
fn plans_follow_age_and_fee() {
    let day = d(2026, 1, 1);
    let plan = PlayerPlan::from_signing(24, 20_000_000, day);
    assert_eq!(plan.role, PlayerPlanRole::CompeteForStarting);
    assert_eq!((plan.min_games, plan.evaluation_months), (15, 12));
    assert_eq!(PlayerPlan::from_signing(26, 20_000_000, day).evaluation_months, 12);
    let young = PlayerPlan::from_signing(19, 8_000_000, day);
    assert_eq!(young.role, PlayerPlanRole::Development);
    assert_eq!((young.min_games, young.evaluation_months), (10, 24));
    let free = PlayerPlan::from_signing(24, 0, day);
    assert_eq!(free.role, PlayerPlanRole::DepthRotation);
    assert_eq!((free.min_games, free.evaluation_months), (5, 6));
    let depth = PlayerPlan::from_signing(31, 5_000_000, day);
    assert_eq!(depth.role, PlayerPlanRole::DepthRotation);
    assert_eq!((depth.min_games, depth.evaluation_months), (10, 6));
    let starter = PlayerPlan::from_signing(31, 30_000_000, day);
    assert_eq!(starter.role, PlayerPlanRole::ImmediateStarter);
    assert_eq!((starter.min_games, starter.evaluation_months), (10, 6));
    assert!(!plan.is_evaluated(d(2026, 12, 26), 15));
    assert!(plan.is_evaluated(d(2026, 12, 27), 15));
    assert!(!plan.is_evaluated(d(2026, 12, 27), 14));
    assert!(plan.is_expired(d(2026, 1, 1).checked_add_days(720).unwrap()));
    assert!(!plan.is_expired(d(2026, 1, 1).checked_add_days(719).unwrap()));
}

#[test]
fn decisions_are_kept_in_order() {
    let mut h = PlayerDecisionHistory::new();
    h.add_move(d(2026, 1, 1), "A", "B", Some("$1M"), "signed");
    h.add_move(d(2026, 1, 2), "B", "C", None, "released");
    h.add(d(2026, 1, 3), "x".to_string(), "y".to_string(), "z".to_string());
    assert_eq!(h.items.len(), 3);
    assert_eq!(h.items[0].movement, "A → B · $1M");
    assert_eq!(h.items[1].movement, "B → C");
    assert_eq!(h.items[2].decided_by, "z");
}

fn make_stats(played: u16, played_subs: u16, goals: u16, rating: f32) -> PlayerStatistics {
    let mut s = PlayerStatistics::new();
    s.played = played;
    s.played_subs = played_subs;
    s.goals = goals;
    s.rating.average = m(rating);
    s
}

#[test]
fn total_games_sums_played_and_subs() {
    let s = make_stats(20, 5, 3, 7.0);
    assert_eq!(s.total_games(), 25);
}

#[test]
fn total_games_zero_when_empty() {
    let s = PlayerStatistics::default();
    assert_eq!(s.total_games(), 0);
}

/// Takes a match into the ledger.
fn record(s: &mut PlayerStatistics, rating: f32, minutes: u16, is_starter: bool) -> bool {
    let measured = Measure::from_bits(rating.to_bits());
    let sums = match PlayerStatistics::match_rating_weight(measured, minutes, is_starter) {
        Some(w) => {
            let weight = w as f32 / 1800.0;
            let points = f32::from_bits(s.rating.points.to_bits()) + rating * weight;
            let total = f32::from_bits(s.rating.weight.to_bits()) + weight;
            RatingLedger { points: m(points), weight: m(total), average: m(points / total) }
        }
        None => s.rating,
    };
    s.record_match_rating(measured, minutes, is_starter, sums)
}

fn average(s: &PlayerStatistics) -> f32 {
    f32::from_bits(s.rating.average.to_bits())
}

#[test]
fn record_match_rating_starter_weights_higher_than_substitute() {
    let mut starter = PlayerStatistics::default();
    starter.played = 1;
    record(&mut starter, 7.5, 90, true);
    let mut cameo = PlayerStatistics::default();
    cameo.played_subs = 1;
    record(&mut cameo, 7.5, 10, false);
    let weight = |s: &PlayerStatistics| f32::from_bits(s.rating.weight.to_bits());
    assert!(weight(&starter) > weight(&cameo) + 0.3);
}

#[test]
fn short_cameo_rating_has_lower_average_weight_than_starter() {
    let mut starter = PlayerStatistics::default();
    for _ in 0..5 {
        starter.played += 1;
        record(&mut starter, 7.0, 90, true);
    }
    for _ in 0..5 {
        starter.played += 1;
        record(&mut starter, 6.0, 90, true);
    }
    let mut cameo = PlayerStatistics::default();
    for _ in 0..5 {
        cameo.played_subs += 1;
        record(&mut cameo, 7.0, 10, false);
    }
    for _ in 0..5 {
        cameo.played += 1;
        record(&mut cameo, 6.0, 90, true);
    }
    assert!(average(&cameo) < average(&starter));
    assert!((average(&starter) - 6.5).abs() < 0.05);
    assert!(average(&cameo) < 6.4);
}

#[test]
fn record_match_rating_rejects_zero_minutes() {
    let mut s = PlayerStatistics::default();
    assert!(!record(&mut s, 7.5, 0, false));
    assert_eq!(s.rating.points, m(0.0));
    assert_eq!(s.rating.weight, m(0.0));
    assert_eq!(s.rating.average, m(0.0));
}

#[test]
fn record_match_rating_rejects_zero_sentinel() {
    let mut s = PlayerStatistics::default();
    assert!(!record(&mut s, 0.0, 90, true));
    assert_eq!(s.rating.weight, m(0.0));
    assert_eq!(s.rating.average, m(0.0));
}

#[test]
fn record_match_rating_rejects_out_of_range_and_nan() {
    let mut s = PlayerStatistics::default();
    record(&mut s, 11.0, 90, true);
    record(&mut s, -1.0, 90, true);
    record(&mut s, f32::NAN, 90, true);
    record(&mut s, f32::INFINITY, 90, true);
    assert_eq!(s.rating.weight, m(0.0));
    assert_eq!(s.rating.average, m(0.0));
}

#[test]
fn appearances_weigh_by_minutes_with_a_floor() {
    assert_eq!(PlayerStatistics::match_rating_weight(Some(m(8.0)), 90, true), Some(1800));
    assert_eq!(PlayerStatistics::match_rating_weight(Some(m(8.0)), 120, true), Some(1800));
    assert_eq!(PlayerStatistics::match_rating_weight(Some(m(8.0)), 5, true), Some(1170));
    assert_eq!(PlayerStatistics::match_rating_weight(Some(m(8.0)), 5, false), Some(360));
    assert_eq!(PlayerStatistics::match_rating_weight(Some(m(8.0)), 45, false), Some(900));
}

/// The rating points and their weight, from the ledger or from the average.
fn sums_of(s: &PlayerStatistics) -> (f32, f32) {
    match s.rating_source() {
        RatingSource::Ledger => (
            f32::from_bits(s.rating.points.to_bits()),
            f32::from_bits(s.rating.weight.to_bits()),
        ),
        RatingSource::Average { weight } => {
            let weight = weight as f32 / 100.0;
            (average(s) * weight, weight)
        }
        RatingSource::Nothing => (0.0, 0.0),
    }
}

fn merge(a: &mut PlayerStatistics, b: &PlayerStatistics) {
    let (a_points, a_weight) = sums_of(a);
    let (b_points, b_weight) = sums_of(b);
    let (points, weight) = (a_points + b_points, a_weight + b_weight);
    let sums = RatingLedger { points: m(points), weight: m(weight), average: m(points / weight) };
    a.merge_from(b, sums, m(0.0), m(0.0));
}

#[test]
fn merge_from_with_weighted_ledgers_preserves_average() {
    let mut a = PlayerStatistics::default();
    a.played = 5;
    for _ in 0..5 {
        record(&mut a, 7.0, 90, true);
    }
    let mut b = PlayerStatistics::default();
    b.played = 5;
    for _ in 0..5 {
        record(&mut b, 6.0, 90, true);
    }
    merge(&mut a, &b);
    assert!((average(&a) - 6.5).abs() < 0.01);
    assert_eq!(a.played, 10);
}

#[test]
fn a_merge_does_not_depend_on_the_order() {
    let mut a = PlayerStatistics::default();
    a.played = 3;
    for rating in [7.3, 6.1, 8.2] {
        record(&mut a, rating, 77, true);
    }
    let b = make_stats(10, 4, 0, 6.7);
    let (mut ab, mut ba) = (a, b);
    merge(&mut ab, &b);
    merge(&mut ba, &a);
    assert_eq!(ab.rating, ba.rating);
    assert_eq!(ab.rating_source(), RatingSource::Ledger);
    assert_eq!(average(&ab), average(&ba));
    assert_eq!((ab.total_games(), ba.total_games()), (17, 17));
}

#[test]
fn merge_from_promotes_legacy_into_ledger() {
    let mut merged = make_stats(10, 0, 0, 7.0);
    let mut b = PlayerStatistics::default();
    b.played = 10;
    for _ in 0..10 {
        record(&mut b, 6.0, 90, true);
    }
    merge(&mut merged, &b);
    assert!((average(&merged) - 6.5).abs() < 0.05);
}

#[test]
fn ratings_come_from_the_ledger_or_the_average() {
    assert_eq!(PlayerStatistics::new().rating_source(), RatingSource::Nothing);
    assert_eq!(
        make_stats(10, 4, 0, 7.0).rating_source(),
        RatingSource::Average { weight: 1140 }
    );
    let mut s = PlayerStatistics::new();
    record(&mut s, 7.0, 90, true);
    assert_eq!(s.rating_source(), RatingSource::Ledger);
    assert_eq!(neutral_rating(PlayerFieldPositionGroup::Goalkeeper), 665);
    assert_eq!(neutral_rating(PlayerFieldPositionGroup::Midfielder), 660);
    assert_eq!(neutral_rating(PlayerFieldPositionGroup::Forward), 655);
}

#[test]
fn merging_adds_the_counters() {
    let mut a = make_stats(10, 4, 3, 7.0);
    let b = make_stats(5, 1, 2, 6.0);
    let sums = RatingLedger { points: m(1.0), weight: m(2.0), average: m(0.5) };
    a.merge_from(&b, sums, m(3.0), m(4.0));
    assert_eq!((a.played, a.played_subs, a.goals), (15, 5, 5));
    assert_eq!(a.rating, sums);
    assert_eq!((a.shots_on_target, a.tackling), (m(3.0), m(4.0)));
}

#[test]
fn cups_are_continental_or_domestic() {
    assert_eq!(
        PlayerStatCompetitionKind::from_cup_slug("copa-libertadores"),
        PlayerStatCompetitionKind::ContinentalCup
    );
    assert_eq!(
        PlayerStatCompetitionKind::from_cup_slug("champions-league"),
        PlayerStatCompetitionKind::ContinentalCup
    );
    assert_eq!(
        PlayerStatCompetitionKind::from_cup_slug("fa-cup"),
        PlayerStatCompetitionKind::DomesticCup
    );
    assert!(PlayerStatCompetitionKind::DomesticCup.counts_toward_career_history());
    assert!(!PlayerStatCompetitionKind::Friendly.counts_toward_career_history());
}
