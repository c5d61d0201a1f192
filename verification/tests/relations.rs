use club_core::date::Date;
use club_core::measure::Measure;
use club_core::relations::{
    ChangeType, ChemistryFactors, ConflictSeverity, Drift, GroupType, InfluenceLevel,
    MentorshipType, PlayerAxes, PlayerRelation, RelationStore, Relations, Relationship,
    RelationshipChange, StaffRelation, TeamChemistry, MAX_EVENTS,
};

/// The order key of a single-precision number.
fn m(x: f32) -> Measure {
    Measure::from_bits(x.to_bits()).unwrap()
}

fn f(x: Measure) -> f32 {
    f32::from_bits(x.to_bits())
}

fn d(year: i32, month: u32, day: u32) -> Date {
    Date::from_ymd_opt(year, month, day).unwrap()
}

/// The axes that a change leads to.
fn changed(r: &PlayerRelation, change: &RelationshipChange) -> PlayerAxes {
    let a = &r.axes;
    let magnitude = f(change.magnitude).abs() * (1.0 + f(a.momentum) * 0.5);
    let s = change.player_shift();
    let step = |x: Measure, halves: i32| m(f(x) + magnitude * (halves as f32 / 2.0));
    let direction = if change.is_positive { 1.0 } else { -1.0 };
    PlayerAxes {
        level: step(a.level, s.level),
        trust: step(a.trust, s.trust),
        respect: step(a.respect, s.respect),
        friendship: step(a.friendship, s.friendship),
        professional_respect: step(a.professional_respect, s.professional_respect),
        rivalry_intensity: step(a.rivalry_intensity, s.rivalry_intensity),
        interaction_frequency: m(f(a.interaction_frequency) + 0.1),
        momentum: m(f(a.momentum) + direction * 0.1),
    }
}

fn update(relations: &mut Relations, id: u32, change: RelationshipChange, date: Date) {
    let before = relations.players.get_or_neutral(id);
    let axes = changed(&before, &change);
    relations.update_player_relationship(id, change.change_type, axes, m(0.5), date);
}

fn toward(x: Measure, drift: Drift) -> Measure {
    let neutral = drift.neutral as f32;
    m(neutral + (f(x) - neutral) * (drift.retention as f32 / 1000.0))
}

/// The axes that a week without contact leads to.
fn decayed(r: &PlayerRelation) -> PlayerAxes {
    let a = &r.axes;
    let drift = r.weekly_drift();
    PlayerAxes {
        level: drift.level.map_or(a.level, |x| toward(a.level, x)),
        friendship: drift.friendship.map_or(a.friendship, |x| toward(a.friendship, x)),
        trust: toward(a.trust, drift.trust),
        respect: toward(a.respect, drift.respect),
        professional_respect: toward(a.professional_respect, drift.professional_respect),
        rivalry_intensity: toward(a.rivalry_intensity, drift.rivalry_intensity),
        interaction_frequency: toward(a.interaction_frequency, drift.interaction_frequency),
        momentum: toward(a.momentum, drift.momentum),
    }
}

fn no_factors() -> ChemistryFactors {
    ChemistryFactors {
        player_harmony: m(0.0),
        leadership_quality: m(0.0),
        coach_relationship: m(0.0),
        group_cohesion: m(0.0),
        conflict_level: m(0.0),
    }
}

fn week(relations: &mut Relations, date: Date) {
    for id in relations.player_relations_iter() {
        let axes = decayed(relations.get_player(id).unwrap());
        relations.decay_player(id, axes);
    }
    let faded = m(f(relations.inner_circle_cohesion()) * 0.98);
    relations.process_weekly_update(date, faded, no_factors(), m(50.0));
}

#[test]
fn test_player_relationship_updates() {
    let mut relations = Relations::new();
    let change = RelationshipChange::positive(ChangeType::TrainingBonding, m(0.5));
    update(&mut relations, 1, change, d(2024, 1, 1));
    let rel = relations.get_player(1).unwrap();
    assert!(f(rel.axes.friendship) > 30.0);
    assert_eq!(relations.history.events.len(), 1);
    assert_eq!(relations.history.events[0].old_value, m(0.0));
    assert_eq!(relations.history.events[0].new_value, m(0.5));
}

#[test]
fn test_coaching_receptiveness() {
    let mut relations = Relations::new();
    let change = RelationshipChange::positive(ChangeType::CoachingSuccess, m(0.8));
    let s = change.staff_shift();
    let before = relations.staffs.get_or_neutral(1);
    let step = |x: Measure, halves: i32| m(f(x) + 0.8 * (halves as f32 / 2.0));
    let axes = StaffRelation {
        level: step(before.level, s.level),
        authority_respect: step(before.authority_respect, s.authority_respect),
        trust_in_abilities: step(before.trust_in_abilities, s.trust_in_abilities),
        personal_bond: step(before.personal_bond, s.personal_bond),
        receptiveness: step(before.receptiveness, s.receptiveness),
        loyalty: step(before.loyalty, s.loyalty),
    };
    relations.update_staff_relationship(1, change.change_type, axes, d(2024, 1, 1));
    let r = relations.get_staff(1).unwrap();
    let receptiveness = 1.0
        + f(r.authority_respect) / 100.0 * 0.3
        + f(r.trust_in_abilities) / 100.0 * 0.2
        + f(r.receptiveness) / 100.0 * 0.3;
    assert!(receptiveness > 1.0);
    assert!(f(r.trust_in_abilities) > 50.0 && f(r.receptiveness) > 50.0);
}

/// Drives competition friction into the relation with player 2.
fn drive_competition_friction(relations: &mut Relations, count: u32, magnitude: f32) {
    for _ in 0..count {
        let change = RelationshipChange::negative(ChangeType::CompetitionRivalry, m(magnitude));
        update(relations, 2, change, d(2024, 1, 1));
    }
}

#[test]
fn single_competition_event_does_not_declare_rivalry() {
    let mut relations = Relations::new();
    drive_competition_friction(&mut relations, 1, 0.9);
    assert!(!relations.get_player(2).unwrap().is_open_rivalry());
}

#[test]
fn no_single_event_is_large_enough_for_a_rivalry() {
    let mut relations = Relations::new();
    drive_competition_friction(&mut relations, 1, 10.0);
    let rel = relations.get_player(2).unwrap();
    assert!(f(rel.axes.rivalry_intensity) >= 55.0 && f(rel.axes.level) <= -15.0);
    assert!(!rel.is_open_rivalry());
    drive_competition_friction(&mut relations, 1, 0.1);
    assert!(relations.get_player(2).unwrap().is_open_rivalry());
}

#[test]
fn sustained_competition_friction_declares_open_rivalry() {
    let mut relations = Relations::new();
    drive_competition_friction(&mut relations, 20, 1.0);
    let rel = relations.get_player(2).unwrap();
    assert!(rel.is_open_rivalry());
    assert!(f(rel.axes.level) <= -15.0);
}

#[test]
fn rivalry_dissolves_after_reconciliation() {
    let mut relations = Relations::new();
    drive_competition_friction(&mut relations, 20, 1.0);
    assert!(relations.get_player(2).unwrap().is_open_rivalry());
    for _ in 0..12 {
        let change = RelationshipChange::positive(ChangeType::ConflictResolution, m(1.0));
        update(&mut relations, 2, change, d(2024, 3, 1));
    }
    assert!(!relations.get_player(2).unwrap().is_open_rivalry());
}

#[test]
fn dormant_rivalry_cools_off_without_fuel() {
    let mut relations = Relations::new();
    drive_competition_friction(&mut relations, 20, 1.0);
    let mut date = d(2024, 3, 1);
    for _ in 0..2 {
        week(&mut relations, date);
        date = date.checked_add_days(7).unwrap();
    }
    assert!(relations.get_player(2).unwrap().is_open_rivalry());
    for _ in 0..60 {
        week(&mut relations, date);
        date = date.checked_add_days(7).unwrap();
    }
    assert!(!relations.get_player(2).unwrap().is_open_rivalry());
}

fn weeks_to_converge(store: &mut RelationStore<PlayerRelation>, weeks: u32) {
    for _ in 0..weeks {
        for id in store.ids() {
            let mut rel = *store.get(id).unwrap();
            rel.apply_decay(decayed(&rel));
            store.set(id, rel);
        }
    }
}

#[test]
fn player_trust_decays_toward_neutral_not_zero() {
    let mut store: RelationStore<PlayerRelation> = RelationStore::new();
    let mut rel = store.get_or_neutral(1);
    rel.axes.trust = m(80.0);
    rel.axes.respect = m(80.0);
    rel.axes.professional_respect = m(80.0);
    rel.axes.interaction_frequency = m(0.0);
    store.set(1, rel);
    weeks_to_converge(&mut store, 52);
    let one_year = *store.get(1).unwrap();
    let trust = f(one_year.axes.trust);
    assert!((trust - 50.0).abs() < (trust - 0.0).abs());

    weeks_to_converge(&mut store, 2000);
    let rel = store.get(1).unwrap();
    assert!((f(rel.axes.trust) - 50.0).abs() < 1.0);
    assert!((f(rel.axes.respect) - 50.0).abs() < 1.0);
    assert!((f(rel.axes.professional_respect) - 50.0).abs() < 1.0);
}

#[test]
fn player_trust_decay_works_from_below_neutral_too() {
    let mut store: RelationStore<PlayerRelation> = RelationStore::new();
    let mut rel = store.get_or_neutral(1);
    rel.axes.trust = m(20.0);
    rel.axes.respect = m(20.0);
    rel.axes.interaction_frequency = m(0.0);
    store.set(1, rel);
    weeks_to_converge(&mut store, 2000);
    let rel = store.get(1).unwrap();
    assert!((f(rel.axes.trust) - 50.0).abs() < 1.0);
    assert!((f(rel.axes.respect) - 50.0).abs() < 1.0);
}

#[test]
fn staff_relation_decays_toward_neutral_axes() {
    let mut store: RelationStore<StaffRelation> = RelationStore::new();
    let mut rel = store.get_or_neutral(1);
    rel.authority_respect = m(90.0);
    rel.trust_in_abilities = m(90.0);
    rel.personal_bond = m(80.0);
    rel.receptiveness = m(90.0);
    rel.loyalty = m(90.0);
    rel.level = m(50.0);
    store.set(1, rel);
    for _ in 0..2000 {
        let r = *store.get(1).unwrap();
        let drift = StaffRelation::weekly_drift();
        store.set(
            1,
            StaffRelation {
                level: toward(r.level, drift[0]),
                authority_respect: toward(r.authority_respect, drift[1]),
                trust_in_abilities: toward(r.trust_in_abilities, drift[2]),
                personal_bond: toward(r.personal_bond, drift[3]),
                receptiveness: toward(r.receptiveness, drift[4]),
                loyalty: toward(r.loyalty, drift[5]),
            },
        );
    }
    let rel = store.get(1).unwrap();
    assert!((f(rel.authority_respect) - 50.0).abs() < 1.5);
    assert!((f(rel.trust_in_abilities) - 50.0).abs() < 1.5);
    assert!((f(rel.personal_bond) - 30.0).abs() < 1.5);
    assert!((f(rel.loyalty) - 30.0).abs() < 1.5);
    assert!(f(rel.level).abs() < 1.0);
}

#[test]
fn the_inner_circle_has_hysteresis() {
    let mut relations = Relations::new();
    let mut at = |level: f32| {
        let mut axes = relations.players.get_or_neutral(3).axes;
        axes.level = m(level);
        relations.update_player_relationship(
            3,
            ChangeType::NaturalProgression,
            axes,
            m(0.8),
            d(2024, 1, 1),
        );
        (relations.get_groups(3), f(relations.inner_circle_cohesion()))
    };
    assert_eq!(at(59.0), (vec![], 0.0));
    assert_eq!(at(60.0), (vec![1], 0.8));
    assert_eq!(at(40.0), (vec![1], 0.8));
    assert_eq!(at(39.0), (vec![], 0.0));
    assert!(relations.get_groups(4).is_empty());
    assert!(relations.groups.groups.values().all(|g| g.group_type == GroupType::Social));
}

#[test]
fn history_keeps_the_newest_hundred_of_a_year() {
    let mut relations = Relations::new();
    for i in 0..(MAX_EVENTS as u32 + 10) {
        let change = RelationshipChange::from_increment(ChangeType::TeamSuccess, m(0.1));
        update(&mut relations, i, change, d(2024, 1, 1));
    }
    assert_eq!(relations.history.events.len(), MAX_EVENTS);
    assert_eq!(relations.history.events[0].subject_id, 10);
    assert_eq!(relations.player_relations_iter().len(), MAX_EVENTS + 10);
    assert!(relations.staff_relations_iter().is_empty());
    relations.process_weekly_update(d(2024, 12, 30), m(0.0), no_factors(), m(50.0));
    assert_eq!(relations.history.events.len(), MAX_EVENTS);
    relations.process_weekly_update(d(2024, 12, 31), m(0.0), no_factors(), m(50.0));
    assert!(relations.history.events.is_empty());
}

#[test]
fn favourites_and_conflicts_stand_out() {
    let mut relations = Relations::new();
    for (id, level, trust) in [(1, 70.0, 70.0), (2, 70.0, 69.0), (3, -50.0, 50.0), (4, 0.0, 20.0)] {
        let mut axes = relations.players.get_or_neutral(id).axes;
        axes.level = m(level);
        axes.trust = m(trust);
        relations.update_player_relationship(
            id,
            ChangeType::NaturalProgression,
            axes,
            m(0.5),
            d(2024, 1, 1),
        );
    }
    assert_eq!(relations.get_favorite_players(), vec![1]);
    assert!(relations.is_favorite_player(1) && !relations.is_favorite_player(2));
    let mut disliked = relations.get_disliked_players();
    disliked.sort();
    assert_eq!(disliked, vec![3, 4]);
    let mut conflicts: Vec<(u32, ConflictSeverity)> = relations
        .get_potential_conflicts(9)
        .iter()
        .map(|c| {
            assert_eq!(c.party_a, 9);
            (c.party_b, c.severity)
        })
        .collect();
    conflicts.sort_by_key(|c| c.0);
    assert_eq!(conflicts, vec![(3, ConflictSeverity::Serious), (4, ConflictSeverity::Minor)]);
    // Fifteen for the serious one, eight for the dislike.
    assert_eq!(relations.players.conflict_level(), 23);
    assert_eq!(
        ConflictSeverity::from_relationship_level(m(-75.0)),
        ConflictSeverity::Critical
    );
}

#[test]
fn a_mentor_gains_standing() {
    let mut relations = Relations::new();
    let before = PlayerRelation::new_neutral();
    let influence = f(before.influence)
        + Relations::mentorship_influence(MentorshipType::Mentor) as f32;
    relations.set_mentorship(5, MentorshipType::Mentor, m(101.0), m(influence));
    let rel = relations.get_player(5).unwrap();
    assert_eq!(rel.mentorship, Some(MentorshipType::Mentor));
    assert_eq!(f(rel.influence), 8.0);
    assert_eq!(f(rel.axes.professional_respect), 100.0);
    relations.clear_mentorship(5);
    assert_eq!(relations.get_player(5).unwrap().mentorship, None);
    assert_eq!(relations.get_influence_level(6), InfluenceLevel::from_value(m(0.0)));
}

#[test]
fn a_plain_step_leaves_the_history_alone() {
    let mut relations = Relations::new();
    relations.update_simple(1, m(150.0), m(0.1), m(0.1));
    assert_eq!(f(relations.get_player(1).unwrap().axes.level), 100.0);
    assert!(relations.history.events.is_empty());
    assert!(Relations::is_significant(m(0.11)));
    assert!(!Relations::is_significant(m(-0.1)));
}

#[test]
fn signings_unsettle_a_team() {
    let mut relations = Relations::new();
    assert_eq!(f(relations.get_team_chemistry()), 50.0);
    relations.recalculate_chemistry_with_context(no_factors(), m(61.0), 4);
    assert_eq!(f(relations.get_team_chemistry()), 61.0);
    assert_eq!(relations.chemistry.turnover_penalty, 10);
    assert_eq!(relations.get_chemistry_factors().conflict_level, m(0.0));
    assert_eq!(TeamChemistry::turnover_penalty_for(7), 18);
    assert_eq!(TeamChemistry::leadership_weights(1), (12, 5));
}
