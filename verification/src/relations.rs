//! How a person stands with the people around him: teammates, staff, and the
//! circle of those he is close to.
//!
//! The axes of a relation are single-precision numbers that the caller moves
//! by the weights given here; this module keeps them in range, decides when a
//! feud becomes an open rivalry, and keeps the records.

use crate::date::Date;
use crate::fxmap;
use crate::measure::Measure;
use rustc_hash::{FxHashMap, FxHashSet};
use std::collections::VecDeque;
#[allow(unused_imports)]
use vstd::prelude::*;

verus! {

/// What moves a relation.
#[derive(Clone, Copy, Debug, PartialEq, Eq, Structural)]
pub enum ChangeType {
    MatchCooperation,
    TrainingBonding,
    ConflictResolution,
    PersonalSupport,
    CoachingSuccess,
    TeamSuccess,
    MentorshipBond,
    CompetitionRivalry,
    TrainingFriction,
    PersonalConflict,
    TacticalDisagreement,
    DisciplinaryAction,
    TeamFailure,
    ReputationAdmiration,
    ReputationTension,
    NaturalProgression,
}

/// A change of a relation.
#[derive(Clone, Copy, Debug, PartialEq, Eq, Structural)]
pub struct RelationshipChange {
    pub change_type: ChangeType,
    /// Never negative.
    pub magnitude: Measure,
    pub is_positive: bool,
}

impl RelationshipChange {
    /// A change for the better.
    pub fn positive(change_type: ChangeType, magnitude: Measure) -> (r: Self)
        requires
            magnitude.wf(),
        ensures
            r.change_type == change_type,
            r.is_positive,
            r.magnitude.wf(),
            r.magnitude.units() == magnitude.abs_units(),
    {
        RelationshipChange { change_type, magnitude: magnitude.abs(), is_positive: true }
    }

    /// A change for the worse.
    pub fn negative(change_type: ChangeType, magnitude: Measure) -> (r: Self)
        requires
            magnitude.wf(),
        ensures
            r.change_type == change_type,
            !r.is_positive,
            r.magnitude.wf(),
            r.magnitude.units() == magnitude.abs_units(),
    {
        RelationshipChange { change_type, magnitude: magnitude.abs(), is_positive: false }
    }

    /// The change that a signed step stands for.
    pub fn from_increment(change_type: ChangeType, increment: Measure) -> (r: Self)
        requires
            increment.wf(),
        ensures
            r.change_type == change_type,
            r.is_positive == increment.ge(0),
            r.magnitude.units() == increment.abs_units(),
    {
        if increment.is_at_least(0) {
            RelationshipChange::positive(change_type, increment)
        } else {
            RelationshipChange::negative(change_type, increment)
        }
    }
}

/// What a change does to each axis of a relation with a teammate, in halves of its magnitude.
#[derive(Clone, Copy, Debug, PartialEq, Eq, Structural)]
pub struct PlayerShift {
    pub level: i32,
    pub trust: i32,
    pub respect: i32,
    pub friendship: i32,
    pub professional_respect: i32,
    pub rivalry_intensity: i32,
}

impl PlayerShift {
    pub open spec fn of_spec(
        level: int,
        trust: int,
        respect: int,
        friendship: int,
        professional_respect: int,
        rivalry_intensity: int,
    ) -> PlayerShift {
        PlayerShift {
            level: level as i32,
            trust: trust as i32,
            respect: respect as i32,
            friendship: friendship as i32,
            professional_respect: professional_respect as i32,
            rivalry_intensity: rivalry_intensity as i32,
        }
    }

    fn of(
        level: i32,
        trust: i32,
        respect: i32,
        friendship: i32,
        professional_respect: i32,
        rivalry_intensity: i32,
    ) -> (r: PlayerShift)
        ensures
            r == PlayerShift::of_spec(
                level as int,
                trust as int,
                respect as int,
                friendship as int,
                professional_respect as int,
                rivalry_intensity as int,
            ),
    {
        PlayerShift { level, trust, respect, friendship, professional_respect, rivalry_intensity }
    }
}

/// What a change does to a relation with a teammate.
pub open spec fn player_shift(change_type: ChangeType, is_positive: bool) -> PlayerShift {
    match change_type {
        ChangeType::MatchCooperation => PlayerShift::of_spec(4, 3, 0, 0, 6, -6),
        ChangeType::TrainingBonding => PlayerShift::of_spec(2, 0, 0, 4, 0, -4),
        ChangeType::ConflictResolution => PlayerShift::of_spec(4, 6, 4, 0, 0, -20),
        ChangeType::PersonalSupport => PlayerShift::of_spec(4, 6, 0, 8, 0, -12),
        ChangeType::CompetitionRivalry => PlayerShift::of_spec(-4, 0, 0, 0, -2, 16),
        ChangeType::TrainingFriction => PlayerShift::of_spec(-2, -1, 0, 0, 0, 0),
        ChangeType::PersonalConflict => PlayerShift::of_spec(-6, -4, 0, -6, 0, 0),
        ChangeType::ReputationAdmiration => PlayerShift::of_spec(3, 0, 6, 0, 4, 0),
        ChangeType::ReputationTension => PlayerShift::of_spec(-3, 0, -2, 0, -1, 0),
        _ => PlayerShift::of_spec(
            if is_positive {
                2
            } else {
                -2
            },
            0,
            0,
            0,
            0,
            0,
        ),
    }
}

/// What a change does to each axis of a relation with a member of staff, in halves of its
/// magnitude.
#[derive(Clone, Copy, Debug, PartialEq, Eq, Structural)]
pub struct StaffShift {
    pub level: i32,
    pub authority_respect: i32,
    pub trust_in_abilities: i32,
    pub personal_bond: i32,
    pub receptiveness: i32,
    pub loyalty: i32,
}

impl StaffShift {
    pub open spec fn of_spec(
        level: int,
        authority_respect: int,
        trust_in_abilities: int,
        personal_bond: int,
        receptiveness: int,
        loyalty: int,
    ) -> StaffShift {
        StaffShift {
            level: level as i32,
            authority_respect: authority_respect as i32,
            trust_in_abilities: trust_in_abilities as i32,
            personal_bond: personal_bond as i32,
            receptiveness: receptiveness as i32,
            loyalty: loyalty as i32,
        }
    }

    fn of(
        level: i32,
        authority_respect: i32,
        trust_in_abilities: i32,
        personal_bond: i32,
        receptiveness: i32,
        loyalty: i32,
    ) -> (r: StaffShift)
        ensures
            r == StaffShift::of_spec(
                level as int,
                authority_respect as int,
                trust_in_abilities as int,
                personal_bond as int,
                receptiveness as int,
                loyalty as int,
            ),
    {
        StaffShift {
            level,
            authority_respect,
            trust_in_abilities,
            personal_bond,
            receptiveness,
            loyalty,
        }
    }
}

/// What a change does to a relation with a member of staff.
pub open spec fn staff_shift(change_type: ChangeType, is_positive: bool) -> StaffShift {
    match change_type {
        ChangeType::CoachingSuccess => StaffShift::of_spec(4, 0, 6, 0, 4, 0),
        ChangeType::TacticalDisagreement => StaffShift::of_spec(-2, -4, 0, 0, -6, 0),
        ChangeType::PersonalSupport => StaffShift::of_spec(4, 0, 0, 8, 0, 6),
        ChangeType::DisciplinaryAction => StaffShift::of_spec(-2, 2, 0, -4, 0, 0),
        _ => StaffShift::of_spec(
            if is_positive {
                2
            } else {
                -2
            },
            0,
            0,
            0,
            0,
            0,
        ),
    }
}

impl RelationshipChange {
    /// What the change does to a relation with a teammate.
    pub fn player_shift(&self) -> (r: PlayerShift)
        ensures
            r == player_shift(self.change_type, self.is_positive),
    {
        match self.change_type {
            ChangeType::MatchCooperation => PlayerShift::of(4, 3, 0, 0, 6, -6),
            ChangeType::TrainingBonding => PlayerShift::of(2, 0, 0, 4, 0, -4),
            ChangeType::ConflictResolution => PlayerShift::of(4, 6, 4, 0, 0, -20),
            ChangeType::PersonalSupport => PlayerShift::of(4, 6, 0, 8, 0, -12),
            ChangeType::CompetitionRivalry => PlayerShift::of(-4, 0, 0, 0, -2, 16),
            ChangeType::TrainingFriction => PlayerShift::of(-2, -1, 0, 0, 0, 0),
            ChangeType::PersonalConflict => PlayerShift::of(-6, -4, 0, -6, 0, 0),
            ChangeType::ReputationAdmiration => PlayerShift::of(3, 0, 6, 0, 4, 0),
            ChangeType::ReputationTension => PlayerShift::of(-3, 0, -2, 0, -1, 0),
            _ => PlayerShift::of(
                if self.is_positive {
                    2
                } else {
                    -2
                },
                0,
                0,
                0,
                0,
                0,
            ),
        }
    }

    /// What the change does to a relation with a member of staff.
    pub fn staff_shift(&self) -> (r: StaffShift)
        ensures
            r == staff_shift(self.change_type, self.is_positive),
    {
        match self.change_type {
            ChangeType::CoachingSuccess => StaffShift::of(4, 0, 6, 0, 4, 0),
            ChangeType::TacticalDisagreement => StaffShift::of(-2, -4, 0, 0, -6, 0),
            ChangeType::PersonalSupport => StaffShift::of(4, 0, 0, 8, 0, 6),
            ChangeType::DisciplinaryAction => StaffShift::of(-2, 2, 0, -4, 0, 0),
            _ => StaffShift::of(
                if self.is_positive {
                    2
                } else {
                    -2
                },
                0,
                0,
                0,
                0,
                0,
            ),
        }
    }
}

/// A mentor or a mentee.
#[derive(Clone, Copy, Debug, PartialEq, Eq, Structural)]
pub enum MentorshipType {
    Mentor,
    Mentee,
}

/// The axes of a relation with a teammate.
#[derive(Clone, Copy, Debug, PartialEq, Eq, Structural)]
pub struct PlayerAxes {
    pub level: Measure,
    pub trust: Measure,
    pub respect: Measure,
    pub friendship: Measure,
    pub professional_respect: Measure,
    pub rivalry_intensity: Measure,
    pub interaction_frequency: Measure,
    pub momentum: Measure,
}

/// A relation with a teammate.
#[derive(Clone, Copy, Debug, PartialEq, Eq, Structural)]
pub struct PlayerRelation {
    pub axes: PlayerAxes,
    /// The standing the teammate has.
    pub influence: Measure,
    pub mentorship: Option<MentorshipType>,
    /// Whether the feud is an open rivalry.
    pub rivalry_active: bool,
}

/// A relation with a member of staff.
#[derive(Clone, Copy, Debug, PartialEq, Eq, Structural)]
pub struct StaffRelation {
    pub level: Measure,
    pub authority_respect: Measure,
    pub trust_in_abilities: Measure,
    pub personal_bond: Measure,
    pub receptiveness: Measure,
    pub loyalty: Measure,
}

/// The key of the number 30.
pub const THIRTY: i32 = 0x41F0_0000;

/// The key of the number 50.
pub const FIFTY: i32 = 0x4248_0000;

/// Whether an open rivalry lasts: until the intensity falls below 30 or the two get on well.
pub open spec fn rivalry_lasts(intensity: Measure, level: Measure) -> bool {
    intensity.ge(30) && !level.ge(15)
}

/// The state of a rivalry after an event moved the axes. A feud goes public at an intensity of
/// 55 between people who dislike each other. It takes friction that stood before the event, so
/// a single event never opens a rivalry, however large it is.
pub open spec fn rivalry_after(
    active: bool,
    friction_before: Measure,
    intensity: Measure,
    level: Measure,
) -> bool {
    &&& !friction_before.le(0)
    &&& if active {
        rivalry_lasts(intensity, level)
    } else {
        intensity.ge(55) && level.le(-15)
    }
}

/// How fast a dormant axis drifts to its neutral value: the share of the distance that stays
/// after a week, in thousandths, and the neutral value.
#[derive(Clone, Copy, Debug, PartialEq, Eq, Structural)]
pub struct Drift {
    pub retention: u32,
    pub neutral: u32,
}

/// The weekly drift of a relation with a teammate. Level and friendship only fade without
/// contact.
#[derive(Clone, Copy, Debug, PartialEq, Eq, Structural)]
pub struct PlayerDrift {
    pub level: Option<Drift>,
    pub friendship: Option<Drift>,
    pub trust: Drift,
    pub respect: Drift,
    pub professional_respect: Drift,
    pub rivalry_intensity: Drift,
    pub interaction_frequency: Drift,
    pub momentum: Drift,
}

impl PlayerRelation {
    /// Whether the two have little contact: an interaction frequency below three tenths, as a
    /// single-precision number.
    pub open spec fn dormant(self) -> bool {
        self.axes.interaction_frequency.lt_hundredths(30)
    }

    /// Whether the axes are in range and the rivalry state fits them.
    pub open spec fn settled(self) -> bool {
        &&& self.axes.level.ge(-100) && self.axes.level.le(100)
        &&& self.axes.trust.ge(0) && self.axes.trust.le(100)
        &&& self.axes.respect.ge(0) && self.axes.respect.le(100)
        &&& self.axes.friendship.ge(0) && self.axes.friendship.le(100)
        &&& self.axes.professional_respect.ge(0) && self.axes.professional_respect.le(100)
        &&& self.axes.rivalry_intensity.ge(0) && self.axes.rivalry_intensity.le(100)
        &&& self.rivalry_active ==> rivalry_lasts(self.axes.rivalry_intensity, self.axes.level)
    }

    /// Whether the feud with the teammate is an open rivalry.
    pub fn is_open_rivalry(&self) -> (r: bool)
        ensures
            r == self.rivalry_active,
    {
        self.rivalry_active
    }

    /// Brings the state of the rivalry in line with the axes after an event.
    fn refresh_rivalry_state(&mut self, friction_before: Measure)
        ensures
            *final(self) == (PlayerRelation {
                rivalry_active: rivalry_after(
                    old(self).rivalry_active,
                    friction_before,
                    old(self).axes.rivalry_intensity,
                    old(self).axes.level,
                ),
                ..*old(self)
            }),
    {
        let intensity = self.axes.rivalry_intensity;
        let level = self.axes.level;
        self.rivalry_active = !friction_before.is_at_most(0) && if self.rivalry_active {
            intensity.is_at_least(30) && !level.is_at_least(15)
        } else {
            intensity.is_at_least(55) && level.is_at_most(-15)
        };
    }

    /// The weekly drift of the relation.
    pub open spec fn drift(self) -> PlayerDrift {
        PlayerDrift {
            level: if self.dormant() {
                Some(Drift { retention: 980, neutral: 0 })
            } else {
                None
            },
            friendship: if self.dormant() {
                Some(Drift { retention: 975, neutral: 20 })
            } else {
                None
            },
            trust: Drift { retention: 992, neutral: 50 },
            respect: Drift { retention: 994, neutral: 50 },
            professional_respect: Drift { retention: 996, neutral: 50 },
            rivalry_intensity: Drift {
                retention: if self.dormant() {
                    950
                } else {
                    975
                },
                neutral: 0,
            },
            interaction_frequency: Drift { retention: 900, neutral: 0 },
            momentum: Drift { retention: 950, neutral: 0 },
        }
    }

    /// The weekly drift of the relation.
    pub fn weekly_drift(&self) -> (r: PlayerDrift)
        ensures
            r == self.drift(),
    {
        let dormant = self.axes.interaction_frequency.is_below_hundredths(30);
        PlayerDrift {
            level: if dormant {
                Some(Drift { retention: 980, neutral: 0 })
            } else {
                None
            },
            friendship: if dormant {
                Some(Drift { retention: 975, neutral: 20 })
            } else {
                None
            },
            trust: Drift { retention: 992, neutral: 50 },
            respect: Drift { retention: 994, neutral: 50 },
            professional_respect: Drift { retention: 996, neutral: 50 },
            rivalry_intensity: Drift {
                retention: if dormant {
                    950
                } else {
                    975
                },
                neutral: 0,
            },
            interaction_frequency: Drift { retention: 900, neutral: 0 },
            momentum: Drift { retention: 950, neutral: 0 },
        }
    }

    /// Takes over the axes that a week's drift led to. A quiet week can end a rivalry, but it
    /// opens none.
    pub fn apply_decay(&mut self, axes: PlayerAxes)
        ensures
            final(self).axes == axes,
            final(self).rivalry_active == (old(self).rivalry_active && rivalry_lasts(
                axes.rivalry_intensity,
                axes.level,
            )),
            final(self).influence == old(self).influence,
            final(self).mentorship == old(self).mentorship,
    {
        self.axes = axes;
        self.rivalry_active = self.rivalry_active && axes.rivalry_intensity.is_at_least(30)
            && !axes.level.is_at_least(15);
    }

    /// Takes over the axes that a change led to, kept in their ranges.
    pub fn apply_change(&mut self, axes: PlayerAxes)
        ensures
            in_range_of(final(self).axes, axes),
            final(self).rivalry_active == rivalry_after(
                old(self).rivalry_active,
                old(self).axes.rivalry_intensity,
                final(self).axes.rivalry_intensity,
                final(self).axes.level,
            ),
            old(self).axes.rivalry_intensity.le(0) ==> !final(self).rivalry_active,
            final(self).influence == old(self).influence,
            final(self).mentorship == old(self).mentorship,
            final(self).settled(),
    {
        let friction_before = self.axes.rivalry_intensity;
        self.axes = PlayerAxes {
            level: axes.level.clamped(-100, 100),
            trust: axes.trust.clamped(0, 100),
            respect: axes.respect.clamped(0, 100),
            friendship: axes.friendship.clamped(0, 100),
            professional_respect: axes.professional_respect.clamped(0, 100),
            rivalry_intensity: axes.rivalry_intensity.clamped(0, 100),
            interaction_frequency: if axes.interaction_frequency.is_at_most(1) {
                axes.interaction_frequency
            } else {
                Measure::whole(1)
            },
            momentum: axes.momentum.clamped(-1, 1),
        };
        self.refresh_rivalry_state(friction_before);
        proof {
            let x = self.axes.rivalry_intensity;
            let y = self.axes.level;
            lemma_thresholds(x);
            lemma_thresholds(y);
        }
    }
}

/// Whether `kept` is `raw` with every axis kept in its range.
pub open spec fn in_range_of(kept: PlayerAxes, raw: PlayerAxes) -> bool {
    &&& kept.level.units() == raw.level.clamped_units(-100, 100)
    &&& kept.trust.units() == raw.trust.clamped_units(0, 100)
    &&& kept.respect.units() == raw.respect.clamped_units(0, 100)
    &&& kept.friendship.units() == raw.friendship.clamped_units(0, 100)
    &&& kept.professional_respect.units() == raw.professional_respect.clamped_units(0, 100)
    &&& kept.rivalry_intensity.units() == raw.rivalry_intensity.clamped_units(0, 100)
    &&& kept.momentum.units() == raw.momentum.clamped_units(-1, 1)
    &&& kept.interaction_frequency.units() == if raw.interaction_frequency.le(1) {
        raw.interaction_frequency.units()
    } else {
        crate::measure::one()
    }
}

proof fn lemma_thresholds(m: Measure)
    ensures
        m.ge(55) ==> m.ge(30),
        m.le(-15) ==> !m.ge(15),
{
    crate::measure::lemma_whole_order(30, 55);
    crate::measure::lemma_whole_order(15, -15);
}

/// What relations of both kinds have in common.
pub trait Relationship: Sized + Copy {
    /// The relation of two people who do not know each other.
    spec fn neutral() -> Self;

    /// Whether the other person is a favourite.
    spec fn favorite(self) -> bool;

    /// Whether the other person is disliked.
    spec fn disliked(self) -> bool;

    /// What the relation adds to the conflicts of a dressing room.
    spec fn conflict(self) -> int;

    fn new_neutral() -> (r: Self)
        ensures
            r == Self::neutral(),
    ;

    fn is_favorite(&self) -> (r: bool)
        ensures
            r == self.favorite(),
    ;

    fn is_disliked(&self) -> (r: bool)
        ensures
            r == self.disliked(),
    ;

    fn conflict_contribution(&self) -> (r: u32)
        ensures
            r == self.conflict(),
            r <= 31,
    ;
}

impl Relationship for PlayerRelation {
    open spec fn neutral() -> Self {
        PlayerRelation {
            axes: PlayerAxes {
                level: Measure { key: 0 },
                trust: Measure { key: FIFTY },
                respect: Measure { key: FIFTY },
                friendship: Measure { key: THIRTY },
                professional_respect: Measure { key: FIFTY },
                rivalry_intensity: Measure { key: 0 },
                interaction_frequency: Measure { key: 0 },
                momentum: Measure { key: 0 },
            },
            influence: Measure { key: 0 },
            mentorship: None,
            rivalry_active: false,
        }
    }

    open spec fn favorite(self) -> bool {
        self.axes.level.ge(70) && self.axes.trust.ge(70)
    }

    open spec fn disliked(self) -> bool {
        self.axes.level.le(-50) || self.axes.trust.le(20)
    }

    open spec fn conflict(self) -> int {
        (if self.axes.level.le(-75) {
            25int
        } else if self.axes.level.le(-50) {
            15
        } else if self.disliked() {
            8
        } else {
            0
        }) + (if self.rivalry_active {
            6int
        } else {
            0
        })
    }

    fn new_neutral() -> (r: Self) {
        PlayerRelation {
            axes: PlayerAxes {
                level: Measure { key: 0 },
                trust: Measure { key: FIFTY },
                respect: Measure { key: FIFTY },
                friendship: Measure { key: THIRTY },
                professional_respect: Measure { key: FIFTY },
                rivalry_intensity: Measure { key: 0 },
                interaction_frequency: Measure { key: 0 },
                momentum: Measure { key: 0 },
            },
            influence: Measure { key: 0 },
            mentorship: None,
            rivalry_active: false,
        }
    }

    fn is_favorite(&self) -> (r: bool) {
        self.axes.level.is_at_least(70) && self.axes.trust.is_at_least(70)
    }

    fn is_disliked(&self) -> (r: bool) {
        self.axes.level.is_at_most(-50) || self.axes.trust.is_at_most(20)
    }

    fn conflict_contribution(&self) -> (r: u32) {
        let mut points: u32 = 0;
        if self.axes.level.is_at_most(-75) {
            points = points + 25;
        } else if self.axes.level.is_at_most(-50) {
            points = points + 15;
        } else if self.is_disliked() {
            points = points + 8;
        }
        if self.rivalry_active {
            points = points + 6;
        }
        points
    }
}

impl StaffRelation {
    /// Takes over the axes that a change led to, kept in their ranges.
    pub fn apply_change(&mut self, axes: StaffRelation)
        ensures
            final(self).level.units() == axes.level.clamped_units(-100, 100),
            final(self).authority_respect.units() == axes.authority_respect.clamped_units(0, 100),
            final(self).trust_in_abilities.units() == axes.trust_in_abilities.clamped_units(0, 100),
            final(self).personal_bond.units() == axes.personal_bond.clamped_units(0, 100),
            final(self).receptiveness.units() == axes.receptiveness.clamped_units(0, 100),
            final(self).loyalty.units() == axes.loyalty.clamped_units(0, 100),
    {
        self.level = axes.level.clamped(-100, 100);
        self.authority_respect = axes.authority_respect.clamped(0, 100);
        self.trust_in_abilities = axes.trust_in_abilities.clamped(0, 100);
        self.personal_bond = axes.personal_bond.clamped(0, 100);
        self.receptiveness = axes.receptiveness.clamped(0, 100);
        self.loyalty = axes.loyalty.clamped(0, 100);
    }

    /// The weekly drift of level, respect for authority, trust in abilities, personal bond,
    /// receptiveness and loyalty, in this order.
    pub fn weekly_drift() -> (r: [Drift; 6])
        ensures
            r@ == staff_drift(),
    {
        [
            Drift { retention: 985, neutral: 0 },
            Drift { retention: 993, neutral: 50 },
            Drift { retention: 995, neutral: 50 },
            Drift { retention: 980, neutral: 30 },
            Drift { retention: 992, neutral: 50 },
            Drift { retention: 990, neutral: 30 },
        ]
    }
}

/// The weekly drift of a relation with a member of staff, axis by axis.
pub open spec fn staff_drift() -> Seq<Drift> {
    seq![
        Drift { retention: 985, neutral: 0 },
        Drift { retention: 993, neutral: 50 },
        Drift { retention: 995, neutral: 50 },
        Drift { retention: 980, neutral: 30 },
        Drift { retention: 992, neutral: 50 },
        Drift { retention: 990, neutral: 30 },
    ]
}

impl Relationship for StaffRelation {
    open spec fn neutral() -> Self {
        StaffRelation {
            level: Measure { key: 0 },
            authority_respect: Measure { key: FIFTY },
            trust_in_abilities: Measure { key: FIFTY },
            personal_bond: Measure { key: THIRTY },
            receptiveness: Measure { key: FIFTY },
            loyalty: Measure { key: THIRTY },
        }
    }

    open spec fn favorite(self) -> bool {
        self.level.ge(70) && self.loyalty.ge(70)
    }

    open spec fn disliked(self) -> bool {
        self.level.le(-50) || self.authority_respect.le(20)
    }

    open spec fn conflict(self) -> int {
        if self.level.le(-75) {
            18
        } else if self.level.le(-50) {
            10
        } else if self.disliked() {
            5
        } else {
            0
        }
    }

    fn new_neutral() -> (r: Self) {
        StaffRelation {
            level: Measure { key: 0 },
            authority_respect: Measure { key: FIFTY },
            trust_in_abilities: Measure { key: FIFTY },
            personal_bond: Measure { key: THIRTY },
            receptiveness: Measure { key: FIFTY },
            loyalty: Measure { key: THIRTY },
        }
    }

    fn is_favorite(&self) -> (r: bool) {
        self.level.is_at_least(70) && self.loyalty.is_at_least(70)
    }

    fn is_disliked(&self) -> (r: bool) {
        self.level.is_at_most(-50) || self.authority_respect.is_at_most(20)
    }

    fn conflict_contribution(&self) -> (r: u32) {
        if self.level.is_at_most(-75) {
            18
        } else if self.level.is_at_most(-50) {
            10
        } else if self.is_disliked() {
            5
        } else {
            0
        }
    }
}

/// Whether `keys` lists every key of `m` once.
pub open spec fn lists<V>(keys: Seq<u32>, m: Map<u32, V>) -> bool {
    &&& keys.no_duplicates()
    &&& forall|k: u32| keys.contains(k) <==> #[trigger] m.contains_key(k)
}

/// The conflict points of the relations with the people in `keys`.
pub open spec fn conflict_sum<T: Relationship>(m: Map<u32, T>, keys: Seq<u32>) -> int
    decreases keys.len(),
{
    if keys.len() == 0 {
        0
    } else {
        conflict_sum(m, keys.drop_last()) + m[keys.last()].conflict()
    }
}

/// Whether the other person is a favourite, or disliked.
spec fn stands_out<T: Relationship>(r: T, liked: bool) -> bool {
    if liked {
        r.favorite()
    } else {
        r.disliked()
    }
}

/// The relations of one kind, by the id of the other person.
#[derive(Debug)]
pub struct RelationStore<T: Relationship> {
    pub relations: FxHashMap<u32, T>,
}

impl<T: Relationship> View for RelationStore<T> {
    type V = Map<u32, T>;

    open spec fn view(&self) -> Map<u32, T> {
        self.relations@
    }
}

/// The relation with a person, neutral where there is none yet.
pub open spec fn relation_with<T: Relationship>(m: Map<u32, T>, id: u32) -> T {
    if m.contains_key(id) {
        m[id]
    } else {
        T::neutral()
    }
}

impl<T: Relationship> RelationStore<T> {
    /// No relations.
    pub fn new() -> (r: Self)
        ensures
            r@ == Map::<u32, T>::empty(),
    {
        let r = RelationStore { relations: fxmap::new_map() };
        assert(r@ =~= Map::<u32, T>::empty());
        r
    }

    /// The relation with a person, where there is one.
    pub fn get(&self, id: u32) -> (r: Option<&T>)
        ensures
            r is Some <==> self@.contains_key(id),
            r is Some ==> *r->0 == self@[id],
    {
        fxmap::lookup(&self.relations, id)
    }

    /// The relation with a person, neutral where there is none yet.
    pub fn get_or_neutral(&self, id: u32) -> (r: T)
        ensures
            r == relation_with(self@, id),
    {
        match fxmap::lookup(&self.relations, id) {
            Some(r) => *r,
            None => T::new_neutral(),
        }
    }

    /// Sets the relation with a person.
    pub fn set(&mut self, id: u32, relation: T)
        ensures
            final(self)@ == old(self)@.insert(id, relation),
    {
        fxmap::put(&mut self.relations, id, relation);
    }

    /// The ids of everyone there is a relation with, in no particular order.
    pub fn ids(&self) -> (r: Vec<u32>)
        ensures
            lists(r@, self@),
    {
        fxmap::keys_of(&self.relations)
    }

    /// The favourites or the disliked people, in no particular order.
    fn select(&self, liked: bool) -> (r: Vec<u32>)
        ensures
            r@.no_duplicates(),
            forall|k: u32| #[trigger]
                r@.contains(k) <==> self@.contains_key(k) && stands_out(self@[k], liked),
    {
        let keys = self.ids();
        let mut out: Vec<u32> = Vec::new();
        let mut i: usize = 0;
        while i < keys.len()
            invariant
                lists(keys@, self@),
                i <= keys@.len(),
                out@.no_duplicates(),
                forall|k: u32| #[trigger]
                    out@.contains(k) <==> (exists|j: int|
                        0 <= j < i && #[trigger] keys@[j] == k && stands_out(self@[k], liked)),
            decreases keys@.len() - i,
        {
            let id: u32 = keys[i];
            assert(keys@.contains(id));
            let ghost before = out@;
            match self.get(id) {
                Some(r) => {
                    if (liked && r.is_favorite()) || (!liked && r.is_disliked()) {
                        assert(!before.contains(id)) by {
                            if before.contains(id) {
                                let j = choose|j: int|
                                    0 <= j < i && #[trigger] keys@[j] == id
                                        && stands_out(self@[id], liked);
                                assert(keys@[j] == keys@[i as int]);
                            }
                        }
                        out.push(id);
                        proof {
                            lemma_push_distinct(before, id);
                        }
                    }
                },
                None => {},
            }
            assert forall|k: u32| #[trigger] out@.contains(k) <==> (exists|j: int|
                0 <= j < i + 1 && #[trigger] keys@[j] == k && stands_out(self@[k], liked)) by {
                lemma_push_contains(before, id, k);
                if exists|j: int| 0 <= j < i + 1 && #[trigger] keys@[j] == k
                    && stands_out(self@[k], liked) {
                    let j = choose|j: int|
                        0 <= j < i + 1 && #[trigger] keys@[j] == k && stands_out(self@[k], liked);
                    if j < i {
                        assert(before.contains(k));
                    }
                }
                if before.contains(k) {
                    let j = choose|j: int|
                        0 <= j < i && #[trigger] keys@[j] == k && stands_out(self@[k], liked);
                    assert(keys@[j] == k);
                }
                assert(keys@[i as int] == id);
            }
            i = i + 1;
        }
        assert forall|k: u32| #[trigger] out@.contains(k) <==> self@.contains_key(k)
            && stands_out(self@[k], liked) by {
            assert(keys@.contains(k) <==> self@.contains_key(k));
            if keys@.contains(k) {
                let j = choose|j: int| 0 <= j < keys@.len() && keys@[j] == k;
                assert(keys@[j] == k);
            }
        }
        out
    }

    /// The favourites, in no particular order.
    pub fn get_favorites(&self) -> (r: Vec<u32>)
        ensures
            r@.no_duplicates(),
            forall|k: u32| #[trigger]
                r@.contains(k) <==> self@.contains_key(k) && self@[k].favorite(),
    {
        self.select(true)
    }

    /// The disliked people, in no particular order.
    pub fn get_disliked(&self) -> (r: Vec<u32>)
        ensures
            r@.no_duplicates(),
            forall|k: u32| #[trigger]
                r@.contains(k) <==> self@.contains_key(k) && self@[k].disliked(),
    {
        self.select(false)
    }

    /// The conflicts of a dressing room, on a scale that ends at 100.
    pub fn conflict_level(&self) -> (r: u32)
        ensures
            forall|keys: Seq<u32>| #[trigger]
                lists(keys, self@) ==> r == if conflict_sum(self@, keys) > 100 {
                    100
                } else {
                    conflict_sum(self@, keys)
                },
    {
        let keys = self.ids();
        let mut sum: u32 = 0;
        let mut i: usize = 0;
        assert(keys@.take(0) =~= Seq::empty());
        while i < keys.len()
            invariant
                lists(keys@, self@),
                i <= keys@.len(),
                sum <= 100,
                conflict_sum(self@, keys@.take(i as int)) >= 0,
                sum == if conflict_sum(self@, keys@.take(i as int)) > 100 {
                    100
                } else {
                    conflict_sum(self@, keys@.take(i as int))
                },
            decreases keys@.len() - i,
        {
            let id: u32 = keys[i];
            assert(keys@.contains(id));
            assert(keys@.take(i + 1).drop_last() =~= keys@.take(i as int));
            assert(keys@.take(i + 1).last() == id);
            match self.get(id) {
                Some(r) => {
                    sum = sum + r.conflict_contribution();
                    if sum > 100 {
                        sum = 100;
                    }
                },
                None => {},
            }
            i = i + 1;
        }
        assert(keys@.take(i as int) =~= keys@);
        proof {
            assert forall|other: Seq<u32>| #[trigger]
                lists(other, self@) implies conflict_sum(self@, other) == conflict_sum(
                self@,
                keys@,
            ) by {
                assert forall|k: u32| other.contains(k) <==> keys@.contains(k) by {
                    assert(other.contains(k) <==> self@.contains_key(k));
                    assert(keys@.contains(k) <==> self@.contains_key(k));
                }
                lemma_conflict_sum_order(self@, other, keys@);
            }
        }
        sum
    }
}

proof fn lemma_push_distinct(s: Seq<u32>, x: u32)
    requires
        s.no_duplicates(),
        !s.contains(x),
    ensures
        s.push(x).no_duplicates(),
{
    let t = s.push(x);
    assert forall|i: int, j: int| 0 <= i < t.len() && 0 <= j < t.len() && i != j implies t[i]
        != t[j] by {
        if i == s.len() {
            assert(s.contains(s[j]));
        } else if j == s.len() {
            assert(s.contains(s[i]));
        }
    }
}

proof fn lemma_push_contains(s: Seq<u32>, x: u32, k: u32)
    ensures
        s.push(x).contains(k) <==> s.contains(k) || k == x,
{
    let t = s.push(x);
    assert(t[s.len() as int] == x);
    if s.contains(k) {
        let i = choose|i: int| 0 <= i < s.len() && s[i] == k;
        assert(t[i] == k);
    }
    if t.contains(k) {
        let i = choose|i: int| 0 <= i < t.len() && t[i] == k;
        if i < s.len() {
            assert(s[i] == k);
        }
    }
}

proof fn lemma_conflict_sum_remove<T: Relationship>(m: Map<u32, T>, s: Seq<u32>, i: int)
    requires
        0 <= i < s.len(),
    ensures
        conflict_sum(m, s) == conflict_sum(m, s.remove(i)) + m[s[i]].conflict(),
    decreases s.len(),
{
    if i == s.len() - 1 {
        assert(s.remove(i) =~= s.drop_last());
    } else {
        lemma_conflict_sum_remove(m, s.drop_last(), i);
        assert(s.remove(i).drop_last() =~= s.drop_last().remove(i));
        assert(s.remove(i).last() == s.last());
        assert(s.drop_last()[i] == s[i]);
    }
}

/// The sum of the conflicts does not depend on the order in which the people are counted.
proof fn lemma_conflict_sum_order<T: Relationship>(m: Map<u32, T>, a: Seq<u32>, b: Seq<u32>)
    requires
        a.no_duplicates(),
        b.no_duplicates(),
        forall|k: u32| a.contains(k) <==> b.contains(k),
    ensures
        conflict_sum(m, a) == conflict_sum(m, b),
    decreases a.len(),
{
    if a.len() == 0 {
        if b.len() > 0 {
            assert(b.contains(b[0]));
            assert(a.contains(b[0]));
        }
    } else {
        let x = a.last();
        assert(a.contains(x)) by {
            assert(a[a.len() - 1] == x);
        }
        assert(b.contains(x));
        let i = choose|i: int| 0 <= i < b.len() && b[i] == x;
        lemma_conflict_sum_remove(m, b, i);
        let a2 = a.drop_last();
        let b2 = b.remove(i);
        assert(a2.no_duplicates());
        assert forall|p: int, q: int| 0 <= p < b2.len() && 0 <= q < b2.len() && p != q implies b2[p]
            != b2[q] by {
            let p2 = if p >= i { p + 1 } else { p };
            let q2 = if q >= i { q + 1 } else { q };
            assert(b2[p] == b[p2]);
            assert(b2[q] == b[q2]);
        }
        assert forall|k: u32| a2.contains(k) <==> b2.contains(k) by {
            if a2.contains(k) {
                let p = choose|p: int| 0 <= p < a2.len() && a2[p] == k;
                assert(a[p] == k);
                assert(k != x);
                assert(a.contains(k));
                let q = choose|q: int| 0 <= q < b.len() && b[q] == k;
                assert(q != i);
                if q < i {
                    assert(b2[q] == k);
                } else {
                    assert(b2[q - 1] == k);
                }
            }
            if b2.contains(k) {
                let q = choose|q: int| 0 <= q < b2.len() && b2[q] == k;
                let q2 = if q >= i { q + 1 } else { q };
                assert(b[q2] == k);
                assert(b.contains(k));
                assert(k != x);
                let p = choose|p: int| 0 <= p < a.len() && a[p] == k;
                assert(p != a.len() - 1);
                assert(a2[p] == k);
            }
        }
        lemma_conflict_sum_order(m, a2, b2);
    }
}

/// The id of a group.
pub type GroupId = u32;

/// The group of those a person is close to.
pub const INNER_CIRCLE_GROUP: GroupId = 1;

/// What a group has in common.
#[derive(Clone, Copy, Debug, PartialEq, Eq, Structural)]
pub enum GroupType {
    Nationality,
    AgeGroup,
    PlayingPosition,
    Social,
    Professional,
}

/// A group of people.
#[derive(Debug)]
pub struct Group {
    pub id: GroupId,
    pub members: FxHashSet<u32>,
    pub leader_id: Option<u32>,
    pub cohesion: Measure,
    pub group_type: GroupType,
    pub rival_group: Option<GroupId>,
}

/// The groups around a person.
#[derive(Debug)]
pub struct GroupDynamics {
    pub groups: FxHashMap<u32, Group>,
}

/// The members of the inner circle after the relation with a person moved to `level`: a bond of
/// 60 brings him in, one below 40 leaves him out.
pub open spec fn circle_after(members: Set<u32>, person: u32, level: Measure) -> Set<u32> {
    if level.ge(60) {
        members.insert(person)
    } else if !level.ge(40) {
        members.remove(person)
    } else {
        members
    }
}

impl GroupDynamics {
    /// Whether the inner circle is the only group, a social one without leader or rival.
    pub open spec fn wf(self) -> bool {
        forall|g: u32| #[trigger]
            self.groups@.contains_key(g) ==> {
                &&& g == INNER_CIRCLE_GROUP
                &&& self.groups@[g].id == g
                &&& self.groups@[g].leader_id is None
                &&& self.groups@[g].group_type is Social
                &&& self.groups@[g].rival_group is None
            }
    }

    /// The members of the inner circle.
    pub open spec fn circle(self) -> Set<u32> {
        if self.groups@.contains_key(INNER_CIRCLE_GROUP) {
            self.groups@[INNER_CIRCLE_GROUP].members@
        } else {
            Set::empty()
        }
    }

    /// The cohesion of the inner circle, where there is one.
    pub open spec fn cohesion(self) -> Option<Measure> {
        if self.groups@.contains_key(INNER_CIRCLE_GROUP) {
            Some(self.groups@[INNER_CIRCLE_GROUP].cohesion)
        } else {
            None
        }
    }

    /// The groups that a person belongs to: the inner circle, where he is in it.
    pub open spec fn groups_of(self, person: u32) -> Seq<GroupId> {
        if self.circle().contains(person) {
            seq![INNER_CIRCLE_GROUP]
        } else {
            Seq::empty()
        }
    }

    /// No groups.
    pub fn new() -> (r: Self)
        ensures
            r.wf(),
            r.groups@ == Map::<u32, Group>::empty(),
    {
        let r = GroupDynamics { groups: fxmap::new_map() };
        assert(r.groups@ =~= Map::<u32, Group>::empty());
        r
    }

    /// Whether a person belongs to the inner circle.
    pub fn in_circle(&self, person: u32) -> (r: bool)
        ensures
            r == self.circle().contains(person),
    {
        match fxmap::lookup(&self.groups, INNER_CIRCLE_GROUP) {
            Some(g) => fxmap::has_member(&g.members, person),
            None => false,
        }
    }

    /// The cohesion of the inner circle, where there is one.
    pub fn circle_cohesion(&self) -> (r: Option<Measure>)
        ensures
            r == self.cohesion(),
    {
        match fxmap::lookup(&self.groups, INNER_CIRCLE_GROUP) {
            Some(g) => Some(g.cohesion),
            None => None,
        }
    }

    /// Brings the inner circle in line with a relation that moved. `blended` is the cohesion
    /// that the new bond leads to; a circle without members has none.
    pub fn update_from_relationship(&mut self, person: u32, level: Measure, blended: Measure)
        requires
            old(self).wf(),
        ensures
            final(self).wf(),
            final(self).groups@.contains_key(INNER_CIRCLE_GROUP),
            final(self).circle() == circle_after(old(self).circle(), person, level),
            final(self).groups@[INNER_CIRCLE_GROUP].cohesion == if final(self).circle().is_empty() {
                (Measure { key: 0 })
            } else {
                blended
            },
    {
        let ghost before = *self;
        let mut group = match fxmap::take_out(&mut self.groups, INNER_CIRCLE_GROUP) {
            Some(g) => g,
            None => Group {
                id: INNER_CIRCLE_GROUP,
                members: fxmap::new_set(),
                leader_id: None,
                cohesion: Measure { key: 0 },
                group_type: GroupType::Social,
                rival_group: None,
            },
        };
        assert(group.members@ == before.circle());
        if level.is_at_least(60) {
            fxmap::add_member(&mut group.members, person);
        } else if !level.is_at_least(40) {
            fxmap::drop_member(&mut group.members, person);
        }
        if group.members.is_empty() {
            group.cohesion = Measure { key: 0 };
        } else {
            group.cohesion = blended;
        }
        let ghost kept = group;
        fxmap::put(&mut self.groups, INNER_CIRCLE_GROUP, group);
        assert(self.groups@[INNER_CIRCLE_GROUP] == kept);
    }

    /// The groups that a person belongs to.
    pub fn get_entity_groups(&self, person: u32) -> (r: Vec<GroupId>)
        ensures
            r@ == self.groups_of(person),
    {
        if self.in_circle(person) {
            vec![INNER_CIRCLE_GROUP]
        } else {
            Vec::new()
        }
    }

    /// A week passes. `faded` is the cohesion that is left of the inner circle's; one that
    /// falls to a tenth or less, as a single-precision number, dissolves it.
    pub fn weekly_update(&mut self, faded: Measure)
        requires
            old(self).wf(),
        ensures
            final(self).wf(),
            final(self).cohesion() == if old(self).cohesion() is Some && faded.gt_hundredths(10) {
                Some(faded)
            } else {
                None
            },
            final(self).cohesion() is Some ==> final(self).circle() == old(self).circle(),
    {
        match fxmap::take_out(&mut self.groups, INNER_CIRCLE_GROUP) {
            Some(taken) => {
                let mut group = taken;
                group.cohesion = faded;
                if faded.is_above_hundredths(10) {
                    fxmap::put(&mut self.groups, INNER_CIRCLE_GROUP, group);
                }
            },
            None => {},
        }
    }
}

/// Whose relation an event is about.
#[derive(Clone, Copy, Debug, PartialEq, Eq, Structural)]
pub enum SubjectType {
    Player,
    Staff,
}

/// A relation that moved.
#[derive(Clone, Copy, Debug, PartialEq, Eq, Structural)]
pub struct RelationshipEvent {
    pub date: Date,
    pub subject_id: u32,
    pub subject_type: SubjectType,
    pub change_type: ChangeType,
    pub old_value: Measure,
    pub new_value: Measure,
}

/// How many events are kept.
pub const MAX_EVENTS: usize = 100;

/// The recent events, oldest first.
#[derive(Debug)]
pub struct RelationshipHistory {
    pub events: VecDeque<RelationshipEvent>,
}

/// Whether an event is less than a year old.
pub open spec fn recent_event(e: RelationshipEvent, today: Date) -> bool {
    e.date.days > today.days - 365
}

/// The events after one more: past the bound the oldest is dropped.
pub open spec fn remembered(events: Seq<RelationshipEvent>, e: RelationshipEvent) -> Seq<
    RelationshipEvent,
> {
    if events.len() < MAX_EVENTS {
        events.push(e)
    } else {
        events.push(e).drop_first()
    }
}

impl RelationshipHistory {
    /// Whether the history is within its bound.
    pub open spec fn wf(self) -> bool {
        self.events@.len() <= MAX_EVENTS
    }

    /// No events.
    pub fn new() -> (r: Self)
        ensures
            r.events@ == Seq::<RelationshipEvent>::empty(),
            r.wf(),
    {
        RelationshipHistory { events: VecDeque::with_capacity(MAX_EVENTS) }
    }

    /// Adds an event. A history that grows past its bound drops the oldest one.
    pub fn record_event(&mut self, event: RelationshipEvent)
        ensures
            final(self).events@ == remembered(old(self).events@, event),
            old(self).wf() ==> final(self).wf(),
    {
        self.events.push_back(event);
        if self.events.len() > MAX_EVENTS {
            self.events.pop_front();
        }
    }

    /// Drops the events that are a year old.
    pub fn cleanup_old_events(&mut self, current_date: Date)
        ensures
            final(self).events@ == old(self).events@.filter(
                |e: RelationshipEvent| recent_event(e, current_date),
            ),
            old(self).wf() ==> final(self).wf(),
    {
        let ghost before = self.events@;
        let ghost pred = |e: RelationshipEvent| recent_event(e, current_date);
        let cutoff: i64 = current_date.days as i64 - 365;
        let mut kept: VecDeque<RelationshipEvent> = VecDeque::with_capacity(MAX_EVENTS);
        let mut i: usize = 0;
        assert(before.take(0) =~= Seq::empty());
        reveal(Seq::filter);
        while i < self.events.len()
            invariant
                self.events@ == before,
                i <= before.len(),
                cutoff == current_date.days - 365,
                pred == (|e: RelationshipEvent| recent_event(e, current_date)),
                kept@ == before.take(i as int).filter(pred),
            decreases before.len() - i,
        {
            let e = self.events[i];
            assert(before.take(i + 1).drop_last() =~= before.take(i as int));
            assert(before.take(i + 1).last() == e);
            reveal(Seq::filter);
            if e.date.days as i64 > cutoff {
                kept.push_back(e);
            }
            i = i + 1;
        }
        assert(before.take(i as int) =~= before);
        proof {
            before.lemma_filter_len(pred);
        }
        self.events = kept;
    }
}

/// The parts of a team's chemistry, from 0 to 100.
#[derive(Clone, Copy, Debug, PartialEq, Eq, Structural)]
pub struct ChemistryFactors {
    pub player_harmony: Measure,
    pub leadership_quality: Measure,
    pub coach_relationship: Measure,
    pub group_cohesion: Measure,
    pub conflict_level: Measure,
}

/// A team's chemistry.
#[derive(Clone, Copy, Debug, PartialEq, Eq, Structural)]
pub struct TeamChemistry {
    pub overall: Measure,
    pub factors: ChemistryFactors,
    pub turnover_penalty: u32,
}

/// What so many signings in three months cost.
pub open spec fn turnover_points(recent_signings: u8) -> int {
    if recent_signings == 0 {
        0
    } else if recent_signings == 1 {
        2
    } else if recent_signings <= 3 {
        5
    } else if recent_signings <= 6 {
        10
    } else {
        18
    }
}

/// The weight of the leader at this place, in tenths: by his leadership, and by his influence.
pub open spec fn leader_weights(place: int) -> (int, int) {
    if place == 0 {
        (15, 6)
    } else if place == 1 {
        (12, 5)
    } else {
        (10, 4)
    }
}

impl TeamChemistry {
    /// The chemistry of strangers: 50 overall, with nothing known of what it is made of.
    pub open spec fn of_strangers() -> TeamChemistry {
        let zero = Measure { key: 0 };
        TeamChemistry {
            overall: Measure { key: FIFTY },
            factors: ChemistryFactors {
                player_harmony: zero,
                leadership_quality: zero,
                coach_relationship: zero,
                group_cohesion: zero,
                conflict_level: zero,
            },
            turnover_penalty: 0,
        }
    }

    /// The chemistry of strangers.
    pub fn new() -> (r: Self)
        ensures
            r == TeamChemistry::of_strangers(),
    {
        let zero = Measure { key: 0 };
        TeamChemistry {
            overall: Measure { key: FIFTY },
            factors: ChemistryFactors {
                player_harmony: zero,
                leadership_quality: zero,
                coach_relationship: zero,
                group_cohesion: zero,
                conflict_level: zero,
            },
            turnover_penalty: 0,
        }
    }

    /// What so many signings in three months cost.
    pub fn turnover_penalty_for(recent_signings: u8) -> (r: u32)
        ensures
            r == turnover_points(recent_signings),
    {
        if recent_signings == 0 {
            0
        } else if recent_signings == 1 {
            2
        } else if recent_signings <= 3 {
            5
        } else if recent_signings <= 6 {
            10
        } else {
            18
        }
    }

    /// The weight of the leader at this place, in tenths.
    pub fn leadership_weights(place: usize) -> (r: (u32, u32))
        ensures
            (r.0 as int, r.1 as int) == leader_weights(place as int),
    {
        if place == 0 {
            (15, 6)
        } else if place == 1 {
            (12, 5)
        } else {
            (10, 4)
        }
    }
}

/// A person's standing in the dressing room.
#[derive(Clone, Copy, Debug, PartialEq, Eq, Structural)]
pub enum InfluenceLevel {
    KeyPlayer,
    Influential,
    Regular,
    Peripheral,
}

/// The standing that goes with an influence.
pub open spec fn influence_of(value: Measure) -> InfluenceLevel {
    if value.ge(80) {
        InfluenceLevel::KeyPlayer
    } else if value.ge(60) {
        InfluenceLevel::Influential
    } else if value.ge(30) {
        InfluenceLevel::Regular
    } else {
        InfluenceLevel::Peripheral
    }
}

impl InfluenceLevel {
    /// The standing that goes with an influence.
    pub fn from_value(value: Measure) -> (r: Self)
        ensures
            r == influence_of(value),
    {
        if value.is_at_least(80) {
            InfluenceLevel::KeyPlayer
        } else if value.is_at_least(60) {
            InfluenceLevel::Influential
        } else if value.is_at_least(30) {
            InfluenceLevel::Regular
        } else {
            InfluenceLevel::Peripheral
        }
    }
}

/// What a conflict is about.
#[derive(Clone, Copy, Debug, PartialEq, Eq, Structural)]
pub enum ConflictType {
    PersonalRivalry,
    GroupRivalry,
    AuthorityChallenge,
    PlayingTimeDispute,
}

/// How bad a conflict is.
#[derive(Clone, Copy, Debug, PartialEq, Eq, Structural)]
pub enum ConflictSeverity {
    Minor,
    Medium,
    Serious,
    Critical,
}

/// How bad a conflict on this level is.
pub open spec fn severity_of(level: Measure) -> ConflictSeverity {
    if level.le(-75) {
        ConflictSeverity::Critical
    } else if level.le(-50) {
        ConflictSeverity::Serious
    } else if level.le(-25) {
        ConflictSeverity::Medium
    } else {
        ConflictSeverity::Minor
    }
}

impl ConflictSeverity {
    /// How bad a conflict on this level is.
    pub fn from_relationship_level(level: Measure) -> (r: Self)
        ensures
            r == severity_of(level),
    {
        if level.is_at_most(-75) {
            ConflictSeverity::Critical
        } else if level.is_at_most(-50) {
            ConflictSeverity::Serious
        } else if level.is_at_most(-25) {
            ConflictSeverity::Medium
        } else {
            ConflictSeverity::Minor
        }
    }
}

/// A conflict between two parties.
#[derive(Clone, Copy, Debug, PartialEq, Eq, Structural)]
pub struct ConflictInfo {
    pub party_a: u32,
    pub party_b: u32,
    pub conflict_type: ConflictType,
    pub severity: ConflictSeverity,
}

/// Whether a relation is a conflict: an open rivalry, or a dislike.
pub open spec fn in_conflict(r: PlayerRelation) -> bool {
    r.rivalry_active || r.disliked()
}

/// How a person stands with the people around him.
#[derive(Debug)]
pub struct Relations {
    pub players: RelationStore<PlayerRelation>,
    pub staffs: RelationStore<StaffRelation>,
    pub groups: GroupDynamics,
    pub history: RelationshipHistory,
    pub chemistry: TeamChemistry,
}

impl Relations {
    /// Whether the groups and the history are as they should be.
    pub open spec fn wf(self) -> bool {
        self.groups.wf() && self.history.wf()
    }

    /// Nobody is known yet.
    pub fn new() -> (r: Self)
        ensures
            r.wf(),
            r.players@ == Map::<u32, PlayerRelation>::empty(),
            r.staffs@ == Map::<u32, StaffRelation>::empty(),
            r.groups.groups@ == Map::<u32, Group>::empty(),
            r.groups.circle() == Set::<u32>::empty(),
            r.history.events@ == Seq::<RelationshipEvent>::empty(),
            r.chemistry == TeamChemistry::of_strangers(),
    {
        Relations {
            players: RelationStore::new(),
            staffs: RelationStore::new(),
            groups: GroupDynamics::new(),
            history: RelationshipHistory::new(),
            chemistry: TeamChemistry::new(),
        }
    }

    /// The relation with a teammate, where there is one.
    pub fn get_player(&self, id: u32) -> (r: Option<&PlayerRelation>)
        ensures
            r is Some <==> self.players@.contains_key(id),
            r is Some ==> *r->0 == self.players@[id],
    {
        self.players.get(id)
    }

    /// The relation with a member of staff, where there is one.
    pub fn get_staff(&self, id: u32) -> (r: Option<&StaffRelation>)
        ensures
            r is Some <==> self.staffs@.contains_key(id),
            r is Some ==> *r->0 == self.staffs@[id],
    {
        self.staffs.get(id)
    }

    /// Takes over what a change made of the relation with a teammate: `axes` are the axes it
    /// led to, `blended` the cohesion of the inner circle. The change goes into the history.
    pub fn update_player_relationship(
        &mut self,
        player_id: u32,
        change_type: ChangeType,
        axes: PlayerAxes,
        blended: Measure,
        date: Date,
    )
        requires
            old(self).wf(),
        ensures
            final(self).wf(),
            ({
                let before = relation_with(old(self).players@, player_id);
                let after = final(self).players@[player_id];
                &&& final(self).players@ == old(self).players@.insert(player_id, after)
                &&& in_range_of(after.axes, axes)
                &&& after.settled()
                &&& after.rivalry_active == rivalry_after(
                    before.rivalry_active,
                    before.axes.rivalry_intensity,
                    after.axes.rivalry_intensity,
                    after.axes.level,
                )
                &&& before.axes.rivalry_intensity.le(0) ==> !after.rivalry_active
                &&& after.influence == before.influence
                &&& after.mentorship == before.mentorship
                &&& final(self).history.events@.last() == (RelationshipEvent {
                    date,
                    subject_id: player_id,
                    subject_type: SubjectType::Player,
                    change_type,
                    old_value: before.axes.level,
                    new_value: after.axes.level,
                })
                &&& final(self).history.events@ == if old(self).history.events@.len() < MAX_EVENTS {
                    old(self).history.events@.push(final(self).history.events@.last())
                } else {
                    old(self).history.events@.push(
                        final(self).history.events@.last(),
                    ).drop_first()
                }
                &&& final(self).groups.circle() == circle_after(
                    old(self).groups.circle(),
                    player_id,
                    after.axes.level,
                )
            }),
            final(self).groups.cohesion() == Some(
                if final(self).groups.circle().is_empty() {
                    Measure { key: 0 }
                } else {
                    blended
                },
            ),
            final(self).staffs == old(self).staffs,
            final(self).chemistry == old(self).chemistry,
    {
        let mut relation = self.players.get_or_neutral(player_id);
        let old_value = relation.axes.level;
        relation.apply_change(axes);
        let new_value = relation.axes.level;
        self.players.set(player_id, relation);
        self.history.record_event(
            RelationshipEvent {
                date,
                subject_id: player_id,
                subject_type: SubjectType::Player,
                change_type,
                old_value,
                new_value,
            },
        );
        self.groups.update_from_relationship(player_id, new_value, blended);
    }

    /// The teammates that there is a relation with, in no particular order.
    pub fn player_relations_iter(&self) -> (r: Vec<u32>)
        ensures
            r@.to_set() == self.players@.dom(),
            r@.no_duplicates(),
    {
        self.players.ids()
    }

    /// The staff members that there is a relation with, in no particular order.
    pub fn staff_relations_iter(&self) -> (r: Vec<u32>)
        ensures
            r@.to_set() == self.staffs@.dom(),
            r@.no_duplicates(),
    {
        self.staffs.ids()
    }

    /// Takes over a plain step in the relation with a teammate: the level, momentum and
    /// interaction frequency it led to, kept in their ranges. Feuds and history are left alone.
    pub fn update_simple(
        &mut self,
        player_id: u32,
        level: Measure,
        momentum: Measure,
        interaction_frequency: Measure,
    )
        ensures
            ({
                let before = relation_with(old(self).players@, player_id);
                let after = final(self).players@[player_id];
                &&& final(self).players@ == old(self).players@.insert(player_id, after)
                &&& after.axes.level.units() == level.clamped_units(-100, 100)
                &&& after.axes.momentum.units() == momentum.clamped_units(-1, 1)
                &&& after.axes.interaction_frequency.units() == if interaction_frequency.le(1) {
                    interaction_frequency.units()
                } else {
                    crate::measure::one()
                }
                &&& after == (PlayerRelation {
                    axes: PlayerAxes {
                        level: after.axes.level,
                        momentum: after.axes.momentum,
                        interaction_frequency: after.axes.interaction_frequency,
                        ..before.axes
                    },
                    ..before
                })
            }),
            final(self).staffs == old(self).staffs,
            final(self).groups == old(self).groups,
            final(self).history == old(self).history,
            final(self).chemistry == old(self).chemistry,
    {
        let mut relation = self.players.get_or_neutral(player_id);
        relation.axes.level = level.clamped(-100, 100);
        relation.axes.momentum = momentum.clamped(-1, 1);
        relation.axes.interaction_frequency = if interaction_frequency.is_at_most(1) {
            interaction_frequency
        } else {
            Measure::whole(1)
        };
        self.players.set(player_id, relation);
    }

    /// Whether a plain step is large enough to work out the chemistry anew: more than a tenth,
    /// as a single-precision number.
    pub fn is_significant(increment: Measure) -> (r: bool)
        requires
            increment.wf(),
        ensures
            r == increment.absolute().gt_hundredths(10),
    {
        increment.abs().is_above_hundredths(10)
    }

    /// Takes over what a change made of the relation with a member of staff: `axes` are the axes
    /// it led to. The change goes into the history.
    pub fn update_staff_relationship(
        &mut self,
        staff_id: u32,
        change_type: ChangeType,
        axes: StaffRelation,
        date: Date,
    )
        requires
            old(self).wf(),
        ensures
            final(self).wf(),
            ({
                let before = relation_with(old(self).staffs@, staff_id);
                let after = final(self).staffs@[staff_id];
                &&& final(self).staffs@ == old(self).staffs@.insert(staff_id, after)
                &&& after.level.units() == axes.level.clamped_units(-100, 100)
                &&& after.authority_respect.units() == axes.authority_respect.clamped_units(0, 100)
                &&& after.trust_in_abilities.units() == axes.trust_in_abilities.clamped_units(
                    0,
                    100,
                )
                &&& after.personal_bond.units() == axes.personal_bond.clamped_units(0, 100)
                &&& after.receptiveness.units() == axes.receptiveness.clamped_units(0, 100)
                &&& after.loyalty.units() == axes.loyalty.clamped_units(0, 100)
                &&& final(self).history.events@.last() == (RelationshipEvent {
                    date,
                    subject_id: staff_id,
                    subject_type: SubjectType::Staff,
                    change_type,
                    old_value: before.level,
                    new_value: after.level,
                })
                &&& final(self).history.events@ == if old(self).history.events@.len() < MAX_EVENTS {
                    old(self).history.events@.push(final(self).history.events@.last())
                } else {
                    old(self).history.events@.push(
                        final(self).history.events@.last(),
                    ).drop_first()
                }
            }),
            final(self).players == old(self).players,
            final(self).groups == old(self).groups,
            final(self).chemistry == old(self).chemistry,
    {
        let mut relation = self.staffs.get_or_neutral(staff_id);
        let old_value = relation.level;
        relation.apply_change(axes);
        let new_value = relation.level;
        self.staffs.set(staff_id, relation);
        self.history.record_event(
            RelationshipEvent {
                date,
                subject_id: staff_id,
                subject_type: SubjectType::Staff,
                change_type,
                old_value,
                new_value,
            },
        );
    }

    /// Notes a mentorship. `professional_respect` and `influence` are the values it raised;
    /// neither goes past 100.
    pub fn set_mentorship(
        &mut self,
        other_player_id: u32,
        kind: MentorshipType,
        professional_respect: Measure,
        influence: Measure,
    )
        ensures
            ({
                let before = relation_with(old(self).players@, other_player_id);
                let after = final(self).players@[other_player_id];
                &&& final(self).players@ == old(self).players@.insert(other_player_id, after)
                &&& after.mentorship == Some(kind)
                &&& after.axes.professional_respect.units() == capped(professional_respect)
                &&& after.influence.units() == capped(influence)
                &&& after.axes == (PlayerAxes {
                    professional_respect: after.axes.professional_respect,
                    ..before.axes
                })
                &&& after.rivalry_active == before.rivalry_active
            }),
            final(self).staffs == old(self).staffs,
            final(self).groups == old(self).groups,
            final(self).history == old(self).history,
            final(self).chemistry == old(self).chemistry,
    {
        let mut relation = self.players.get_or_neutral(other_player_id);
        relation.mentorship = Some(kind);
        relation.axes.professional_respect = Relations::cap(professional_respect);
        relation.influence = Relations::cap(influence);
        self.players.set(other_player_id, relation);
    }

    /// The points that a mentorship adds to the other person's influence.
    pub fn mentorship_influence(kind: MentorshipType) -> (r: u32)
        ensures
            r == mentor_points(kind),
    {
        match kind {
            MentorshipType::Mentor => 8,
            MentorshipType::Mentee => 3,
        }
    }

    fn cap(value: Measure) -> (r: Measure)
        ensures
            r.units() == capped(value),
    {
        if value.is_at_most(100) {
            value
        } else {
            Measure::whole(100)
        }
    }

    /// Ends a mentorship, if there is one.
    pub fn clear_mentorship(&mut self, other_player_id: u32)
        ensures
            final(self).players@ == if old(self).players@.contains_key(other_player_id) {
                old(self).players@.insert(
                    other_player_id,
                    (PlayerRelation { mentorship: None, ..old(self).players@[other_player_id] }),
                )
            } else {
                old(self).players@
            },
            final(self).staffs == old(self).staffs,
            final(self).groups == old(self).groups,
            final(self).history == old(self).history,
            final(self).chemistry == old(self).chemistry,
    {
        let found = match self.players.get(other_player_id) {
            Some(r) => Some(*r),
            None => None,
        };
        match found {
            Some(r) => {
                let mut relation = r;
                relation.mentorship = None;
                self.players.set(other_player_id, relation);
            },
            None => {},
        }
    }

    /// The favourite teammates, in no particular order.
    pub fn get_favorite_players(&self) -> (r: Vec<u32>)
        ensures
            r@.no_duplicates(),
            forall|k: u32| #[trigger]
                r@.contains(k) <==> self.players@.contains_key(k) && self.players@[k].favorite(),
    {
        self.players.get_favorites()
    }

    /// The disliked teammates, in no particular order.
    pub fn get_disliked_players(&self) -> (r: Vec<u32>)
        ensures
            r@.no_duplicates(),
            forall|k: u32| #[trigger]
                r@.contains(k) <==> self.players@.contains_key(k) && self.players@[k].disliked(),
    {
        self.players.get_disliked()
    }

    /// Whether a teammate is a favourite.
    pub fn is_favorite_player(&self, player_id: u32) -> (r: bool)
        ensures
            r == (self.players@.contains_key(player_id) && self.players@[player_id].favorite()),
    {
        match self.players.get(player_id) {
            Some(r) => r.is_favorite(),
            None => false,
        }
    }

    /// The groups that a person belongs to: the inner circle, exactly where he is in it.
    pub fn get_groups(&self, entity_id: u32) -> (r: Vec<GroupId>)
        ensures
            r@ == self.groups.groups_of(entity_id),
    {
        self.groups.get_entity_groups(entity_id)
    }

    /// A teammate's standing. The inner circle has no leader, so only his own influence counts.
    pub fn get_influence_level(&self, player_id: u32) -> (r: InfluenceLevel)
        requires
            self.wf(),
        ensures
            r == influence_of(
                if self.players@.contains_key(player_id) {
                    self.players@[player_id].influence
                } else {
                    Measure { key: 0 }
                },
            ),
    {
        match self.players.get(player_id) {
            Some(r) => InfluenceLevel::from_value(r.influence),
            None => InfluenceLevel::from_value(Measure { key: 0 }),
        }
    }

    /// The conflicts of the person `subject_id`, whose relations these are, in no particular
    /// order. The inner circle has no rival, so all of them are with teammates.
    pub fn get_potential_conflicts(&self, subject_id: u32) -> (r: Vec<ConflictInfo>)
        requires
            self.wf(),
        ensures
            forall|i: int|
                0 <= i < r@.len() ==> {
                    let c = #[trigger] r@[i];
                    &&& self.players@.contains_key(c.party_b)
                    &&& in_conflict(self.players@[c.party_b])
                    &&& c == (ConflictInfo {
                        party_a: subject_id,
                        party_b: c.party_b,
                        conflict_type: ConflictType::PersonalRivalry,
                        severity: severity_of(self.players@[c.party_b].axes.level),
                    })
                },
            forall|i: int, j: int|
                0 <= i < j < r@.len() ==> (#[trigger] r@[i]).party_b != (#[trigger] r@[j]).party_b,
            forall|k: u32| #[trigger]
                self.players@.contains_key(k) && in_conflict(self.players@[k]) ==> exists|i: int|
                    0 <= i < r@.len() && (#[trigger] r@[i]).party_b == k,
    {
        let keys = self.players.ids();
        let mut out: Vec<ConflictInfo> = Vec::new();
        let mut i: usize = 0;
        while i < keys.len()
            invariant
                lists(keys@, self.players@),
                i <= keys@.len(),
                forall|a: int|
                    0 <= a < out@.len() ==> {
                        let c = #[trigger] out@[a];
                        &&& self.players@.contains_key(c.party_b)
                        &&& in_conflict(self.players@[c.party_b])
                        &&& c == (ConflictInfo {
                            party_a: subject_id,
                            party_b: c.party_b,
                            conflict_type: ConflictType::PersonalRivalry,
                            severity: severity_of(self.players@[c.party_b].axes.level),
                        })
                        &&& exists|j: int| 0 <= j < i && #[trigger] keys@[j] == c.party_b
                    },
                forall|a: int, b: int|
                    0 <= a < b < out@.len() ==> (#[trigger] out@[a]).party_b != (
                    #[trigger] out@[b]).party_b,
                forall|j: int|
                    0 <= j < i && in_conflict(self.players@[#[trigger] keys@[j]]) ==> exists|a: int|
                        0 <= a < out@.len() && (#[trigger] out@[a]).party_b == keys@[j],
            decreases keys@.len() - i,
        {
            let id: u32 = keys[i];
            assert(keys@.contains(id));
            let ghost before = out@;
            match self.players.get(id) {
                Some(rel) => {
                    if rel.is_open_rivalry() || rel.is_disliked() {
                        let info = ConflictInfo {
                            party_a: subject_id,
                            party_b: id,
                            conflict_type: ConflictType::PersonalRivalry,
                            severity: ConflictSeverity::from_relationship_level(rel.axes.level),
                        };
                        assert forall|a: int| 0 <= a < before.len() implies (
                        #[trigger] before[a]).party_b != id by {
                            let j = choose|j: int|
                                0 <= j < i && #[trigger] keys@[j] == before[a].party_b;
                            assert(keys@[j] != keys@[i as int]);
                        }
                        out.push(info);
                        assert(out@[before.len() as int].party_b == id);
                    }
                },
                None => {},
            }
            assert forall|j: int|
                0 <= j < i + 1 && in_conflict(self.players@[#[trigger] keys@[j]]) implies exists|
                a: int,
            |
                0 <= a < out@.len() && (#[trigger] out@[a]).party_b == keys@[j] by {
                if j < i {
                    let a = choose|a: int|
                        0 <= a < before.len() && (#[trigger] before[a]).party_b == keys@[j];
                    assert(out@[a] == before[a]);
                } else {
                    assert(out@[before.len() as int].party_b == id);
                }
            }
            assert forall|a: int| 0 <= a < out@.len() implies exists|j: int|
                0 <= j < i + 1 && #[trigger] keys@[j] == (#[trigger] out@[a]).party_b by {
                if a < before.len() {
                    let j = choose|j: int| 0 <= j < i && #[trigger] keys@[j] == before[a].party_b;
                    assert(keys@[j] == out@[a].party_b);
                } else {
                    assert(keys@[i as int] == out@[a].party_b);
                }
            }
            i = i + 1;
        }
        assert forall|k: u32| #[trigger]
            self.players@.contains_key(k) && in_conflict(self.players@[k]) implies exists|a: int|
            0 <= a < out@.len() && (#[trigger] out@[a]).party_b == k by {
            assert(keys@.contains(k));
            let j = choose|j: int| 0 <= j < keys@.len() && keys@[j] == k;
            assert(in_conflict(self.players@[keys@[j]]));
        }
        out
    }

    /// The chemistry of the team.
    pub fn get_team_chemistry(&self) -> (r: Measure)
        ensures
            r == self.chemistry.overall,
    {
        self.chemistry.overall
    }

    /// The parts of the chemistry.
    pub fn get_chemistry_factors(&self) -> (r: &ChemistryFactors)
        ensures
            *r == self.chemistry.factors,
    {
        &self.chemistry.factors
    }

    /// Takes over what a week's drift made of the relation with a teammate.
    pub fn decay_player(&mut self, player_id: u32, axes: PlayerAxes)
        ensures
            final(self).players@ == if old(self).players@.contains_key(player_id) {
                let before = old(self).players@[player_id];
                old(self).players@.insert(
                    player_id,
                    (PlayerRelation {
                        axes,
                        rivalry_active: before.rivalry_active && rivalry_lasts(
                            axes.rivalry_intensity,
                            axes.level,
                        ),
                        ..before
                    }),
                )
            } else {
                old(self).players@
            },
            final(self).staffs == old(self).staffs,
            final(self).groups == old(self).groups,
            final(self).history == old(self).history,
            final(self).chemistry == old(self).chemistry,
    {
        let found = match self.players.get(player_id) {
            Some(r) => Some(*r),
            None => None,
        };
        match found {
            Some(r) => {
                let mut relation = r;
                relation.apply_decay(axes);
                self.players.set(player_id, relation);
            },
            None => {},
        }
    }

    /// Takes over what a week's drift made of the relation with a member of staff.
    pub fn decay_staff(&mut self, staff_id: u32, axes: StaffRelation)
        ensures
            final(self).staffs@ == if old(self).staffs@.contains_key(staff_id) {
                old(self).staffs@.insert(staff_id, axes)
            } else {
                old(self).staffs@
            },
            final(self).players == old(self).players,
            final(self).groups == old(self).groups,
            final(self).history == old(self).history,
            final(self).chemistry == old(self).chemistry,
    {
        if self.staffs.get(staff_id).is_some() {
            self.staffs.set(staff_id, axes);
        }
    }

    /// Ends a week: the inner circle keeps the cohesion `faded`, old events are dropped, and
    /// the chemistry is what the caller worked out, with no signings to unsettle it.
    pub fn process_weekly_update(
        &mut self,
        date: Date,
        faded: Measure,
        factors: ChemistryFactors,
        overall: Measure,
    )
        requires
            old(self).wf(),
        ensures
            final(self).wf(),
            final(self).players == old(self).players,
            final(self).staffs == old(self).staffs,
            final(self).history.events@ == old(self).history.events@.filter(
                |e: RelationshipEvent| recent_event(e, date),
            ),
            final(self).groups.circle() == if faded.gt_hundredths(10) {
                old(self).groups.circle()
            } else {
                Set::empty()
            },
            final(self).groups.cohesion() == if old(self).groups.cohesion() is Some
                && faded.gt_hundredths(10) {
                Some(faded)
            } else {
                None
            },
            final(self).chemistry == (TeamChemistry { overall, factors, turnover_penalty: 0 }),
    {
        let ghost before = self.groups;
        self.groups.weekly_update(faded);
        assert(self.groups.circle() =~= if faded.gt_hundredths(10) {
            before.circle()
        } else {
            Set::empty()
        });
        self.history.cleanup_old_events(date);
        self.chemistry = TeamChemistry { overall, factors, turnover_penalty: 0 };
    }

    /// Takes over a chemistry that the caller worked out with the squad in view.
    pub fn recalculate_chemistry_with_context(
        &mut self,
        factors: ChemistryFactors,
        overall: Measure,
        recent_signings: u8,
    )
        ensures
            final(self).chemistry == (TeamChemistry {
                overall,
                factors,
                turnover_penalty: turnover_points(recent_signings) as u32,
            }),
            final(self).players == old(self).players,
            final(self).staffs == old(self).staffs,
            final(self).groups == old(self).groups,
            final(self).history == old(self).history,
    {
        let turnover_penalty: u32 = TeamChemistry::turnover_penalty_for(recent_signings);
        self.chemistry = TeamChemistry { overall, factors, turnover_penalty };
    }

    /// The cohesion of the inner circle, kept between 0 and 1; zero where there is none.
    pub fn inner_circle_cohesion(&self) -> (r: Measure)
        ensures
            r.units() == if self.groups.groups@.contains_key(INNER_CIRCLE_GROUP) {
                self.groups.groups@[INNER_CIRCLE_GROUP].cohesion.clamped_units(0, 1)
            } else {
                0
            },
    {
        match self.groups.circle_cohesion() {
            Some(c) => c.clamped(0, 1),
            None => {
                assert(crate::measure::magnitude(0) == 0);
                Measure { key: 0 }
            },
        }
    }
}

/// The points that a mentorship adds to an influence.
pub open spec fn mentor_points(kind: MentorshipType) -> int {
    match kind {
        MentorshipType::Mentor => 8,
        MentorshipType::Mentee => 3,
    }
}

/// A value that does not go past 100.
pub open spec fn capped(value: Measure) -> int {
    if value.le(100) {
        value.units()
    } else {
        100 * crate::measure::one()
    }
}

impl Default for Relations {
    fn default() -> (r: Self)
        ensures
            r.wf(),
            r.players@ == Map::<u32, PlayerRelation>::empty(),
            r.staffs@ == Map::<u32, StaffRelation>::empty(),
            r.groups.groups@ == Map::<u32, Group>::empty(),
            r.groups.circle() == Set::<u32>::empty(),
            r.history.events@ == Seq::<RelationshipEvent>::empty(),
            r.chemistry == TeamChemistry::of_strangers(),
    {
        Relations::new()
    }
}

/// An open rivalry does not flicker: one that was just declared lasts while the friction stays
/// above 30 and the two do not get on, and one that just ended is not declared again until the
/// friction is back at 55.
pub proof fn lemma_rivalry_hysteresis(before: Measure, intensity: Measure, level: Measure)
    ensures
        rivalry_after(false, before, intensity, level) ==> rivalry_after(
            true,
            before,
            intensity,
            level,
        ),
        rivalry_after(false, before, intensity, level) ==> rivalry_lasts(intensity, level),
        !rivalry_lasts(intensity, level) ==> !rivalry_after(false, before, intensity, level),
        !intensity.ge(55) ==> !rivalry_after(false, before, intensity, level),
{
    lemma_thresholds(intensity);
    lemma_thresholds(level);
}

/// One event never declares an open rivalry, however large it is: not between people who had no
/// friction before it, and so not between people who had nothing to do with each other.
pub proof fn lemma_one_event_is_no_rivalry(
    active: bool,
    before: Measure,
    intensity: Measure,
    level: Measure,
)
    ensures
        before.le(0) ==> !rivalry_after(active, before, intensity, level),
        PlayerRelation::neutral().axes.rivalry_intensity.le(0),
        !PlayerRelation::neutral().rivalry_active,
{
    assert(crate::measure::magnitude(0) == 0);
}

/// Competition is no rivalry between people who get on, and no amount of dislike is one without
/// competition.
pub proof fn lemma_rivalry_needs_both(
    active: bool,
    before: Measure,
    intensity: Measure,
    level: Measure,
)
    ensures
        !intensity.ge(30) ==> !rivalry_after(active, before, intensity, level),
        level.ge(15) ==> !rivalry_after(active, before, intensity, level),
{
    lemma_thresholds(intensity);
    lemma_thresholds(level);
}

/// Friction that goes on between people who dislike each other, once it is high enough, is an
/// open rivalry whatever it was before.
pub proof fn lemma_sustained_feud_goes_public(
    active: bool,
    before: Measure,
    intensity: Measure,
    level: Measure,
)
    requires
        !before.le(0),
        intensity.ge(55),
        level.le(-15),
    ensures
        rivalry_after(active, before, intensity, level),
{
    lemma_thresholds(intensity);
    lemma_thresholds(level);
}

/// Nothing that brings people together feeds a feud, and only competition does.
pub proof fn lemma_what_feeds_a_feud(change_type: ChangeType, is_positive: bool)
    ensures
        player_shift(change_type, is_positive).rivalry_intensity > 0 <==> change_type
            is CompetitionRivalry,
        player_shift(change_type, is_positive).rivalry_intensity >= player_shift(
            ChangeType::ConflictResolution,
            is_positive,
        ).rivalry_intensity,
        player_shift(change_type, is_positive).rivalry_intensity < 0 ==> player_shift(
            change_type,
            is_positive,
        ).level > 0,
{
}

/// Everyone starts neutral: neither liked nor disliked, and in no conflict.
pub proof fn lemma_neutral_relations()
    ensures
        !PlayerRelation::neutral().favorite(),
        !PlayerRelation::neutral().disliked(),
        PlayerRelation::neutral().conflict() == 0,
        !StaffRelation::neutral().favorite(),
        !StaffRelation::neutral().disliked(),
        StaffRelation::neutral().conflict() == 0,
        (Measure { key: FIFTY }).units() == 50 * crate::measure::one(),
        (Measure { key: THIRTY }).units() == 30 * crate::measure::one(),
        (Measure { key: 0 }).units() == 0,
{
    crate::measure::lemma_one_positive();
    let o = crate::measure::one();
    lemma_named_keys();
    assert(crate::measure::magnitude(0) == 0);
    assert(0 < 70 * o && 0 > -50 * o && 0 > -75 * o && 50 * o > 20 * o && 30 * o < 70 * o)
        by (nonlinear_arith)
        requires
            o > 0,
    ;
}

proof fn lemma_named_keys()
    ensures
        (Measure { key: FIFTY }).units() == 50 * crate::measure::one(),
        (Measure { key: THIRTY }).units() == 30 * crate::measure::one(),
{
    use_pow2();
    let p = vstd::arithmetic::power2::pow2(131) as int;
    let q = vstd::arithmetic::power2::pow2(130) as int;
    assert(FIFTY as int / 0x0080_0000 == 132);
    assert(FIFTY as int % 0x0080_0000 == 0x48_0000);
    assert((0x0080_0000 + 0x48_0000) * p == 50 * (0x4_0000 * p)) by (nonlinear_arith);
    assert(THIRTY as int / 0x0080_0000 == 131);
    assert(THIRTY as int % 0x0080_0000 == 0x70_0000);
    assert((0x0080_0000 + 0x70_0000) * q == 30 * (0x8_0000 * q)) by (nonlinear_arith);
}

proof fn use_pow2()
    ensures
        0x4_0000 * vstd::arithmetic::power2::pow2(131) == crate::measure::one(),
        0x8_0000 * vstd::arithmetic::power2::pow2(130) == crate::measure::one(),
{
    vstd::arithmetic::power2::lemma2_to64();
    vstd::arithmetic::power2::lemma_pow2_adds(18, 131);
    vstd::arithmetic::power2::lemma_pow2_adds(19, 130);
}

/// The inner circle is stable between 40 and 60: who is in stays in, and who is out stays out.
pub proof fn lemma_circle_is_stable(members: Set<u32>, person: u32, other: u32, level: Measure)
    requires
        other != person,
    ensures
        level.ge(60) ==> circle_after(members, person, level).contains(person),
        !level.ge(40) ==> !circle_after(members, person, level).contains(person),
        level.ge(40) && !level.ge(60) ==> circle_after(members, person, level) == members,
        circle_after(members, person, level).contains(other) == members.contains(other),
{
    crate::measure::lemma_one_positive();
    let o = crate::measure::one();
    assert(60 * o >= 40 * o) by (nonlinear_arith)
        requires
            o > 0,
    ;
}

/// Whether an event between teammates brings them together by its nature.
pub open spec fn brings_together(c: ChangeType) -> bool {
    c is MatchCooperation || c is TrainingBonding || c is ConflictResolution || c is PersonalSupport
        || c is ReputationAdmiration
}

/// Whether an event between teammates sets them apart by its nature.
pub open spec fn sets_apart(c: ChangeType) -> bool {
    c is CompetitionRivalry || c is TrainingFriction || c is PersonalConflict
        || c is ReputationTension
}

/// No event that sets people apart raises any side of their relation, and each lowers the level;
/// every event that brings them together raises the level and lowers no side; and any other event
/// moves the level alone, by as much as it says and in its own direction. What an event does by its
/// nature it does whether or not it is called a good one.
pub proof fn lemma_events_move_relations(c: ChangeType, is_positive: bool)
    ensures
        ({
            let s = player_shift(c, is_positive);
            &&& sets_apart(c) ==> s.level < 0 && s.trust <= 0 && s.respect <= 0 && s.friendship <= 0
                && s.professional_respect <= 0 && s.rivalry_intensity >= 0
            &&& brings_together(c) ==> s.level > 0 && s.trust >= 0 && s.respect >= 0 && s.friendship
                >= 0 && s.professional_respect >= 0 && s.rivalry_intensity <= 0
            &&& sets_apart(c) || brings_together(c) ==> s == player_shift(c, !is_positive)
            &&& !sets_apart(c) && !brings_together(c) ==> s.level == (if is_positive {
                2int
            } else {
                -2
            }) && s.trust == 0 && s.respect == 0 && s.friendship == 0 && s.professional_respect == 0
                && s.rivalry_intensity == 0
        }),
{
}

/// How much an event moves each side of a relation between teammates, in halves of its magnitude,
/// and which events move it at all. A personal conflict costs most, and support brings friendship
/// most; clearing the air builds trust and ends feuds.
pub proof fn lemma_how_far_events_go(c: ChangeType, is_positive: bool)
    ensures
        ({
            let s = player_shift(c, is_positive);
            &&& s.trust == 6 <==> c is ConflictResolution || c is PersonalSupport
            &&& s.trust == 3 <==> c is MatchCooperation
            &&& s.trust == -1 <==> c is TrainingFriction
            &&& s.trust == -4 <==> c is PersonalConflict
            &&& s.trust == 0 <==> !(c is MatchCooperation || c is ConflictResolution
                || c is PersonalSupport || c is TrainingFriction || c is PersonalConflict)
            &&& s.respect == 6 <==> c is ReputationAdmiration
            &&& s.respect == 4 <==> c is ConflictResolution
            &&& s.respect == -2 <==> c is ReputationTension
            &&& s.respect == 0 <==> !(c is ConflictResolution || c is ReputationAdmiration
                || c is ReputationTension)
            &&& s.friendship == 8 <==> c is PersonalSupport
            &&& s.friendship == 4 <==> c is TrainingBonding
            &&& s.friendship == -6 <==> c is PersonalConflict
            &&& s.friendship == 0 <==> !(c is TrainingBonding || c is PersonalSupport
                || c is PersonalConflict)
            &&& s.professional_respect == 6 <==> c is MatchCooperation
            &&& s.professional_respect == 4 <==> c is ReputationAdmiration
            &&& s.professional_respect == -1 <==> c is ReputationTension
            &&& s.professional_respect == -2 <==> c is CompetitionRivalry
            &&& s.professional_respect == 0 <==> !(c is MatchCooperation
                || c is CompetitionRivalry || c is ReputationAdmiration || c is ReputationTension)
            &&& s.rivalry_intensity == 16 <==> c is CompetitionRivalry
            &&& s.rivalry_intensity == -4 <==> c is TrainingBonding
            &&& s.rivalry_intensity == -6 <==> c is MatchCooperation
            &&& s.rivalry_intensity == -12 <==> c is PersonalSupport
            &&& s.rivalry_intensity == -20 <==> c is ConflictResolution
            &&& s.rivalry_intensity == 0 <==> !(c is MatchCooperation || c is TrainingBonding
                || c is ConflictResolution || c is PersonalSupport || c is CompetitionRivalry)
            &&& c is MatchCooperation || c is ConflictResolution
                || c is PersonalSupport ==> s.level == 4
            &&& c is ReputationAdmiration ==> s.level == 3
            &&& c is TrainingBonding ==> s.level == 2
            &&& c is TrainingFriction ==> s.level == -2
            &&& c is ReputationTension ==> s.level == -3
            &&& c is CompetitionRivalry ==> s.level == -4
            &&& c is PersonalConflict ==> s.level == -6
        }),
{
}

/// What moves the relation with a member of staff. Success builds trust and openness; a quarrel
/// over tactics costs authority and openness; support binds; a fair sanction costs the bond but
/// not the respect. Anything else moves the level alone, in its own direction.
pub proof fn lemma_events_move_staff(c: ChangeType, is_positive: bool)
    ensures
        ({
            let s = staff_shift(c, is_positive);
            &&& s.authority_respect == 2 <==> c is DisciplinaryAction
            &&& s.authority_respect == -4 <==> c is TacticalDisagreement
            &&& s.authority_respect == 0 <==> !(c is TacticalDisagreement
                || c is DisciplinaryAction)
            &&& s.trust_in_abilities == 6 <==> c is CoachingSuccess
            &&& s.trust_in_abilities == 0 <==> !(c is CoachingSuccess)
            &&& s.personal_bond == 8 <==> c is PersonalSupport
            &&& s.personal_bond == -4 <==> c is DisciplinaryAction
            &&& s.personal_bond == 0 <==> !(c is PersonalSupport || c is DisciplinaryAction)
            &&& s.receptiveness == 4 <==> c is CoachingSuccess
            &&& s.receptiveness == -6 <==> c is TacticalDisagreement
            &&& s.receptiveness == 0 <==> !(c is CoachingSuccess || c is TacticalDisagreement)
            &&& s.loyalty == 6 <==> c is PersonalSupport
            &&& s.loyalty == 0 <==> !(c is PersonalSupport)
            &&& c is CoachingSuccess || c is PersonalSupport ==> s.level == 4
            &&& c is TacticalDisagreement || c is DisciplinaryAction ==> s.level == -2
            &&& !(c is CoachingSuccess || c is TacticalDisagreement || c is PersonalSupport
                || c is DisciplinaryAction) ==> s.level == (if is_positive {
                2int
            } else {
                -2
            })
        }),
{
}

/// Where a relation drifts that nobody feeds: to a neutral level, to middling trust and respect,
/// to little friendship, to no feud. The level and the friendship drift only without contact, and
/// a feud cools twice as fast then; of the rest, contact is forgotten fastest and the respect of a
/// colleague slowest.
pub proof fn lemma_relations_drift(r: PlayerRelation)
    ensures
        ({
            let d = r.drift();
            let distant = r.axes.interaction_frequency.lt_hundredths(30);
            &&& d.level is Some <==> distant
            &&& d.friendship is Some <==> distant
            &&& distant ==> d.level->0.neutral == 0 && d.friendship->0.neutral == 20
            &&& d.trust.neutral == 50 && d.respect.neutral == 50 && d.professional_respect.neutral
                == 50
            &&& d.rivalry_intensity.neutral == 0 && d.interaction_frequency.neutral == 0
                && d.momentum.neutral == 0
            &&& distant ==> 1000 - d.level->0.retention == 20 && 1000 - d.friendship->0.retention
                == 25
            &&& 1000 - d.trust.retention == 8 && 1000 - d.respect.retention == 6 && 1000
                - d.professional_respect.retention == 4
            &&& 1000 - d.interaction_frequency.retention == 100 && 1000 - d.momentum.retention == 50
            &&& 1000 - d.rivalry_intensity.retention == if distant {
                50int
            } else {
                25
            }
        }),
{
}

/// Where a relation with a member of staff drifts: the same way, week by week, whatever the
/// contact. The bond fades fastest, trust in what he can do slowest.
pub proof fn lemma_staff_relations_drift(i: int)
    requires
        0 <= i < staff_drift().len(),
    ensures
        staff_drift().len() == 6,
        i == 0 <==> staff_drift()[i].neutral == 0,
        i == 1 || i == 2 || i == 4 <==> staff_drift()[i].neutral == 50,
        i == 3 || i == 5 <==> staff_drift()[i].neutral == 30,
        i == 0 <==> 1000 - staff_drift()[i].retention == 15,
        i == 1 <==> 1000 - staff_drift()[i].retention == 7,
        i == 2 <==> 1000 - staff_drift()[i].retention == 5,
        i == 3 <==> 1000 - staff_drift()[i].retention == 20,
        i == 4 <==> 1000 - staff_drift()[i].retention == 8,
        i == 5 <==> 1000 - staff_drift()[i].retention == 10,
{
}

/// Who is a favourite and who is disliked: a favourite needs both a level and trust, or the loyalty
/// of staff, of 70; a dislike takes a level of -50, or 20 in trust or respect. Nobody is both, and
/// neither is lost by getting on better or gained by getting on worse.
pub proof fn lemma_likes_and_dislikes(p: PlayerRelation, s: StaffRelation)
    ensures
        ({
            let one = crate::measure::one();
            &&& p.favorite() <==> p.axes.level.units() >= 70 * one && p.axes.trust.units() >= 70
                * one
            &&& p.disliked() <==> p.axes.level.units() <= -50 * one || p.axes.trust.units() <= 20
                * one
            &&& s.favorite() <==> s.level.units() >= 70 * one && s.loyalty.units() >= 70 * one
            &&& s.disliked() <==> s.level.units() <= -50 * one || s.authority_respect.units() <= 20
                * one
            &&& !(p.favorite() && p.disliked())
        }),
{
    crate::measure::lemma_one_positive();
}

/// What a relation adds to the conflicts of a dressing room: nothing where nobody is disliked and
/// no rivalry is open, more the lower the level, and six points for an open rivalry on top.
pub proof fn lemma_conflict_points(p: PlayerRelation, s: StaffRelation)
    ensures
        ({
            let one = crate::measure::one();
            let level = p.axes.level.units();
            let quarrel = p.conflict() - if p.rivalry_active {
                6int
            } else {
                0
            };
            &&& quarrel == 25 <==> level <= -75 * one
            &&& quarrel == 15 <==> -75 * one < level <= -50 * one
            &&& quarrel == 8 <==> level > -50 * one && p.axes.trust.units() <= 20 * one
            &&& quarrel == 0 <==> level > -50 * one && p.axes.trust.units() > 20 * one
            &&& s.conflict() == 18 <==> s.level.units() <= -75 * one
            &&& s.conflict() == 10 <==> -75 * one < s.level.units() <= -50 * one
            &&& s.conflict() == 5 <==> s.level.units() > -50 * one && s.authority_respect.units()
                <= 20 * one
            &&& in_conflict(p) <==> p.conflict() > 0
        }),
{
    crate::measure::lemma_one_positive();
}

/// When an open rivalry lasts, and when one is declared: it lasts from a friction of 30 while the
/// level is below 15, and it is declared from a friction of 55 at a level of -15 or below.
pub proof fn lemma_rivalry_bounds(before: Measure, intensity: Measure, level: Measure)
    ensures
        ({
            let one = crate::measure::one();
            &&& rivalry_lasts(intensity, level) <==> intensity.units() >= 30 * one && level.units()
                < 15 * one
            &&& rivalry_after(false, before, intensity, level) <==> before.units() > 0
                && intensity.units() >= 55 * one && level.units() <= -15 * one
            &&& rivalry_after(true, before, intensity, level) <==> before.units() > 0
                && intensity.units() >= 30 * one && level.units() < 15 * one
        }),
{
    assert(0 * crate::measure::one() == 0);
}

/// How bad a conflict is and how much someone has to say, by the level: no worse conflict on a
/// better level, and no lower standing with more influence.
pub proof fn lemma_grades(m: Measure)
    ensures
        ({
            let one = crate::measure::one();
            &&& severity_of(m) is Critical <==> m.units() <= -75 * one
            &&& severity_of(m) is Critical || severity_of(m) is Serious <==> m.units() <= -50 * one
            &&& severity_of(m) is Minor <==> m.units() > -25 * one
            &&& influence_of(m) is KeyPlayer <==> m.units() >= 80 * one
            &&& influence_of(m) is KeyPlayer || influence_of(m) is Influential <==> m.units() >= 60
                * one
            &&& influence_of(m) is Peripheral <==> m.units() < 30 * one
        }),
{
    crate::measure::lemma_one_positive();
}

/// What new faces cost a dressing room: more with each of the steps, and nothing without any.
pub proof fn lemma_turnover(n: u8, more: u8)
    requires
        n <= more,
    ensures
        turnover_points(n) <= turnover_points(more),
        turnover_points(n) == 0 <==> n == 0,
        turnover_points(n) == 2 <==> n == 1,
        turnover_points(n) == 5 <==> 2 <= n <= 3,
        turnover_points(n) == 10 <==> 4 <= n <= 6,
        turnover_points(n) == 18 <==> n >= 7,
{
}

/// How the leaders of a dressing room count: the first half as much again and the second a fifth
/// more than any other, and influence less than half as much as leadership.
pub proof fn lemma_leaders(place: int)
    requires
        place >= 0,
    ensures
        2 * leader_weights(0).0 == 3 * leader_weights(place + 2).0,
        5 * leader_weights(1).0 == 6 * leader_weights(place + 2).0,
        leader_weights(place + 2) == (10int, 4int),
        leader_weights(0).1 == leader_weights(1).1 + 1 && leader_weights(1).1 == leader_weights(
            place + 2,
        ).1 + 1,
        2 * leader_weights(place).1 < leader_weights(place).0,
{
}

/// What a mentorship adds to an influence: more for the mentor, by five points, and something for
/// either.
pub proof fn lemma_mentors_gain(kind: MentorshipType)
    ensures
        mentor_points(MentorshipType::Mentor) == mentor_points(MentorshipType::Mentee) + 5,
        mentor_points(kind) == 3 <==> kind is Mentee,
        mentor_points(kind) == 8 <==> kind is Mentor,
{
}

/// How long events are kept: for less than a year, and never more than a hundred of them.
pub proof fn lemma_memory(e: RelationshipEvent, today: Date, h: RelationshipHistory)
    ensures
        recent_event(e, today) <==> today.days - e.date.days < 365,
        h.wf() <==> h.events@.len() <= 100,
{
}

/// What the relation of two strangers is: a level of zero, middling trust and respect, some
/// friendship, and neither feud nor contact.
pub proof fn lemma_strangers()
    ensures
        ({
            let p = PlayerRelation::neutral();
            let s = StaffRelation::neutral();
            let one = crate::measure::one();
            &&& p.axes.level.units() == 0 && p.axes.rivalry_intensity.units() == 0
                && p.axes.interaction_frequency.units() == 0 && p.axes.momentum.units() == 0
                && p.influence.units() == 0
            &&& p.axes.trust.units() == 50 * one && p.axes.respect.units() == 50 * one
                && p.axes.professional_respect.units() == 50 * one
            &&& p.axes.friendship.units() == 30 * one
            &&& p.mentorship is None && !p.rivalry_active
            &&& s.level.units() == 0 && s.authority_respect.units() == 50 * one
                && s.trust_in_abilities.units() == 50 * one && s.receptiveness.units() == 50 * one
            &&& s.personal_bond.units() == 30 * one && s.loyalty.units() == 30 * one
            &&& TeamChemistry::of_strangers().overall.units() == 50 * one
            &&& TeamChemistry::of_strangers().turnover_penalty == 0
        }),
{
    lemma_neutral_relations();
}

/// The ranges of a relation: the level from -100 to 100, every other side and the friction from 0 to
/// 100, the momentum from -1 to 1, and contact up to 1. What lies within is kept as it is.
pub proof fn lemma_ranges_of_a_relation(kept: PlayerAxes, raw: PlayerAxes)
    requires
        in_range_of(kept, raw),
    ensures
        ({
            let one = crate::measure::one();
            &&& -100 * one <= kept.level.units() <= 100 * one
            &&& 0 <= kept.trust.units() <= 100 * one && 0 <= kept.respect.units() <= 100 * one
            &&& 0 <= kept.friendship.units() <= 100 * one && 0 <= kept.professional_respect.units()
                <= 100 * one
            &&& 0 <= kept.rivalry_intensity.units() <= 100 * one
            &&& -one <= kept.momentum.units() <= one && kept.interaction_frequency.units() <= one
            &&& -100 * one <= raw.level.units() <= 100 * one ==> kept.level.units()
                == raw.level.units()
            &&& 0 <= raw.trust.units() <= 100 * one ==> kept.trust.units() == raw.trust.units()
            &&& 0 <= raw.respect.units() <= 100 * one ==> kept.respect.units() == raw.respect.units()
            &&& 0 <= raw.friendship.units() <= 100 * one ==> kept.friendship.units()
                == raw.friendship.units()
            &&& 0 <= raw.professional_respect.units() <= 100 * one
                ==> kept.professional_respect.units() == raw.professional_respect.units()
            &&& 0 <= raw.rivalry_intensity.units() <= 100 * one ==> kept.rivalry_intensity.units()
                == raw.rivalry_intensity.units()
            &&& -one <= raw.momentum.units() <= one ==> kept.momentum.units() == raw.momentum.units()
            &&& raw.interaction_frequency.units() <= one ==> kept.interaction_frequency.units()
                == raw.interaction_frequency.units()
        }),
{
    crate::measure::lemma_one_positive();
    assert(0 * crate::measure::one() == 0);
    assert(-1 * crate::measure::one() == -crate::measure::one());
}

/// A relation is in order where every side is within its range, and an open rivalry has what it
/// takes to last.
pub proof fn lemma_relations_in_order(r: PlayerRelation)
    ensures
        ({
            let one = crate::measure::one();
            r.settled() <==> {
                &&& -100 * one <= r.axes.level.units() <= 100 * one
                &&& 0 <= r.axes.trust.units() <= 100 * one
                &&& 0 <= r.axes.respect.units() <= 100 * one
                &&& 0 <= r.axes.friendship.units() <= 100 * one
                &&& 0 <= r.axes.professional_respect.units() <= 100 * one
                &&& 0 <= r.axes.rivalry_intensity.units() <= 100 * one
                &&& r.rivalry_active ==> r.axes.rivalry_intensity.units() >= 30 * one
                    && r.axes.level.units() < 15 * one
            }
        }),
{
    assert(0 * crate::measure::one() == 0);
}

/// What does not go past 100 is the value itself up to there.
pub proof fn lemma_cap(value: Measure)
    ensures
        capped(value) <= 100 * crate::measure::one(),
        value.units() <= 100 * crate::measure::one() ==> capped(value) == value.units(),
        value.units() >= 100 * crate::measure::one() ==> capped(value) == 100
            * crate::measure::one(),
{
}

/// What a history remembers: the new event last, and of the others all but the oldest, which is
/// dropped where there are a hundred already.
pub proof fn lemma_what_is_remembered(events: Seq<RelationshipEvent>, e: RelationshipEvent, i: int)
    requires
        events.len() <= 100,
    ensures
        ({
            let after = remembered(events, e);
            &&& after.last() == e
            &&& events.len() < 100 ==> after.len() == events.len() + 1
            &&& events.len() == 100 ==> after.len() == 100
            &&& events.len() < 100 && 0 <= i < events.len() ==> after[i] == events[i]
            &&& events.len() == 100 && 1 <= i < 100 ==> after[i - 1] == events[i]
        }),
{
}

} // verus!
