//! The surroundings of a move: a small name at a big club, or a big name at a
//! small one.
//!
//! Each story that a move can tell is a candidate with a gate. On the first day
//! one headline and one addition are told, with what stands apart from both; in
//! the weeks after it, one story a week.

use crate::date::Date;
use crate::happiness::{
    HappinessEventCause, HappinessEventContext, HappinessEventEvidence, HappinessEventFollowUp,
    HappinessEventScope, HappinessEventType, PlayerHappiness,
};
#[allow(unused_imports)]
use crate::happiness::{ContextView, EventView};
use crate::measure::Measure;
use crate::noise::{mix, slice_of, to_word};
use crate::plan::HIGH_FEE;
use crate::player::{PendingSigning, Player};
#[allow(unused_imports)]
use vstd::prelude::*;

verus! {

/// What a move looks like from outside, right after it.
#[derive(Clone, Copy, Debug, PartialEq, Eq, Structural)]
pub struct TransferEnvironmentProfile {
    pub source_club_rep: u16,
    pub dest_club_rep: u16,
    pub source_league_rep: u16,
    pub dest_league_rep: u16,
    pub player_world_rep: i16,
    pub player_current_rep: i16,
    pub player_ca: u8,
    pub age: u8,
    /// Whether the fee was ten million or more.
    pub high_fee: bool,
    pub is_loan: bool,
    pub destination_is_favorite: bool,
    pub dest_position_depth_rank: Option<u8>,
    pub source_is_rival: bool,
    pub ambition: Measure,
    pub pressure: Measure,
    pub professionalism: Measure,
    pub loyalty: Measure,
}

/// The part that a story plays.
#[derive(Clone, Copy, Debug, PartialEq, Eq, Structural)]
pub enum EnvRole {
    /// The headline; one on the first day.
    Primary,
    /// An addition to the headline; one on the first day.
    Flavor,
    /// A story of its own.
    Universal,
}

/// What scales the base value of a story.
#[derive(Clone, Copy, Debug, PartialEq, Eq, Structural)]
pub enum MagnitudeFactor {
    One,
    /// So many hundredths.
    Percent(u32),
    /// More for an ambitious player: from 0.85 at no ambition to 1.30 at twenty.
    Ambition,
    /// Less for a professional player: from 1.00 at no professionalism to 0.65 at twenty.
    Professionalism,
}

/// How strongly a story weighs: the base value of its event times two factors. Where they are
/// joint they are multiplied before the base value, otherwise one after the other.
#[derive(Clone, Copy, Debug, PartialEq, Eq, Structural)]
pub struct MagnitudeRule {
    pub first: MagnitudeFactor,
    pub second: MagnitudeFactor,
    pub joint: bool,
}

/// A story that may be told.
#[derive(Debug)]
pub struct EnvCandidate {
    pub event_type: HappinessEventType,
    pub magnitude: MagnitudeRule,
    pub context: HappinessEventContext,
    pub role: EnvRole,
    /// The higher one is preferred.
    pub priority: u8,
    pub cooldown_days: u16,
}

/// The content of an [`EnvCandidate`].
pub struct CandidateView {
    pub event_type: HappinessEventType,
    pub magnitude: MagnitudeRule,
    pub context: ContextView,
    pub role: EnvRole,
    pub priority: u8,
    pub cooldown_days: u16,
}

impl View for EnvCandidate {
    type V = CandidateView;

    open spec fn view(&self) -> CandidateView {
        CandidateView {
            event_type: self.event_type,
            magnitude: self.magnitude,
            context: self.context@,
            role: self.role,
            priority: self.priority,
            cooldown_days: self.cooldown_days,
        }
    }
}

/// The content of a candidate, where there is one.
pub open spec fn seen(c: Option<EnvCandidate>) -> Option<CandidateView> {
    match c {
        Some(c) => Some(c@),
        None => None,
    }
}

/// The company that a player has in the squad.
#[derive(Clone, Copy, Debug, PartialEq, Eq, Structural)]
pub struct SocialSignals {
    pub same_language_teammates: u8,
    pub same_nationality_teammates: u8,
}

impl SocialSignals {
    /// Whether there is anybody to hold on to.
    pub open spec fn anchored(self) -> bool {
        self.same_language_teammates >= 1 || self.same_nationality_teammates >= 1
    }

    /// Whether there is anybody to hold on to.
    pub fn has_support_anchor(&self) -> (r: bool)
        ensures
            r == self.anchored(),
    {
        self.same_language_teammates >= 1 || self.same_nationality_teammates >= 1
    }
}

/// How the age scales the chance of a big club: up to 23 by 1.20, from 30 by 0.85.
pub open spec fn top_club_age_factor(age: int) -> MagnitudeFactor {
    if age <= 23 {
        MagnitudeFactor::Percent(120)
    } else if age >= 30 {
        MagnitudeFactor::Percent(85)
    } else {
        MagnitudeFactor::One
    }
}

/// How the age scales the chance of a big club.
pub fn age_amplifier_for_top_club(age: u8) -> (r: MagnitudeFactor)
    ensures
        r == top_club_age_factor(age as int),
{
    if age <= 23 {
        MagnitudeFactor::Percent(120)
    } else if age >= 30 {
        MagnitudeFactor::Percent(85)
    } else {
        MagnitudeFactor::One
    }
}

/// A factor that counts only where the condition holds.
pub open spec fn percent_when(holds: bool, percent: u32) -> MagnitudeFactor {
    if holds {
        MagnitudeFactor::Percent(percent)
    } else {
        MagnitudeFactor::One
    }
}

/// A factor that counts only where the condition holds.
fn percent_if(holds: bool, percent: u32) -> (r: MagnitudeFactor)
    ensures
        r == percent_when(holds, percent),
{
    if holds {
        MagnitudeFactor::Percent(percent)
    } else {
        MagnitudeFactor::One
    }
}

/// A reputation, kept on the scale from 0 to 10000.
pub open spec fn on_scale(reputation: int) -> int {
    if reputation < 0 {
        0
    } else if reputation > 10000 {
        10000
    } else {
        reputation
    }
}

impl TransferEnvironmentProfile {
    /// By how much the new club's reputation exceeds the old one's.
    pub open spec fn club_gap(self) -> int {
        self.dest_club_rep - self.source_club_rep
    }

    /// By how much the new league's reputation exceeds the old one's.
    pub open spec fn league_gap(self) -> int {
        self.dest_league_rep - self.source_league_rep
    }

    /// By how much the player's reputation exceeds the club's.
    pub open spec fn above_club(self) -> int {
        self.player_world_rep - self.dest_club_rep
    }

    /// The ability that the new league asks for: a sixtieth of its reputation, from 45 to 175.
    pub open spec fn expected_ca(self) -> int {
        let share = self.dest_league_rep as int / 60;
        if share < 45 {
            45
        } else if share > 175 {
            175
        } else {
            share
        }
    }

    /// By how much the player's ability exceeds what the league asks for.
    pub open spec fn above_tier(self) -> int {
        self.player_ca - self.expected_ca()
    }

    /// How much of a stage the move is, in millionths: half of it the club, three tenths the
    /// league, two tenths the player's own name.
    pub open spec fn pressure_millionths(self) -> int {
        50 * on_scale(self.dest_club_rep as int) + 30 * on_scale(self.dest_league_rep as int) + 20
            * on_scale(self.player_current_rep as int)
    }

    /// How much of a step up the move is, in millionths.
    pub open spec fn step_up_millionths(self) -> int {
        45 * self.club_gap() + 35 * self.league_gap() + 2000 * self.above_tier()
    }

    /// Whether a small name came to a big club.
    pub open spec fn weak_at_elite(self) -> bool {
        &&& self.dest_club_rep >= 7500
        &&& self.club_gap() >= 2500 || self.league_gap() >= 2000
        &&& self.player_ca < self.expected_ca() - 15 || self.player_world_rep < self.dest_club_rep
            - 2500
    }

    /// Whether a big name came to a small club.
    pub open spec fn star_at_weak(self) -> bool {
        self.above_club() >= 3000 || self.above_tier() >= 35
    }

    /// Whether the player is so far down the order in his position.
    pub open spec fn deep(self, rank: int) -> bool {
        self.dest_position_depth_rank is Some && self.dest_position_depth_rank->0 >= rank
    }

    /// Looks at a signing. `dest_club_rep` is the reputation of the new club, cut to a whole
    /// number, as `fee` is the fee.
    pub fn build(
        player: &Player,
        age: u8,
        pending: &PendingSigning,
        dest_club_rep: u16,
        dest_league_rep: u16,
        fee: u64,
    ) -> (r: Self)
        ensures
            r == (TransferEnvironmentProfile {
                source_club_rep: pending.source_club_reputation,
                dest_club_rep,
                source_league_rep: pending.source_league_reputation,
                dest_league_rep,
                player_world_rep: player.player_attributes.world_reputation,
                player_current_rep: player.player_attributes.current_reputation,
                player_ca: player.player_attributes.current_ability,
                age,
                high_fee: fee >= HIGH_FEE,
                is_loan: pending.is_loan,
                destination_is_favorite: player.favorite_clubs@.contains(
                    pending.destination_club_id,
                ),
                dest_position_depth_rank: pending.dest_position_depth_rank,
                source_is_rival: pending.source_is_rival,
                ambition: player.attributes.ambition,
                pressure: player.attributes.pressure,
                professionalism: player.attributes.professionalism,
                loyalty: player.attributes.loyalty,
            }),
    {
        TransferEnvironmentProfile {
            source_club_rep: pending.source_club_reputation,
            dest_club_rep,
            source_league_rep: pending.source_league_reputation,
            dest_league_rep,
            player_world_rep: player.player_attributes.world_reputation,
            player_current_rep: player.player_attributes.current_reputation,
            player_ca: player.player_attributes.current_ability,
            age,
            high_fee: fee >= HIGH_FEE,
            is_loan: pending.is_loan,
            destination_is_favorite: player.is_favorite_club(pending.destination_club_id),
            dest_position_depth_rank: pending.dest_position_depth_rank,
            source_is_rival: pending.source_is_rival,
            ambition: player.attributes.ambition,
            pressure: player.attributes.pressure,
            professionalism: player.attributes.professionalism,
            loyalty: player.attributes.loyalty,
        }
    }

    /// By how much the new club's reputation exceeds the old one's.
    pub fn club_rep_gap(&self) -> (r: i32)
        ensures
            r == self.club_gap(),
    {
        self.dest_club_rep as i32 - self.source_club_rep as i32
    }

    /// By how much the new league's reputation exceeds the old one's.
    pub fn league_rep_gap(&self) -> (r: i32)
        ensures
            r == self.league_gap(),
    {
        self.dest_league_rep as i32 - self.source_league_rep as i32
    }

    /// By how much the player's reputation exceeds the club's.
    pub fn player_vs_dest_club(&self) -> (r: i32)
        ensures
            r == self.above_club(),
    {
        self.player_world_rep as i32 - self.dest_club_rep as i32
    }

    /// The ability that the new league asks for.
    pub fn expected_ca_for_dest(&self) -> (r: i32)
        ensures
            r == self.expected_ca(),
            45 <= r <= 175,
    {
        let share: i32 = (self.dest_league_rep / 60) as i32;
        if share < 45 {
            45
        } else if share > 175 {
            175
        } else {
            share
        }
    }

    /// By how much the player's ability exceeds what the league asks for.
    pub fn ability_vs_dest_tier(&self) -> (r: i32)
        ensures
            r == self.above_tier(),
    {
        self.player_ca as i32 - self.expected_ca_for_dest()
    }

    /// How much of a step up the move is, in millionths: positive up, negative down.
    pub fn step_up_score(&self) -> (r: i64)
        ensures
            r == self.step_up_millionths(),
    {
        45 * self.club_rep_gap() as i64 + 35 * self.league_rep_gap() as i64 + 2000
            * self.ability_vs_dest_tier() as i64
    }

    /// How much of a stage the move is, in millionths, from nothing to a million.
    pub fn pressure_score(&self) -> (r: u32)
        ensures
            r == self.pressure_millionths(),
            r <= 1_000_000,
    {
        let club: u32 = if self.dest_club_rep > 10000 {
            10000
        } else {
            self.dest_club_rep as u32
        };
        let league: u32 = if self.dest_league_rep > 10000 {
            10000
        } else {
            self.dest_league_rep as u32
        };
        let name: u32 = if self.player_current_rep < 0 {
            0
        } else if self.player_current_rep > 10000 {
            10000
        } else {
            self.player_current_rep as u32
        };
        50 * club + 30 * league + 20 * name
    }

    /// Whether a small name came to a big club.
    pub fn is_weak_player_at_elite_club(&self) -> (r: bool)
        ensures
            r == self.weak_at_elite(),
    {
        if self.dest_club_rep < 7500 {
            return false;
        }
        if !(self.club_rep_gap() >= 2500 || self.league_rep_gap() >= 2000) {
            return false;
        }
        (self.player_ca as i32) < self.expected_ca_for_dest() - 15 || (self.player_world_rep as i32)
            < self.dest_club_rep as i32 - 2500
    }

    /// Whether a big name came to a small club.
    pub fn is_star_at_weak_club(&self) -> (r: bool)
        ensures
            r == self.star_at_weak(),
    {
        self.player_vs_dest_club() >= 3000 || self.ability_vs_dest_tier() >= 35
    }

    /// Whether the player is so far down the order in his position.
    fn is_deep(&self, rank: u8) -> (r: bool)
        ensures
            r == self.deep(rank as int),
    {
        match self.dest_position_depth_rank {
            Some(r) => r >= rank,
            None => false,
        }
    }

    /// The chance of a big club, for a player who comes up to it.
    pub open spec fn top_club_opportunity(self) -> Option<CandidateView> {
        Some(
            CandidateView {
                event_type: HappinessEventType::TopClubOpportunity,
                magnitude: MagnitudeRule {
                    first: top_club_age_factor(self.age as int),
                    second: MagnitudeFactor::Ambition,
                    joint: false,
                },
                context: ContextView::bare(
                    HappinessEventCause::ReputationAdmiration,
                    HappinessEventScope::Personal,
                ).evidence(
                    HappinessEventEvidence::JoinedEliteClub,
                ).evidence(
                    HappinessEventEvidence::ReputationGap,
                ).follow_up(
                    HappinessEventFollowUp::PressureBuilding,
                ),
                role: EnvRole::Primary,
                priority: 90,
                cooldown_days: 120,
            },
        )
    }

    /// The chance of a big club, for a player who comes up to it.
    pub fn top_club_opportunity_candidate(&self) -> (r: Option<EnvCandidate>)
        ensures
            seen(r) == self.top_club_opportunity(),
    {
        Some(
            EnvCandidate {
                event_type: HappinessEventType::TopClubOpportunity,
                magnitude: MagnitudeRule {
                    first: age_amplifier_for_top_club(self.age),
                    second: MagnitudeFactor::Ambition,
                    joint: false,
                },
                context: HappinessEventContext::new(
                    HappinessEventCause::ReputationAdmiration,
                    HappinessEventScope::Personal,
                ).with_evidence(
                    HappinessEventEvidence::JoinedEliteClub,
                ).with_evidence(
                    HappinessEventEvidence::ReputationGap,
                ).with_follow_up(
                    HappinessEventFollowUp::PressureBuilding,
                ),
                role: EnvRole::Primary,
                priority: 90,
                cooldown_days: 120,
            },
        )
    }

    /// Better training. `diligence` is the sum of adaptability and professionalism.
    pub open spec fn elite_training_lift(self, diligence: Measure) -> Option<CandidateView> {
        if diligence.ge(24) {
            Some(
                CandidateView {
                    event_type: HappinessEventType::EliteTrainingLift,
                    magnitude: MagnitudeRule {
                        first: MagnitudeFactor::Ambition,
                        second: MagnitudeFactor::One,
                        joint: false,
                    },
                    context: ContextView::bare(
                        HappinessEventCause::TrainingPartnership,
                        HappinessEventScope::TrainingGround,
                    ).evidence(
                        HappinessEventEvidence::JoinedEliteClub,
                    ).evidence(
                        HappinessEventEvidence::HighProfessionalism,
                    ).follow_up(
                        HappinessEventFollowUp::TrendImproving,
                    ),
                    role: EnvRole::Flavor,
                    priority: 55,
                    cooldown_days: 60,
                },
            )
        } else {
            None
        }
    }

    /// Better training. `diligence` is the sum of adaptability and professionalism.
    pub fn elite_training_lift_candidate(&self, diligence: Measure) -> (r: Option<EnvCandidate>)
        ensures
            seen(r) == self.elite_training_lift(diligence),
    {
        if !(diligence.is_at_least(24)) {
            return None;
        }
        Some(
            EnvCandidate {
                event_type: HappinessEventType::EliteTrainingLift,
                magnitude: MagnitudeRule {
                    first: MagnitudeFactor::Ambition,
                    second: MagnitudeFactor::One,
                    joint: false,
                },
                context: HappinessEventContext::new(
                    HappinessEventCause::TrainingPartnership,
                    HappinessEventScope::TrainingGround,
                ).with_evidence(
                    HappinessEventEvidence::JoinedEliteClub,
                ).with_evidence(
                    HappinessEventEvidence::HighProfessionalism,
                ).with_follow_up(
                    HappinessEventFollowUp::TrendImproving,
                ),
                role: EnvRole::Flavor,
                priority: 55,
                cooldown_days: 60,
            },
        )
    }

    /// Awe of a big club, for thin skins and for those far down the order.
    pub open spec fn overawed_by_elite_club(self) -> Option<CandidateView> {
        if self.pressure.le(8) || self.deep(4) {
            Some(
                CandidateView {
                    event_type: HappinessEventType::OverawedByEliteClub,
                    magnitude: MagnitudeRule {
                        first: top_club_age_factor(self.age as int),
                        second: MagnitudeFactor::Professionalism,
                        joint: false,
                    },
                    context: ContextView::bare(
                        HappinessEventCause::ReputationTension,
                        HappinessEventScope::DressingRoom,
                    ).evidence(
                        HappinessEventEvidence::JoinedEliteClub,
                    ).evidence(
                        HappinessEventEvidence::BelowSquadStandard,
                    ).follow_up(
                        HappinessEventFollowUp::SettlingInProgress,
                    ).evidence_if(
                        self.pressure.le(8),
                        HappinessEventEvidence::LowPressurePersonality,
                    ),
                    role: EnvRole::Flavor,
                    priority: 50,
                    cooldown_days: 30,
                },
            )
        } else {
            None
        }
    }

    /// Awe of a big club, for thin skins and for those far down the order.
    pub fn overawed_by_elite_club_candidate(&self) -> (r: Option<EnvCandidate>)
        ensures
            seen(r) == self.overawed_by_elite_club(),
    {
        if !(self.pressure.is_at_most(8) || self.is_deep(4)) {
            return None;
        }
        Some(
            EnvCandidate {
                event_type: HappinessEventType::OverawedByEliteClub,
                magnitude: MagnitudeRule {
                    first: age_amplifier_for_top_club(self.age),
                    second: MagnitudeFactor::Professionalism,
                    joint: false,
                },
                context: HappinessEventContext::new(
                    HappinessEventCause::ReputationTension,
                    HappinessEventScope::DressingRoom,
                ).with_evidence(
                    HappinessEventEvidence::JoinedEliteClub,
                ).with_evidence(
                    HappinessEventEvidence::BelowSquadStandard,
                ).with_follow_up(
                    HappinessEventFollowUp::SettlingInProgress,
                ).with_evidence_if(
                    self.pressure.is_at_most(8),
                    HappinessEventEvidence::LowPressurePersonality,
                ),
                role: EnvRole::Flavor,
                priority: 50,
                cooldown_days: 30,
            },
        )
    }

    /// No way into the side: fourth in line or worse.
    pub open spec fn role_path_blocked(self) -> Option<CandidateView> {
        if self.deep(4) {
            Some(
                CandidateView {
                    event_type: HappinessEventType::RolePathBlockedAtEliteClub,
                    magnitude: MagnitudeRule {
                        first: top_club_age_factor(self.age as int),
                        second: MagnitudeFactor::Professionalism,
                        joint: false,
                    },
                    context: ContextView::bare(
                        HappinessEventCause::PositionalRivalry,
                        HappinessEventScope::MatchDay,
                    ).evidence(
                        HappinessEventEvidence::BlockedByDepth,
                    ).evidence(
                        HappinessEventEvidence::SamePositionCompetition,
                    ).follow_up(
                        HappinessEventFollowUp::ContractRequestRisk,
                    ),
                    role: EnvRole::Flavor,
                    priority: 65,
                    cooldown_days: 30,
                },
            )
        } else {
            None
        }
    }

    /// No way into the side: fourth in line or worse.
    pub fn role_path_blocked_candidate(&self) -> (r: Option<EnvCandidate>)
        ensures
            seen(r) == self.role_path_blocked(),
    {
        if !(self.is_deep(4)) {
            return None;
        }
        Some(
            EnvCandidate {
                event_type: HappinessEventType::RolePathBlockedAtEliteClub,
                magnitude: MagnitudeRule {
                    first: age_amplifier_for_top_club(self.age),
                    second: MagnitudeFactor::Professionalism,
                    joint: false,
                },
                context: HappinessEventContext::new(
                    HappinessEventCause::PositionalRivalry,
                    HappinessEventScope::MatchDay,
                ).with_evidence(
                    HappinessEventEvidence::BlockedByDepth,
                ).with_evidence(
                    HappinessEventEvidence::SamePositionCompetition,
                ).with_follow_up(
                    HappinessEventFollowUp::ContractRequestRisk,
                ),
                role: EnvRole::Flavor,
                priority: 65,
                cooldown_days: 30,
            },
        )
    }

    /// No longer the star: a clearly bigger club, and third in line or below its standard.
    pub open spec fn dressing_room_status_shock(self) -> Option<CandidateView> {
        if self.club_gap() >= 1500 && (self.deep(3) || self.above_tier() <= -25) {
            Some(
                CandidateView {
                    event_type: HappinessEventType::DressingRoomStatusShock,
                    magnitude: MagnitudeRule {
                        first: MagnitudeFactor::Professionalism,
                        second: MagnitudeFactor::One,
                        joint: false,
                    },
                    context: ContextView::bare(
                        HappinessEventCause::ReputationTension,
                        HappinessEventScope::DressingRoom,
                    ).evidence(
                        HappinessEventEvidence::BelowSquadStandard,
                    ).follow_up(
                        HappinessEventFollowUp::SettlingInProgress,
                    ).evidence_if(
                        self.deep(3),
                        HappinessEventEvidence::BlockedByDepth,
                    ),
                    role: EnvRole::Flavor,
                    priority: 60,
                    cooldown_days: 45,
                },
            )
        } else {
            None
        }
    }

    /// No longer the star: a clearly bigger club, and third in line or below its standard.
    pub fn dressing_room_status_shock_candidate(&self) -> (r: Option<EnvCandidate>)
        ensures
            seen(r) == self.dressing_room_status_shock(),
    {
        if !(self.club_rep_gap() >= 1500 && (self.is_deep(3)
            || self.ability_vs_dest_tier() <= -25)) {
            return None;
        }
        Some(
            EnvCandidate {
                event_type: HappinessEventType::DressingRoomStatusShock,
                magnitude: MagnitudeRule {
                    first: MagnitudeFactor::Professionalism,
                    second: MagnitudeFactor::One,
                    joint: false,
                },
                context: HappinessEventContext::new(
                    HappinessEventCause::ReputationTension,
                    HappinessEventScope::DressingRoom,
                ).with_evidence(
                    HappinessEventEvidence::BelowSquadStandard,
                ).with_follow_up(
                    HappinessEventFollowUp::SettlingInProgress,
                ).with_evidence_if(
                    self.is_deep(3),
                    HappinessEventEvidence::BlockedByDepth,
                ),
                role: EnvRole::Flavor,
                priority: 60,
                cooldown_days: 45,
            },
        )
    }

    /// Support from older teammates, for a player with company or a professional character.
    pub open spec fn senior_mentor_support(self, s: SocialSignals) -> Option<CandidateView> {
        if s.anchored() || self.professionalism.ge(12) {
            Some(
                CandidateView {
                    event_type: HappinessEventType::SeniorMentorSupport,
                    magnitude: MagnitudeRule {
                        first: percent_when(s.same_nationality_teammates >= 1, 115),
                        second: percent_when(s.same_language_teammates >= 2, 110),
                        joint: true,
                    },
                    context: ContextView::bare(
                        HappinessEventCause::DressingRoomLift,
                        HappinessEventScope::DressingRoom,
                    ).follow_up(
                        HappinessEventFollowUp::LikelyToSettle,
                    ).evidence_if(
                        s.same_nationality_teammates >= 1,
                        HappinessEventEvidence::SharedNationality,
                    ).evidence_if(
                        s.same_language_teammates >= 1,
                        HappinessEventEvidence::NewSigningStillSettling,
                    ).evidence_if(
                        self.professionalism.ge(14),
                        HappinessEventEvidence::HighProfessionalism,
                    ),
                    role: EnvRole::Flavor,
                    priority: 70,
                    cooldown_days: 60,
                },
            )
        } else {
            None
        }
    }

    /// Support from older teammates, for a player with company or a professional character.
    pub fn senior_mentor_support_candidate(&self, s: &SocialSignals) -> (r: Option<EnvCandidate>)
        ensures
            seen(r) == self.senior_mentor_support(*s),
    {
        if !(s.has_support_anchor() || self.professionalism.is_at_least(12)) {
            return None;
        }
        Some(
            EnvCandidate {
                event_type: HappinessEventType::SeniorMentorSupport,
                magnitude: MagnitudeRule {
                    first: percent_if(s.same_nationality_teammates >= 1, 115),
                    second: percent_if(s.same_language_teammates >= 2, 110),
                    joint: true,
                },
                context: HappinessEventContext::new(
                    HappinessEventCause::DressingRoomLift,
                    HappinessEventScope::DressingRoom,
                ).with_follow_up(
                    HappinessEventFollowUp::LikelyToSettle,
                ).with_evidence_if(
                    s.same_nationality_teammates >= 1,
                    HappinessEventEvidence::SharedNationality,
                ).with_evidence_if(
                    s.same_language_teammates >= 1,
                    HappinessEventEvidence::NewSigningStillSettling,
                ).with_evidence_if(
                    self.professionalism.is_at_least(14),
                    HappinessEventEvidence::HighProfessionalism,
                ),
                role: EnvRole::Flavor,
                priority: 70,
                cooldown_days: 60,
            },
        )
    }

    /// A star below his level; a favourite club is enough for all but the most ambitious.
    pub open spec fn too_good_for_level(self) -> Option<CandidateView> {
        if !self.destination_is_favorite || self.ambition.ge(16) {
            Some(
                CandidateView {
                    event_type: HappinessEventType::TooGoodForLevel,
                    magnitude: MagnitudeRule {
                        first: percent_when(self.ambition.ge(15), 130),
                        second: percent_when(self.loyalty.ge(15)
                            && self.destination_is_favorite, 55),
                        joint: true,
                    },
                    context: ContextView::bare(
                        HappinessEventCause::ReputationTension,
                        HappinessEventScope::MatchDay,
                    ).evidence(
                        HappinessEventEvidence::AboveSquadStandard,
                    ).evidence(
                        HappinessEventEvidence::ReputationGap,
                    ).follow_up(
                        HappinessEventFollowUp::ContractRequestRisk,
                    ),
                    role: EnvRole::Primary,
                    priority: 85,
                    cooldown_days: 45,
                },
            )
        } else {
            None
        }
    }

    /// A star below his level; a favourite club is enough for all but the most ambitious.
    pub fn too_good_for_level_candidate(&self) -> (r: Option<EnvCandidate>)
        ensures
            seen(r) == self.too_good_for_level(),
    {
        if !(!self.destination_is_favorite || self.ambition.is_at_least(16)) {
            return None;
        }
        Some(
            EnvCandidate {
                event_type: HappinessEventType::TooGoodForLevel,
                magnitude: MagnitudeRule {
                    first: percent_if(self.ambition.is_at_least(15), 130),
                    second: percent_if(self.loyalty.is_at_least(15)
                        && self.destination_is_favorite, 55),
                    joint: true,
                },
                context: HappinessEventContext::new(
                    HappinessEventCause::ReputationTension,
                    HappinessEventScope::MatchDay,
                ).with_evidence(
                    HappinessEventEvidence::AboveSquadStandard,
                ).with_evidence(
                    HappinessEventEvidence::ReputationGap,
                ).with_follow_up(
                    HappinessEventFollowUp::ContractRequestRisk,
                ),
                role: EnvRole::Primary,
                priority: 85,
                cooldown_days: 45,
            },
        )
    }

    /// A fall in the eyes of the press, unless out of loyalty to a favourite club.
    pub open spec fn step_down_embarrassment(self) -> Option<CandidateView> {
        if (self.club_gap() <= -2000 || self.league_gap() <= -1500)
            && !(self.destination_is_favorite && self.loyalty.ge(15)) {
            Some(
                CandidateView {
                    event_type: HappinessEventType::StepDownEmbarrassment,
                    magnitude: MagnitudeRule {
                        first: percent_when(self.age >= 33, 75),
                        second: percent_when(self.ambition.ge(15), 130),
                        joint: true,
                    },
                    context: ContextView::bare(
                        HappinessEventCause::MediaPressure,
                        HappinessEventScope::Media,
                    ).evidence(
                        HappinessEventEvidence::AboveSquadStandard,
                    ).evidence(
                        HappinessEventEvidence::MediaIncident,
                    ).follow_up(
                        HappinessEventFollowUp::PressureBuilding,
                    ),
                    role: EnvRole::Primary,
                    priority: 80,
                    cooldown_days: 60,
                },
            )
        } else {
            None
        }
    }

    /// A fall in the eyes of the press, unless out of loyalty to a favourite club.
    pub fn step_down_embarrassment_candidate(&self) -> (r: Option<EnvCandidate>)
        ensures
            seen(r) == self.step_down_embarrassment(),
    {
        if !((self.club_rep_gap() <= -2000 || self.league_rep_gap() <= -1500)
            && !(self.destination_is_favorite && self.loyalty.is_at_least(15))) {
            return None;
        }
        Some(
            EnvCandidate {
                event_type: HappinessEventType::StepDownEmbarrassment,
                magnitude: MagnitudeRule {
                    first: percent_if(self.age >= 33, 75),
                    second: percent_if(self.ambition.is_at_least(15), 130),
                    joint: true,
                },
                context: HappinessEventContext::new(
                    HappinessEventCause::MediaPressure,
                    HappinessEventScope::Media,
                ).with_evidence(
                    HappinessEventEvidence::AboveSquadStandard,
                ).with_evidence(
                    HappinessEventEvidence::MediaIncident,
                ).with_follow_up(
                    HappinessEventFollowUp::PressureBuilding,
                ),
                role: EnvRole::Primary,
                priority: 80,
                cooldown_days: 60,
            },
        )
    }

    /// Worse training after a much better league.
    pub open spec fn training_standard_frustration(self) -> Option<CandidateView> {
        if self.league_gap() <= -2500 {
            Some(
                CandidateView {
                    event_type: HappinessEventType::TrainingStandardFrustration,
                    magnitude: MagnitudeRule {
                        first: percent_when(self.professionalism.ge(15), 120),
                        second: MagnitudeFactor::One,
                        joint: false,
                    },
                    context: ContextView::bare(
                        HappinessEventCause::TrainingFriction,
                        HappinessEventScope::TrainingGround,
                    ).evidence(
                        HappinessEventEvidence::TrainingLevelGap,
                    ).evidence(
                        HappinessEventEvidence::TrainingStandardsMismatch,
                    ).follow_up(
                        HappinessEventFollowUp::PressureBuilding,
                    ),
                    role: EnvRole::Flavor,
                    priority: 45,
                    cooldown_days: 45,
                },
            )
        } else {
            None
        }
    }

    /// Worse training after a much better league.
    pub fn training_standard_frustration_candidate(&self) -> (r: Option<EnvCandidate>)
        ensures
            seen(r) == self.training_standard_frustration(),
    {
        if !(self.league_rep_gap() <= -2500) {
            return None;
        }
        Some(
            EnvCandidate {
                event_type: HappinessEventType::TrainingStandardFrustration,
                magnitude: MagnitudeRule {
                    first: percent_if(self.professionalism.is_at_least(15), 120),
                    second: MagnitudeFactor::One,
                    joint: false,
                },
                context: HappinessEventContext::new(
                    HappinessEventCause::TrainingFriction,
                    HappinessEventScope::TrainingGround,
                ).with_evidence(
                    HappinessEventEvidence::TrainingLevelGap,
                ).with_evidence(
                    HappinessEventEvidence::TrainingStandardsMismatch,
                ).with_follow_up(
                    HappinessEventFollowUp::PressureBuilding,
                ),
                role: EnvRole::Flavor,
                priority: 45,
                cooldown_days: 45,
            },
        )
    }

    /// What the fans expect of a name that came for good.
    pub open spec fn fan_expectation_burden_first_tick(self) -> Option<CandidateView> {
        if !self.is_loan && self.player_current_rep >= 6000 && (self.high_fee
            || self.above_club() >= 2000) {
            Some(
                CandidateView {
                    event_type: HappinessEventType::FanExpectationBurden,
                    magnitude: MagnitudeRule {
                        first: percent_when(self.pressure.le(8), 130),
                        second: MagnitudeFactor::One,
                        joint: false,
                    },
                    context: ContextView::bare(
                        HappinessEventCause::MediaPressure,
                        HappinessEventScope::Media,
                    ).evidence(
                        HappinessEventEvidence::HighFeePressure,
                    ).follow_up(
                        HappinessEventFollowUp::PressureBuilding,
                    ).evidence_if(
                        self.pressure.le(8),
                        HappinessEventEvidence::LowPressurePersonality,
                    ),
                    role: EnvRole::Flavor,
                    priority: 40,
                    cooldown_days: 45,
                },
            )
        } else {
            None
        }
    }

    /// What the fans expect of a name that came for good.
    pub fn fan_expectation_burden_first_tick_candidate(&self) -> (r: Option<EnvCandidate>)
        ensures
            seen(r) == self.fan_expectation_burden_first_tick(),
    {
        if !(!self.is_loan && self.player_current_rep >= 6000 && (self.high_fee
            || self.player_vs_dest_club() >= 2000)) {
            return None;
        }
        Some(
            EnvCandidate {
                event_type: HappinessEventType::FanExpectationBurden,
                magnitude: MagnitudeRule {
                    first: percent_if(self.pressure.is_at_most(8), 130),
                    second: MagnitudeFactor::One,
                    joint: false,
                },
                context: HappinessEventContext::new(
                    HappinessEventCause::MediaPressure,
                    HappinessEventScope::Media,
                ).with_evidence(
                    HappinessEventEvidence::HighFeePressure,
                ).with_follow_up(
                    HappinessEventFollowUp::PressureBuilding,
                ).with_evidence_if(
                    self.pressure.is_at_most(8),
                    HappinessEventEvidence::LowPressurePersonality,
                ),
                role: EnvRole::Flavor,
                priority: 40,
                cooldown_days: 45,
            },
        )
    }

    /// The frost that meets a signing from a rival.
    pub open spec fn cold_shoulder_over_rival_past(self) -> Option<CandidateView> {
        if self.source_is_rival && !self.is_loan {
            Some(
                CandidateView {
                    event_type: HappinessEventType::ColdShoulderOverRivalPast,
                    magnitude: MagnitudeRule {
                        first: percent_when(self.pressure.le(8), 125),
                        second: MagnitudeFactor::One,
                        joint: false,
                    },
                    context: ContextView::bare(
                        HappinessEventCause::ReputationTension,
                        HappinessEventScope::DressingRoom,
                    ).follow_up(
                        HappinessEventFollowUp::SettlingInProgress,
                    ).evidence_if(
                        self.pressure.le(8),
                        HappinessEventEvidence::LowPressurePersonality,
                    ),
                    role: EnvRole::Flavor,
                    priority: 42,
                    cooldown_days: 365,
                },
            )
        } else {
            None
        }
    }

    /// The frost that meets a signing from a rival.
    pub fn cold_shoulder_over_rival_past_candidate(&self) -> (r: Option<EnvCandidate>)
        ensures
            seen(r) == self.cold_shoulder_over_rival_past(),
    {
        if !(self.source_is_rival && !self.is_loan) {
            return None;
        }
        Some(
            EnvCandidate {
                event_type: HappinessEventType::ColdShoulderOverRivalPast,
                magnitude: MagnitudeRule {
                    first: percent_if(self.pressure.is_at_most(8), 125),
                    second: MagnitudeFactor::One,
                    joint: false,
                },
                context: HappinessEventContext::new(
                    HappinessEventCause::ReputationTension,
                    HappinessEventScope::DressingRoom,
                ).with_follow_up(
                    HappinessEventFollowUp::SettlingInProgress,
                ).with_evidence_if(
                    self.pressure.is_at_most(8),
                    HappinessEventEvidence::LowPressurePersonality,
                ),
                role: EnvRole::Flavor,
                priority: 42,
                cooldown_days: 365,
            },
        )
    }

    /// The spotlight of a big stage, for a thin skin or after a step up of the score `step_up`.
    pub open spec fn media_spotlight_pressure(self, step_up: Measure) -> Option<CandidateView> {
        if self.pressure_millionths() >= 650_000 && (!step_up.lt_hundredths(30)
            || self.pressure.le(10)) {
            Some(
                CandidateView {
                    event_type: HappinessEventType::MediaSpotlightPressure,
                    magnitude: MagnitudeRule {
                        first: MagnitudeFactor::Professionalism,
                        second: MagnitudeFactor::One,
                        joint: false,
                    },
                    context: ContextView::bare(
                        HappinessEventCause::MediaPressure,
                        HappinessEventScope::Media,
                    ).evidence(
                        HappinessEventEvidence::MediaIncident,
                    ).follow_up(
                        HappinessEventFollowUp::PressureBuilding,
                    ).evidence_if(
                        self.pressure.le(10),
                        HappinessEventEvidence::LowPressurePersonality,
                    ),
                    role: EnvRole::Universal,
                    priority: 30,
                    cooldown_days: 30,
                },
            )
        } else {
            None
        }
    }

    /// The spotlight of a big stage, for a thin skin or after a step up of the score `step_up`.
    pub fn media_spotlight_pressure_candidate(&self, step_up: Measure) -> (r: Option<EnvCandidate>)
        ensures
            seen(r) == self.media_spotlight_pressure(step_up),
    {
        if !(self.pressure_score() >= 650_000 && (!step_up.is_below_hundredths(30)
            || self.pressure.is_at_most(10))) {
            return None;
        }
        Some(
            EnvCandidate {
                event_type: HappinessEventType::MediaSpotlightPressure,
                magnitude: MagnitudeRule {
                    first: MagnitudeFactor::Professionalism,
                    second: MagnitudeFactor::One,
                    joint: false,
                },
                context: HappinessEventContext::new(
                    HappinessEventCause::MediaPressure,
                    HappinessEventScope::Media,
                ).with_evidence(
                    HappinessEventEvidence::MediaIncident,
                ).with_follow_up(
                    HappinessEventFollowUp::PressureBuilding,
                ).with_evidence_if(
                    self.pressure.is_at_most(10),
                    HappinessEventEvidence::LowPressurePersonality,
                ),
                role: EnvRole::Universal,
                priority: 30,
                cooldown_days: 30,
            },
        )
    }

    /// A loan far above or far below the player's level.
    pub open spec fn loan_level_mismatch(self) -> Option<CandidateView> {
        if self.above_club() >= 2500 || self.club_gap() >= 2500 {
            Some(
                CandidateView {
                    event_type: HappinessEventType::LoanLevelMismatch,
                    magnitude: MagnitudeRule {
                        first: MagnitudeFactor::One,
                        second: MagnitudeFactor::One,
                        joint: false,
                    },
                    context: ContextView::bare(
                        HappinessEventCause::TacticalDisagreement,
                        HappinessEventScope::MatchDay,
                    ).evidence(
                        HappinessEventEvidence::ReputationGap,
                    ).follow_up(
                        HappinessEventFollowUp::SettlingInProgress,
                    ),
                    role: EnvRole::Universal,
                    priority: 20,
                    cooldown_days: 60,
                },
            )
        } else {
            None
        }
    }

    /// A loan far above or far below the player's level.
    pub fn loan_level_mismatch_candidate(&self) -> (r: Option<EnvCandidate>)
        ensures
            seen(r) == self.loan_level_mismatch(),
    {
        if !(self.player_vs_dest_club() >= 2500 || self.club_rep_gap() >= 2500) {
            return None;
        }
        Some(
            EnvCandidate {
                event_type: HappinessEventType::LoanLevelMismatch,
                magnitude: MagnitudeRule {
                    first: MagnitudeFactor::One,
                    second: MagnitudeFactor::One,
                    joint: false,
                },
                context: HappinessEventContext::new(
                    HappinessEventCause::TacticalDisagreement,
                    HappinessEventScope::MatchDay,
                ).with_evidence(
                    HappinessEventEvidence::ReputationGap,
                ).with_follow_up(
                    HappinessEventFollowUp::SettlingInProgress,
                ),
                role: EnvRole::Universal,
                priority: 20,
                cooldown_days: 60,
            },
        )
    }
}

/// What a week after a move shows.
#[derive(Clone, Copy, Debug, PartialEq, Eq, Structural)]
pub struct WeeklyEnvSignals {
    pub days_since: i64,
    pub adaptation_score: Measure,
    pub apps: u32,
    pub starts: u32,
    pub avg_rating: Measure,
    pub league_reputation: u16,
    pub ambition: Measure,
    pub pressure: Measure,
    pub current_reputation: i16,
    pub had_recent_isolation: bool,
    pub roll: Measure,
}

impl WeeklyEnvSignals {
    /// He has come through a lonely start.
    pub open spec fn adaptation_breakthrough(self) -> Option<CandidateView> {
        if self.adaptation_score.ge(65) && self.had_recent_isolation
            && self.roll.lt_hundredths(50) {
            Some(
                CandidateView {
                    event_type: HappinessEventType::AdaptationBreakthrough,
                    magnitude: MagnitudeRule {
                        first: MagnitudeFactor::One,
                        second: MagnitudeFactor::One,
                        joint: false,
                    },
                    context: ContextView::bare(
                        HappinessEventCause::AdaptationIsolation,
                        HappinessEventScope::Personal,
                    ).evidence(
                        HappinessEventEvidence::NewSigningStillSettling,
                    ).follow_up(
                        HappinessEventFollowUp::LikelyToSettle,
                    ),
                    role: EnvRole::Primary,
                    priority: 90,
                    cooldown_days: 60,
                },
            )
        } else {
            None
        }
    }

    /// He has come through a lonely start.
    pub fn adaptation_breakthrough_candidate(&self) -> (r: Option<EnvCandidate>)
        ensures
            seen(r) == self.adaptation_breakthrough(),
    {
        if !(self.adaptation_score.is_at_least(65) && self.had_recent_isolation
            && self.roll.is_below_hundredths(50)) {
            return None;
        }
        Some(
            EnvCandidate {
                event_type: HappinessEventType::AdaptationBreakthrough,
                magnitude: MagnitudeRule {
                    first: MagnitudeFactor::One,
                    second: MagnitudeFactor::One,
                    joint: false,
                },
                context: HappinessEventContext::new(
                    HappinessEventCause::AdaptationIsolation,
                    HappinessEventScope::Personal,
                ).with_evidence(
                    HappinessEventEvidence::NewSigningStillSettling,
                ).with_follow_up(
                    HappinessEventFollowUp::LikelyToSettle,
                ),
                role: EnvRole::Primary,
                priority: 90,
                cooldown_days: 60,
            },
        )
    }

    /// The manager trusts him: he starts eleven games of twenty.
    pub open spec fn trusted_after_step_up(self) -> Option<CandidateView> {
        if self.apps >= 5 && 20 * self.starts >= 11 * self.apps && self.adaptation_score.ge(55)
            && self.roll.lt_hundredths(55) {
            Some(
                CandidateView {
                    event_type: HappinessEventType::TrustedAfterStepUp,
                    magnitude: MagnitudeRule {
                        first: MagnitudeFactor::Ambition,
                        second: MagnitudeFactor::One,
                        joint: false,
                    },
                    context: ContextView::bare(
                        HappinessEventCause::ManagerSupport,
                        HappinessEventScope::MatchDay,
                    ).evidence(
                        HappinessEventEvidence::ManagerTrust,
                    ).follow_up(
                        HappinessEventFollowUp::ManagerTrustRising,
                    ),
                    role: EnvRole::Primary,
                    priority: 85,
                    cooldown_days: 60,
                },
            )
        } else {
            None
        }
    }

    /// The manager trusts him: he starts eleven games of twenty.
    pub fn trusted_after_step_up_candidate(&self) -> (r: Option<EnvCandidate>)
        ensures
            seen(r) == self.trusted_after_step_up(),
    {
        if !(self.apps >= 5 && 20 * self.starts as u64 >= 11 * self.apps as u64
            && self.adaptation_score.is_at_least(55) && self.roll.is_below_hundredths(55)) {
            return None;
        }
        Some(
            EnvCandidate {
                event_type: HappinessEventType::TrustedAfterStepUp,
                magnitude: MagnitudeRule {
                    first: MagnitudeFactor::Ambition,
                    second: MagnitudeFactor::One,
                    joint: false,
                },
                context: HappinessEventContext::new(
                    HappinessEventCause::ManagerSupport,
                    HappinessEventScope::MatchDay,
                ).with_evidence(
                    HappinessEventEvidence::ManagerTrust,
                ).with_follow_up(
                    HappinessEventFollowUp::ManagerTrustRising,
                ),
                role: EnvRole::Primary,
                priority: 85,
                cooldown_days: 60,
            },
        )
    }

    /// He plays well over six games or more.
    pub open spec fn proved_level_after_move(self) -> Option<CandidateView> {
        if self.apps >= 6 && self.avg_rating.ge(7) && self.roll.lt_hundredths(45) {
            Some(
                CandidateView {
                    event_type: HappinessEventType::ProvedLevelAfterMove,
                    magnitude: MagnitudeRule {
                        first: MagnitudeFactor::One,
                        second: MagnitudeFactor::One,
                        joint: false,
                    },
                    context: ContextView::bare(
                        HappinessEventCause::ReputationAdmiration,
                        HappinessEventScope::MatchDay,
                    ).evidence(
                        HappinessEventEvidence::ExcellentPerformance,
                    ).follow_up(
                        HappinessEventFollowUp::TrendImproving,
                    ),
                    role: EnvRole::Primary,
                    priority: 95,
                    cooldown_days: 60,
                },
            )
        } else {
            None
        }
    }

    /// He plays well over six games or more.
    pub fn proved_level_after_move_candidate(&self) -> (r: Option<EnvCandidate>)
        ensures
            seen(r) == self.proved_level_after_move(),
    {
        if !(self.apps >= 6 && self.avg_rating.is_at_least(7)
            && self.roll.is_below_hundredths(45)) {
            return None;
        }
        Some(
            EnvCandidate {
                event_type: HappinessEventType::ProvedLevelAfterMove,
                magnitude: MagnitudeRule {
                    first: MagnitudeFactor::One,
                    second: MagnitudeFactor::One,
                    joint: false,
                },
                context: HappinessEventContext::new(
                    HappinessEventCause::ReputationAdmiration,
                    HappinessEventScope::MatchDay,
                ).with_evidence(
                    HappinessEventEvidence::ExcellentPerformance,
                ).with_follow_up(
                    HappinessEventFollowUp::TrendImproving,
                ),
                role: EnvRole::Primary,
                priority: 95,
                cooldown_days: 60,
            },
        )
    }

    /// He has not found his feet in the first sixty days.
    pub open spec fn overawed_by_elite_club(self) -> Option<CandidateView> {
        if self.days_since <= 60 && !self.adaptation_score.ge(45) && self.roll.lt_hundredths(40) {
            Some(
                CandidateView {
                    event_type: HappinessEventType::OverawedByEliteClub,
                    magnitude: MagnitudeRule {
                        first: MagnitudeFactor::Professionalism,
                        second: MagnitudeFactor::One,
                        joint: false,
                    },
                    context: ContextView::bare(
                        HappinessEventCause::AdaptationIsolation,
                        HappinessEventScope::DressingRoom,
                    ).evidence(
                        HappinessEventEvidence::JoinedEliteClub,
                    ).evidence(
                        HappinessEventEvidence::BelowSquadStandard,
                    ).follow_up(
                        HappinessEventFollowUp::SettlingInProgress,
                    ),
                    role: EnvRole::Primary,
                    priority: 45,
                    cooldown_days: 21,
                },
            )
        } else {
            None
        }
    }

    /// He has not found his feet in the first sixty days.
    pub fn overawed_by_elite_club_candidate(&self) -> (r: Option<EnvCandidate>)
        ensures
            seen(r) == self.overawed_by_elite_club(),
    {
        if !(self.days_since <= 60 && !self.adaptation_score.is_at_least(45)
            && self.roll.is_below_hundredths(40)) {
            return None;
        }
        Some(
            EnvCandidate {
                event_type: HappinessEventType::OverawedByEliteClub,
                magnitude: MagnitudeRule {
                    first: MagnitudeFactor::Professionalism,
                    second: MagnitudeFactor::One,
                    joint: false,
                },
                context: HappinessEventContext::new(
                    HappinessEventCause::AdaptationIsolation,
                    HappinessEventScope::DressingRoom,
                ).with_evidence(
                    HappinessEventEvidence::JoinedEliteClub,
                ).with_evidence(
                    HappinessEventEvidence::BelowSquadStandard,
                ).with_follow_up(
                    HappinessEventFollowUp::SettlingInProgress,
                ),
                role: EnvRole::Primary,
                priority: 45,
                cooldown_days: 21,
            },
        )
    }

    /// He is not picked, or does not shine, at a club below him.
    pub open spec fn too_good_for_level(self) -> Option<CandidateView> {
        if self.ambition.ge(13) && self.roll.lt_hundredths(35) && (self.apps < 3
            || !self.avg_rating.ge(7)) {
            Some(
                CandidateView {
                    event_type: HappinessEventType::TooGoodForLevel,
                    magnitude: MagnitudeRule {
                        first: MagnitudeFactor::One,
                        second: MagnitudeFactor::One,
                        joint: false,
                    },
                    context: ContextView::bare(
                        HappinessEventCause::ReputationTension,
                        HappinessEventScope::MatchDay,
                    ).evidence(
                        HappinessEventEvidence::AboveSquadStandard,
                    ).follow_up(
                        HappinessEventFollowUp::ContractRequestRisk,
                    ).evidence_if(
                        self.apps < 3,
                        HappinessEventEvidence::BlockedByDepth,
                    ).evidence_if(
                        self.apps >= 3,
                        HappinessEventEvidence::ReputationGap,
                    ),
                    role: EnvRole::Primary,
                    priority: 50,
                    cooldown_days: 30,
                },
            )
        } else {
            None
        }
    }

    /// He is not picked, or does not shine, at a club below him.
    pub fn too_good_for_level_candidate(&self) -> (r: Option<EnvCandidate>)
        ensures
            seen(r) == self.too_good_for_level(),
    {
        if !(self.ambition.is_at_least(13) && self.roll.is_below_hundredths(35)
            && (self.apps < 3 || !self.avg_rating.is_at_least(7))) {
            return None;
        }
        Some(
            EnvCandidate {
                event_type: HappinessEventType::TooGoodForLevel,
                magnitude: MagnitudeRule {
                    first: MagnitudeFactor::One,
                    second: MagnitudeFactor::One,
                    joint: false,
                },
                context: HappinessEventContext::new(
                    HappinessEventCause::ReputationTension,
                    HappinessEventScope::MatchDay,
                ).with_evidence(
                    HappinessEventEvidence::AboveSquadStandard,
                ).with_follow_up(
                    HappinessEventFollowUp::ContractRequestRisk,
                ).with_evidence_if(
                    self.apps < 3,
                    HappinessEventEvidence::BlockedByDepth,
                ).with_evidence_if(
                    self.apps >= 3,
                    HappinessEventEvidence::ReputationGap,
                ),
                role: EnvRole::Primary,
                priority: 50,
                cooldown_days: 30,
            },
        )
    }

    /// The league is below him.
    pub open spec fn training_standard_frustration(self) -> Option<CandidateView> {
        if self.league_reputation < 4500 && self.roll.lt_hundredths(30) {
            Some(
                CandidateView {
                    event_type: HappinessEventType::TrainingStandardFrustration,
                    magnitude: MagnitudeRule {
                        first: MagnitudeFactor::One,
                        second: MagnitudeFactor::One,
                        joint: false,
                    },
                    context: ContextView::bare(
                        HappinessEventCause::TrainingFriction,
                        HappinessEventScope::TrainingGround,
                    ).evidence(
                        HappinessEventEvidence::TrainingLevelGap,
                    ).evidence(
                        HappinessEventEvidence::TrainingStandardsMismatch,
                    ).follow_up(
                        HappinessEventFollowUp::PressureBuilding,
                    ),
                    role: EnvRole::Flavor,
                    priority: 35,
                    cooldown_days: 30,
                },
            )
        } else {
            None
        }
    }

    /// The league is below him.
    pub fn training_standard_frustration_candidate(&self) -> (r: Option<EnvCandidate>)
        ensures
            seen(r) == self.training_standard_frustration(),
    {
        if !(self.league_reputation < 4500 && self.roll.is_below_hundredths(30)) {
            return None;
        }
        Some(
            EnvCandidate {
                event_type: HappinessEventType::TrainingStandardFrustration,
                magnitude: MagnitudeRule {
                    first: MagnitudeFactor::One,
                    second: MagnitudeFactor::One,
                    joint: false,
                },
                context: HappinessEventContext::new(
                    HappinessEventCause::TrainingFriction,
                    HappinessEventScope::TrainingGround,
                ).with_evidence(
                    HappinessEventEvidence::TrainingLevelGap,
                ).with_evidence(
                    HappinessEventEvidence::TrainingStandardsMismatch,
                ).with_follow_up(
                    HappinessEventFollowUp::PressureBuilding,
                ),
                role: EnvRole::Flavor,
                priority: 35,
                cooldown_days: 30,
            },
        )
    }

    /// The fans have seen three games or more and expected better.
    pub open spec fn fan_expectation_burden(self) -> Option<CandidateView> {
        if self.current_reputation >= 6000 && self.pressure.le(8) && self.apps >= 3
            && !self.avg_rating.ge(7) && self.roll.lt_hundredths(30) {
            Some(
                CandidateView {
                    event_type: HappinessEventType::FanExpectationBurden,
                    magnitude: MagnitudeRule {
                        first: MagnitudeFactor::One,
                        second: MagnitudeFactor::One,
                        joint: false,
                    },
                    context: ContextView::bare(
                        HappinessEventCause::MediaPressure,
                        HappinessEventScope::Media,
                    ).evidence(
                        HappinessEventEvidence::HighFeePressure,
                    ).evidence(
                        HappinessEventEvidence::LowPressurePersonality,
                    ).follow_up(
                        HappinessEventFollowUp::PressureBuilding,
                    ),
                    role: EnvRole::Flavor,
                    priority: 30,
                    cooldown_days: 30,
                },
            )
        } else {
            None
        }
    }

    /// The fans have seen three games or more and expected better.
    pub fn fan_expectation_burden_candidate(&self) -> (r: Option<EnvCandidate>)
        ensures
            seen(r) == self.fan_expectation_burden(),
    {
        if !(self.current_reputation >= 6000 && self.pressure.is_at_most(8) && self.apps >= 3
            && !self.avg_rating.is_at_least(7) && self.roll.is_below_hundredths(30)) {
            return None;
        }
        Some(
            EnvCandidate {
                event_type: HappinessEventType::FanExpectationBurden,
                magnitude: MagnitudeRule {
                    first: MagnitudeFactor::One,
                    second: MagnitudeFactor::One,
                    joint: false,
                },
                context: HappinessEventContext::new(
                    HappinessEventCause::MediaPressure,
                    HappinessEventScope::Media,
                ).with_evidence(
                    HappinessEventEvidence::HighFeePressure,
                ).with_evidence(
                    HappinessEventEvidence::LowPressurePersonality,
                ).with_follow_up(
                    HappinessEventFollowUp::PressureBuilding,
                ),
                role: EnvRole::Flavor,
                priority: 30,
                cooldown_days: 30,
            },
        )
    }
}

/// The candidates that compete to be told.
#[derive(Debug)]
pub struct EnvCandidatePool {
    pub items: Vec<EnvCandidate>,
}

impl View for EnvCandidatePool {
    type V = Seq<CandidateView>;

    open spec fn view(&self) -> Seq<CandidateView> {
        contents(self.items@)
    }
}

/// The contents of candidates, in order.
pub open spec fn contents(s: Seq<EnvCandidate>) -> Seq<CandidateView> {
    s.map_values(|c: EnvCandidate| c@)
}

/// The list with one more candidate, where there is one.
pub open spec fn with_some(s: Seq<CandidateView>, c: Option<CandidateView>) -> Seq<CandidateView> {
    match c {
        Some(c) => s.push(c),
        None => s,
    }
}

/// The candidate of the role with the highest priority; of several, the first.
pub open spec fn top_of(s: Seq<CandidateView>, role: EnvRole) -> Option<CandidateView>
    decreases s.len(),
{
    if s.len() == 0 {
        None
    } else {
        let before = top_of(s.drop_last(), role);
        let c = s.last();
        if c.role == role && (before is None || c.priority > before->0.priority) {
            Some(c)
        } else {
            before
        }
    }
}

/// The candidate with the highest priority, whatever its role; of several, the first.
pub open spec fn top(s: Seq<CandidateView>) -> Option<CandidateView>
    decreases s.len(),
{
    if s.len() == 0 {
        None
    } else {
        let before = top(s.drop_last());
        let c = s.last();
        if before is None || c.priority > before->0.priority {
            Some(c)
        } else {
            before
        }
    }
}

impl EnvCandidatePool {
    /// A pool without candidates.
    pub fn new() -> (r: Self)
        ensures
            r@ == Seq::<CandidateView>::empty(),
    {
        let r = EnvCandidatePool { items: Vec::new() };
        assert(r@ =~= Seq::<CandidateView>::empty());
        r
    }

    /// Adds a candidate, where there is one.
    pub fn push_some(&mut self, candidate: Option<EnvCandidate>)
        ensures
            final(self)@ == with_some(old(self)@, seen(candidate)),
    {
        match candidate {
            Some(c) => {
                self.items.push(c);
                assert(self@ =~= old(self)@.push(c@));
            },
            None => {},
        }
    }

    /// Takes the candidate of the role with the highest priority out of the pool; of several,
    /// the first.
    pub fn take_top_of(&mut self, role: EnvRole) -> (r: Option<EnvCandidate>)
        ensures
            seen(r) == top_of(old(self)@, role),
            r is None ==> final(self)@ == old(self)@,
            r is Some ==> exists|i: int|
                0 <= i < old(self)@.len() && (#[trigger] old(self)@[i]) == r->0@ && final(self)@
                    == old(self)@.remove(i),
    {
        let mut best: Option<usize> = None;
        let mut i: usize = 0;
        while i < self.items.len()
            invariant
                i <= self.items@.len(),
                self@ == old(self)@,
                self@.len() == self.items@.len(),
                match best {
                    Some(b) => b < i && top_of(self@.take(i as int), role) == Some(
                        self@[b as int],
                    ),
                    None => top_of(self@.take(i as int), role) is None,
                },
            decreases self.items@.len() - i,
        {
            assert(self@.take(i + 1).drop_last() =~= self@.take(i as int));
            assert(self@.take(i + 1).last() == self@[i as int]);
            let c = &self.items[i];
            assert(self@[i as int] == c@);
            if c.role == role {
                let better = match best {
                    Some(b) => {
                        assert(self@[b as int] == self.items@[b as int]@);
                        c.priority > self.items[b].priority
                    },
                    None => true,
                };
                if better {
                    best = Some(i);
                }
            }
            i = i + 1;
        }
        assert(self@.take(self@.len() as int) =~= self@);
        match best {
            Some(b) => {
                let c = self.items.remove(b);
                assert(c@ == old(self)@[b as int]);
                assert(self@ =~= old(self)@.remove(b as int));
                Some(c)
            },
            None => None,
        }
    }

    /// The candidate with the highest priority, whatever its role; of several, the first.
    pub fn into_top(self) -> (r: Option<EnvCandidate>)
        ensures
            seen(r) == top(self@),
    {
        let mut items = self.items;
        let mut best: Option<usize> = None;
        let mut i: usize = 0;
        while i < items.len()
            invariant
                i <= items@.len(),
                items@ == self.items@,
                self@.len() == items@.len(),
                match best {
                    Some(b) => b < i && top(self@.take(i as int)) == Some(self@[b as int]),
                    None => top(self@.take(i as int)) is None,
                },
            decreases items@.len() - i,
        {
            assert(self@.take(i + 1).drop_last() =~= self@.take(i as int));
            assert(self@.take(i + 1).last() == self@[i as int]);
            assert(self@[i as int] == items@[i as int]@);
            let better = match best {
                Some(b) => {
                    assert(self@[b as int] == items@[b as int]@);
                    items[i].priority > items[b].priority
                },
                None => true,
            };
            if better {
                best = Some(i);
            }
            i = i + 1;
        }
        assert(self@.take(self@.len() as int) =~= self@);
        match best {
            Some(b) => {
                let c = items.remove(b);
                assert(c@ == self@[b as int]);
                Some(c)
            },
            None => None,
        }
    }
}

/// To take out a candidate of one role leaves the top of another as it is.
proof fn lemma_roles_apart(s: Seq<CandidateView>, i: int, role: EnvRole)
    requires
        0 <= i < s.len(),
        s[i].role != role,
    ensures
        top_of(s.remove(i), role) == top_of(s, role),
    decreases s.len(),
{
    if i == s.len() - 1 {
        assert(s.remove(i) =~= s.drop_last());
    } else {
        lemma_roles_apart(s.drop_last(), i, role);
        assert(s.remove(i).drop_last() =~= s.drop_last().remove(i));
        assert(s.remove(i).last() == s.last());
    }
}

/// The top of a role is a candidate of that role, and none of the role ranks higher; there is
/// none only where the role has no candidate.
pub proof fn lemma_top_of(s: Seq<CandidateView>, role: EnvRole)
    ensures
        match top_of(s, role) {
            Some(c) => {
                &&& c.role == role
                &&& s.contains(c)
                &&& forall|i: int|
                    0 <= i < s.len() && (#[trigger] s[i]).role == role ==> s[i].priority
                        <= c.priority
            },
            None => forall|i: int| 0 <= i < s.len() ==> (#[trigger] s[i]).role != role,
        },
    decreases s.len(),
{
    if s.len() > 0 {
        let rest = s.drop_last();
        lemma_top_of(rest, role);
        assert forall|i: int| 0 <= i < s.len() - 1 implies #[trigger] s[i] == rest[i] by {}
        match top_of(rest, role) {
            Some(c) => {
                let j = choose|j: int| 0 <= j < rest.len() && rest[j] == c;
                assert(s[j] == c);
            },
            None => {},
        }
        assert(s[s.len() - 1] == s.last());
    }
}

/// The top of a list is one of its candidates, and none ranks higher; only an empty list has
/// none.
pub proof fn lemma_top(s: Seq<CandidateView>)
    ensures
        match top(s) {
            Some(c) => {
                &&& s.contains(c)
                &&& forall|i: int| 0 <= i < s.len() ==> (#[trigger] s[i]).priority <= c.priority
            },
            None => s.len() == 0,
        },
    decreases s.len(),
{
    if s.len() > 0 {
        let rest = s.drop_last();
        lemma_top(rest);
        assert forall|i: int| 0 <= i < s.len() - 1 implies #[trigger] s[i] == rest[i] by {}
        match top(rest) {
            Some(c) => {
                let j = choose|j: int| 0 <= j < rest.len() && rest[j] == c;
                assert(s[j] == c);
            },
            None => {},
        }
        assert(s[s.len() - 1] == s.last());
    }
}

/// What is measured of a move in single precision.
#[derive(Clone, Copy, Debug, PartialEq, Eq, Structural)]
pub struct ProfileReadings {
    /// The sum of adaptability and professionalism.
    pub diligence: Measure,
    /// The score of the step up.
    pub step_up: Measure,
}

impl TransferEnvironmentProfile {
    /// The stories of a small name at a big club.
    pub open spec fn elite_stories(self, s: SocialSignals, x: ProfileReadings) -> Seq<
        CandidateView,
    > {
        let a = with_some(Seq::empty(), self.top_club_opportunity());
        let b = with_some(a, self.elite_training_lift(x.diligence));
        let c = with_some(b, self.overawed_by_elite_club());
        let d = with_some(c, self.role_path_blocked());
        let e = with_some(d, self.dressing_room_status_shock());
        with_some(e, self.senior_mentor_support(s))
    }

    /// The list with the stories of a big name at a small club.
    pub open spec fn star_stories(self, before: Seq<CandidateView>) -> Seq<CandidateView> {
        let a = with_some(before, self.too_good_for_level());
        let b = with_some(a, self.step_down_embarrassment());
        let c = with_some(b, self.training_standard_frustration());
        let d = with_some(c, self.fan_expectation_burden_first_tick());
        with_some(d, self.dressing_room_status_shock())
    }

    /// The stories that compete on the first day.
    pub open spec fn first_day_pool(self, s: SocialSignals, x: ProfileReadings) -> Seq<
        CandidateView,
    > {
        let elite = if self.weak_at_elite() {
            self.elite_stories(s, x)
        } else {
            Seq::empty()
        };
        if self.star_at_weak() {
            self.star_stories(elite)
        } else {
            elite
        }
    }

    /// The stories of the first day: the top headline, the top addition, and what stands
    /// apart.
    pub open spec fn first_day_stories(self, s: SocialSignals, x: ProfileReadings) -> Seq<
        CandidateView,
    > {
        let pool = self.first_day_pool(s, x);
        let a = with_some(Seq::empty(), top_of(pool, EnvRole::Primary));
        let b = with_some(a, top_of(pool, EnvRole::Flavor));
        let c = with_some(
            b,
            if self.is_loan {
                self.loan_level_mismatch()
            } else {
                None
            },
        );
        let d = with_some(c, self.media_spotlight_pressure(x.step_up));
        with_some(d, self.cold_shoulder_over_rival_past())
    }

    /// The stories that compete on the first day.
    fn gather_first_day(&self, s: &SocialSignals, x: &ProfileReadings) -> (r: EnvCandidatePool)
        ensures
            r@ == self.first_day_pool(*s, *x),
    {
        let mut pool = EnvCandidatePool::new();
        if self.is_weak_player_at_elite_club() {
            pool.push_some(self.top_club_opportunity_candidate());
            pool.push_some(self.elite_training_lift_candidate(x.diligence));
            pool.push_some(self.overawed_by_elite_club_candidate());
            pool.push_some(self.role_path_blocked_candidate());
            pool.push_some(self.dressing_room_status_shock_candidate());
            pool.push_some(self.senior_mentor_support_candidate(s));
        }
        if self.is_star_at_weak_club() {
            pool.push_some(self.too_good_for_level_candidate());
            pool.push_some(self.step_down_embarrassment_candidate());
            pool.push_some(self.training_standard_frustration_candidate());
            pool.push_some(self.fan_expectation_burden_first_tick_candidate());
            pool.push_some(self.dressing_room_status_shock_candidate());
        }
        pool
    }

    /// The stories of the first day, in the order in which they are told.
    pub fn first_tick_environment_events(&self, s: &SocialSignals, x: &ProfileReadings) -> (r: Vec<
        EnvCandidate,
    >)
        ensures
            contents(r@) == self.first_day_stories(*s, *x),
    {
        let mut pool = self.gather_first_day(s, x);
        let mut told = EnvCandidatePool::new();
        let ghost all = pool@;
        let headline = pool.take_top_of(EnvRole::Primary);
        proof {
            lemma_top_of(all, EnvRole::Primary);
            if headline is Some {
                let i = choose|i: int|
                    0 <= i < all.len() && (#[trigger] all[i]) == headline->0@ && pool@
                        == all.remove(i);
                lemma_roles_apart(all, i, EnvRole::Flavor);
            }
        }
        let addition = pool.take_top_of(EnvRole::Flavor);
        told.push_some(headline);
        told.push_some(addition);
        if self.is_loan {
            told.push_some(self.loan_level_mismatch_candidate());
        }
        told.push_some(self.media_spotlight_pressure_candidate(x.step_up));
        told.push_some(self.cold_shoulder_over_rival_past_candidate());
        told.items
    }
}

/// Whether the event is a story of the surroundings.
pub open spec fn is_story(event_type: HappinessEventType) -> bool {
    match event_type {
        HappinessEventType::TopClubOpportunity => true,
        HappinessEventType::EliteTrainingLift => true,
        HappinessEventType::AdaptationBreakthrough => true,
        HappinessEventType::TrustedAfterStepUp => true,
        HappinessEventType::ProvedLevelAfterMove => true,
        HappinessEventType::SeniorMentorSupport => true,
        HappinessEventType::OverawedByEliteClub => true,
        HappinessEventType::RolePathBlockedAtEliteClub => true,
        HappinessEventType::MediaSpotlightPressure => true,
        HappinessEventType::DressingRoomStatusShock => true,
        HappinessEventType::TooGoodForLevel => true,
        HappinessEventType::TrainingStandardFrustration => true,
        HappinessEventType::FanExpectationBurden => true,
        HappinessEventType::StepDownEmbarrassment => true,
        HappinessEventType::LoanLevelMismatch => true,
        _ => false,
    }
}

/// Whether the log holds a story of the surroundings that is at most `days` old.
pub open spec fn recent_story(log: Seq<EventView>, days: int) -> bool {
    exists|i: int|
        0 <= i < log.len() && is_story((#[trigger] log[i]).event_type) && log[i].days_ago <= days
}

/// Whether the event is a story of the surroundings.
fn is_story_event(event_type: HappinessEventType) -> (r: bool)
    ensures
        r == is_story(event_type),
{
    match event_type {
        HappinessEventType::TopClubOpportunity => true,
        HappinessEventType::EliteTrainingLift => true,
        HappinessEventType::AdaptationBreakthrough => true,
        HappinessEventType::TrustedAfterStepUp => true,
        HappinessEventType::ProvedLevelAfterMove => true,
        HappinessEventType::SeniorMentorSupport => true,
        HappinessEventType::OverawedByEliteClub => true,
        HappinessEventType::RolePathBlockedAtEliteClub => true,
        HappinessEventType::MediaSpotlightPressure => true,
        HappinessEventType::DressingRoomStatusShock => true,
        HappinessEventType::TooGoodForLevel => true,
        HappinessEventType::TrainingStandardFrustration => true,
        HappinessEventType::FanExpectationBurden => true,
        HappinessEventType::StepDownEmbarrassment => true,
        HappinessEventType::LoanLevelMismatch => true,
        _ => false,
    }
}

/// What is measured of a week in single precision.
#[derive(Clone, Copy, Debug, PartialEq, Eq, Structural)]
pub struct WeeklyReadings {
    pub adaptation_score: Measure,
    pub avg_rating: Measure,
    /// The chance of the week.
    pub roll: Measure,
}

/// What a week after a move shows.
pub open spec fn weekly_signals(
    p: Player,
    days_since: int,
    league_reputation: u16,
    x: WeeklyReadings,
) -> WeeklyEnvSignals {
    WeeklyEnvSignals {
        days_since: days_since as i64,
        adaptation_score: x.adaptation_score,
        apps: p.appearances() as u32,
        starts: p.statistics.played as u32,
        avg_rating: x.avg_rating,
        league_reputation,
        ambition: p.attributes.ambition,
        pressure: p.attributes.pressure,
        current_reputation: p.player_attributes.current_reputation,
        had_recent_isolation: crate::happiness::recent(
            p.happiness@,
            HappinessEventType::FeelingIsolated,
            60,
        ),
        roll: x.roll,
    }
}

impl WeeklyEnvSignals {
    /// The stories that compete in a week. `lead` is how far the player's reputation exceeds
    /// the club's.
    pub open spec fn pool(self, dest_club_rep: int, lead: int) -> Seq<CandidateView> {
        let elite = if dest_club_rep >= 7500 && lead <= -2500 {
            let a = with_some(Seq::empty(), self.proved_level_after_move());
            let b = with_some(a, self.adaptation_breakthrough());
            let c = with_some(b, self.trusted_after_step_up());
            with_some(c, self.overawed_by_elite_club())
        } else {
            Seq::empty()
        };
        if lead >= 3500 {
            let a = with_some(elite, self.proved_level_after_move());
            let b = with_some(a, self.too_good_for_level());
            let c = with_some(b, self.training_standard_frustration());
            with_some(c, self.fan_expectation_burden())
        } else {
            elite
        }
    }

    /// The story of the week: the top of those that compete.
    pub fn weekly_story(&self, dest_club_rep: u16, lead: i32) -> (r: Option<EnvCandidate>)
        ensures
            seen(r) == top(self.pool(dest_club_rep as int, lead as int)),
    {
        let mut pool = EnvCandidatePool::new();
        if dest_club_rep >= 7500 && lead <= -2500 {
            pool.push_some(self.proved_level_after_move_candidate());
            pool.push_some(self.adaptation_breakthrough_candidate());
            pool.push_some(self.trusted_after_step_up_candidate());
            pool.push_some(self.overawed_by_elite_club_candidate());
        }
        if lead >= 3500 {
            pool.push_some(self.proved_level_after_move_candidate());
            pool.push_some(self.too_good_for_level_candidate());
            pool.push_some(self.training_standard_frustration_candidate());
            pool.push_some(self.fan_expectation_burden_candidate());
        }
        pool.into_top()
    }
}

/// Whether a week can have a story: not outside the 168 days after a move, and not while the last
/// one is at most seven days old.
pub open spec fn awaits_story(p: Player, now: Date) -> bool {
    &&& p.last_transfer_date is Some
    &&& 0 <= now.days - p.last_transfer_date->0.days <= 168
    &&& !recent_story(p.happiness@, 7)
}

/// The story of a week, where it can have one.
pub open spec fn story_of_week(
    p: Player,
    now: Date,
    dest_club_rep: u16,
    league_reputation: u16,
    x: WeeklyReadings,
) -> Option<CandidateView> {
    if awaits_story(p, now) {
        let days = now.days - p.last_transfer_date->0.days;
        top(
            weekly_signals(p, days, league_reputation, x).pool(
                dest_club_rep as int,
                p.player_attributes.world_reputation - dest_club_rep,
            ),
        )
    } else {
        None
    }
}

/// The word behind the roll of a player in a week.
pub open spec fn story_word_of(player_id: int, year: int, week: int) -> int {
    crate::noise::slice(
        crate::noise::mixed(
            crate::noise::mixed(week, player_id, 0xBF58_476D_1CE4_E5B9),
            crate::noise::word(year),
            54_321,
        ),
        0x2_0000,
    )
}

/// The word behind the roll of a player in the ISO week of a day; every day of the week gives
/// the same word.
pub fn environment_story_word(player_id: u32, day: Date) -> (r: u32)
    requires
        day.wf(),
    ensures
        exists|year: int|
            #[trigger] crate::date::in_year(crate::date::thursday_of(day.days as int), year) && r
                == story_word_of(
                player_id as int,
                year,
                (crate::date::thursday_of(day.days as int) - crate::date::days_before_year(year)
                    - 1) / 7 + 1,
            ),
{
    let (year, week): (i32, u32) = day.iso_week();
    let h: u64 = mix(week as u64, player_id as u64, 0xBF58_476D_1CE4_E5B9);
    let with_year: u64 = mix(h, to_word(year), 54_321);
    slice_of(with_year, 0x2_0000)
}

impl Player {
    /// Whether a story of the surroundings is at most `days` old.
    pub fn has_recent_environment_story_event(&self, days: u16) -> (r: bool)
        ensures
            r == recent_story(self.happiness@, days as int),
    {
        log_has_recent_story(&self.happiness, days)
    }

    /// Whether this week can have a story.
    pub fn awaits_environment_story(&self, now: Date) -> (r: bool)
        ensures
            r == awaits_story(*self, now),
    {
        match self.days_since_transfer(now) {
            Some(days) => days >= 0 && days <= 168 && !self.has_recent_environment_story_event(7),
            None => false,
        }
    }

    /// The story of a week, where there is one to tell.
    pub fn transfer_environment_story(
        &self,
        now: Date,
        dest_club_rep: u16,
        league_reputation: u16,
        x: &WeeklyReadings,
    ) -> (r: Option<EnvCandidate>)
        ensures
            seen(r) == story_of_week(*self, now, dest_club_rep, league_reputation, *x),
    {
        let days_since: i64 = match self.days_since_transfer(now) {
            Some(d) => d,
            None => {
                return None;
            },
        };
        if !self.awaits_environment_story(now) {
            return None;
        }
        let signals = WeeklyEnvSignals {
            days_since,
            adaptation_score: x.adaptation_score,
            apps: self.statistics.played as u32 + self.statistics.played_subs as u32,
            starts: self.statistics.played as u32,
            avg_rating: x.avg_rating,
            league_reputation,
            ambition: self.attributes.ambition,
            pressure: self.attributes.pressure,
            current_reputation: self.player_attributes.current_reputation,
            had_recent_isolation: self.happiness.has_recent_event(
                HappinessEventType::FeelingIsolated,
                60,
            ),
            roll: x.roll,
        };
        let lead: i32 = self.player_attributes.world_reputation as i32 - dest_club_rep as i32;
        signals.weekly_story(dest_club_rep, lead)
    }

    /// Logs a story, unless one of its type is within its cooldown. Returns whether it was
    /// logged.
    pub fn emit_candidate(&mut self, c: EnvCandidate, magnitude: Measure) -> (r: bool)
        ensures
            r == !crate::happiness::recent(
                old(self).happiness@,
                c.event_type,
                c.cooldown_days as int,
            ),
            final(self).happiness@ == crate::happiness::log_with_cooldown(
                old(self).happiness@,
                EventView::today(c.event_type, magnitude, Some(c.context@)),
                c.cooldown_days as int,
            ),
            final(self).happiness.morale == old(self).happiness.morale,
            *final(self) == (Player { happiness: final(self).happiness, ..*old(self) }),
    {
        self.happiness.add_event_with_context_and_cooldown(
            c.event_type,
            magnitude,
            c.context,
            c.cooldown_days,
        )
    }
}

/// Whether a story of the surroundings in the log is at most `days` old.
fn log_has_recent_story(happiness: &PlayerHappiness, days: u16) -> (r: bool)
    ensures
        r == recent_story(happiness@, days as int),
{
    let mut i: usize = 0;
    while i < happiness.recent_events.len()
        invariant
            i <= happiness.recent_events@.len(),
            happiness@.len() == happiness.recent_events@.len(),
            forall|j: int|
                0 <= j < i ==> !(is_story((#[trigger] happiness@[j]).event_type)
                    && happiness@[j].days_ago <= days),
        decreases happiness.recent_events@.len() - i,
    {
        let e = &happiness.recent_events[i];
        assert(happiness@[i as int] == e@);
        if e.days_ago <= days && is_story_event(e.event_type) {
            assert(is_story(happiness@[i as int].event_type));
            return true;
        }
        i = i + 1;
    }
    false
}

/// How the top of a list changes with one more candidate.
pub proof fn lemma_top_with(s: Seq<CandidateView>, c: Option<CandidateView>)
    ensures
        top(with_some(s, c)) == match c {
            Some(x) => if top(s) is None || x.priority > top(s)->0.priority {
                Some(x)
            } else {
                top(s)
            },
            None => top(s),
        },
{
    if c is Some {
        assert(s.push(c->0).drop_last() =~= s);
    }
}

/// Whether the story tells that the move worked out.
pub open spec fn is_good_news(c: CandidateView) -> bool {
    c.event_type is ProvedLevelAfterMove || c.event_type is AdaptationBreakthrough
        || c.event_type is TrustedAfterStepUp
}

/// Good news comes first: in a week at a big club in which any of the good news can be told,
/// one of them is, and in any week in which the player proved his level that is the story.
pub proof fn lemma_good_news_first(w: WeeklyEnvSignals, dest_club_rep: int, lead: int)
    ensures
        ({
            let story = top(w.pool(dest_club_rep, lead));
            let at_elite = dest_club_rep >= 7500 && lead <= -2500;
            let good = w.proved_level_after_move() is Some || w.adaptation_breakthrough() is Some
                || w.trusted_after_step_up() is Some;
            &&& at_elite && good ==> story is Some && is_good_news(story->0)
            &&& (at_elite || lead >= 3500) && w.proved_level_after_move() is Some ==> story
                == w.proved_level_after_move()
            &&& story is Some ==> is_story(story->0.event_type)
            &&& !at_elite && lead < 3500 ==> story is None
        }),
{
    let none = Seq::<CandidateView>::empty();
    let elite = if dest_club_rep >= 7500 && lead <= -2500 {
        let a = with_some(none, w.proved_level_after_move());
        let b = with_some(a, w.adaptation_breakthrough());
        let c = with_some(b, w.trusted_after_step_up());
        lemma_top_with(none, w.proved_level_after_move());
        lemma_top_with(a, w.adaptation_breakthrough());
        lemma_top_with(b, w.trusted_after_step_up());
        lemma_top_with(c, w.overawed_by_elite_club());
        with_some(c, w.overawed_by_elite_club())
    } else {
        none
    };
    if lead >= 3500 {
        let a = with_some(elite, w.proved_level_after_move());
        let b = with_some(a, w.too_good_for_level());
        let c = with_some(b, w.training_standard_frustration());
        lemma_top_with(elite, w.proved_level_after_move());
        lemma_top_with(a, w.too_good_for_level());
        lemma_top_with(b, w.training_standard_frustration());
        lemma_top_with(c, w.fan_expectation_burden());
    }
}

/// One story a week: with the story of the week in the log no second one is told until it is
/// eight days old.
pub proof fn lemma_one_story_a_week(
    p: Player,
    after: Player,
    now: Date,
    later: Date,
    dest_club_rep: u16,
    league_reputation: u16,
    x: WeeklyReadings,
    e: EventView,
)
    requires
        story_of_week(p, now, dest_club_rep, league_reputation, x) is Some,
        e.event_type == story_of_week(p, now, dest_club_rep, league_reputation, x)->0.event_type,
        e.days_ago <= 7,
        after.happiness@.contains(e),
    ensures
        forall|club: u16, league: u16, y: WeeklyReadings|
            #[trigger] story_of_week(after, later, club, league, y) is None,
{
    let days = now.days - p.last_transfer_date->0.days;
    lemma_good_news_first(
        weekly_signals(p, days, league_reputation, x),
        dest_club_rep as int,
        p.player_attributes.world_reputation - dest_club_rep,
    );
    let i = choose|i: int| 0 <= i < after.happiness@.len() && after.happiness@[i] == e;
    assert(is_story(after.happiness@[i].event_type));
}

/// The word behind the roll is one for all days of a week.
pub proof fn lemma_one_word_a_week(player_id: int, a: int, b: int, year_a: int, year_b: int)
    requires
        crate::date::thursday_of(a) == crate::date::thursday_of(b),
        crate::date::in_year(crate::date::thursday_of(a), year_a),
        crate::date::in_year(crate::date::thursday_of(b), year_b),
    ensures
        story_word_of(
            player_id,
            year_a,
            (crate::date::thursday_of(a) - crate::date::days_before_year(year_a) - 1) / 7 + 1,
        ) == story_word_of(
            player_id,
            year_b,
            (crate::date::thursday_of(b) - crate::date::days_before_year(year_b) - 1) / 7 + 1,
        ),
{
    crate::date::lemma_year_unique(crate::date::thursday_of(a), year_a, year_b);
}

/// The number of stories that play a part.
pub open spec fn count_role(s: Seq<CandidateView>, role: EnvRole) -> nat
    decreases s.len(),
{
    if s.len() == 0 {
        0
    } else if s.last().role == role {
        count_role(s.drop_last(), role) + 1
    } else {
        count_role(s.drop_last(), role)
    }
}

/// How the number of stories changes with one more candidate.
proof fn lemma_count_with(s: Seq<CandidateView>, c: Option<CandidateView>, role: EnvRole)
    ensures
        count_role(with_some(s, c), role) == count_role(s, role) + if c is Some && c->0.role
            == role {
            1nat
        } else {
            0nat
        },
        with_some(s, c).len() <= s.len() + 1,
{
    if c is Some {
        assert(s.push(c->0).drop_last() =~= s);
    }
}

/// The first day stays readable: one headline at most, five stories at most, and one addition,
/// or two for a signing from a rival. A loan brings no frost.
pub proof fn lemma_first_day_is_readable(
    t: TransferEnvironmentProfile,
    s: SocialSignals,
    x: ProfileReadings,
)
    ensures
        count_role(t.first_day_stories(s, x), EnvRole::Primary) <= 1,
        count_role(t.first_day_stories(s, x), EnvRole::Flavor) <= if t.source_is_rival
            && !t.is_loan {
            2nat
        } else {
            1nat
        },
        t.first_day_stories(s, x).len() <= 5,
{
    let pool = t.first_day_pool(s, x);
    lemma_top_of(pool, EnvRole::Primary);
    lemma_top_of(pool, EnvRole::Flavor);
    let mismatch = if t.is_loan {
        t.loan_level_mismatch()
    } else {
        None
    };
    let none = Seq::<CandidateView>::empty();
    let a = with_some(none, top_of(pool, EnvRole::Primary));
    let b = with_some(a, top_of(pool, EnvRole::Flavor));
    let c = with_some(b, mismatch);
    let d = with_some(c, t.media_spotlight_pressure(x.step_up));
    lemma_count_with(none, top_of(pool, EnvRole::Primary), EnvRole::Primary);
    lemma_count_with(none, top_of(pool, EnvRole::Primary), EnvRole::Flavor);
    lemma_count_with(a, top_of(pool, EnvRole::Flavor), EnvRole::Primary);
    lemma_count_with(a, top_of(pool, EnvRole::Flavor), EnvRole::Flavor);
    lemma_count_with(b, mismatch, EnvRole::Primary);
    lemma_count_with(b, mismatch, EnvRole::Flavor);
    lemma_count_with(c, t.media_spotlight_pressure(x.step_up), EnvRole::Primary);
    lemma_count_with(c, t.media_spotlight_pressure(x.step_up), EnvRole::Flavor);
    lemma_count_with(d, t.cold_shoulder_over_rival_past(), EnvRole::Primary);
    lemma_count_with(d, t.cold_shoulder_over_rival_past(), EnvRole::Flavor);
}

/// How the top of a role changes with one more candidate.
pub proof fn lemma_top_of_with(s: Seq<CandidateView>, c: Option<CandidateView>, role: EnvRole)
    ensures
        top_of(with_some(s, c), role) == match c {
            Some(x) => if x.role == role && (top_of(s, role) is None || x.priority > top_of(
                s,
                role,
            )->0.priority) {
                Some(x)
            } else {
                top_of(s, role)
            },
            None => top_of(s, role),
        },
{
    if c is Some {
        assert(s.push(c->0).drop_last() =~= s);
    }
}

/// A small name at a big club leads with the chance it has, whatever else there is to tell.
pub proof fn lemma_chance_leads(
    t: TransferEnvironmentProfile,
    s: SocialSignals,
    x: ProfileReadings,
)
    requires
        t.weak_at_elite(),
    ensures
        t.first_day_stories(s, x).len() >= 1,
        t.first_day_stories(s, x)[0] == t.top_club_opportunity()->0,
{
    let none = Seq::<CandidateView>::empty();
    let role = EnvRole::Primary;
    let a = with_some(none, t.top_club_opportunity());
    let b = with_some(a, t.elite_training_lift(x.diligence));
    let c = with_some(b, t.overawed_by_elite_club());
    let d = with_some(c, t.role_path_blocked());
    let e = with_some(d, t.dressing_room_status_shock());
    let elite = t.elite_stories(s, x);
    lemma_top_of_with(none, t.top_club_opportunity(), role);
    lemma_top_of_with(a, t.elite_training_lift(x.diligence), role);
    lemma_top_of_with(b, t.overawed_by_elite_club(), role);
    lemma_top_of_with(c, t.role_path_blocked(), role);
    lemma_top_of_with(d, t.dressing_room_status_shock(), role);
    lemma_top_of_with(e, t.senior_mentor_support(s), role);
    assert(top_of(elite, role) == t.top_club_opportunity());
    if t.star_at_weak() {
        let f = with_some(elite, t.too_good_for_level());
        let g = with_some(f, t.step_down_embarrassment());
        let h = with_some(g, t.training_standard_frustration());
        let i = with_some(h, t.fan_expectation_burden_first_tick());
        lemma_top_of_with(elite, t.too_good_for_level(), role);
        lemma_top_of_with(f, t.step_down_embarrassment(), role);
        lemma_top_of_with(g, t.training_standard_frustration(), role);
        lemma_top_of_with(h, t.fan_expectation_burden_first_tick(), role);
        lemma_top_of_with(i, t.dressing_room_status_shock(), role);
    }
    assert(top_of(t.first_day_pool(s, x), role) == t.top_club_opportunity());
}

} // verus!
