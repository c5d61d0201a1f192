//! What the surroundings of a move promise: which story is told, when, how strongly, and before
//! which other.

#[allow(unused_imports)]
use crate::date::Date;
#[allow(unused_imports)]
use crate::environment::{
    awaits_story, is_story, lemma_top_of_with, lemma_top_with, on_scale, recent_story, top, top_of,
    top_club_age_factor, weekly_signals, with_some, CandidateView, EnvRole, MagnitudeFactor,
    ProfileReadings, SocialSignals, TransferEnvironmentProfile, WeeklyEnvSignals, WeeklyReadings,
};
#[allow(unused_imports)]
use crate::happiness::{EventView, HappinessEventEvidence, HappinessEventType};
#[allow(unused_imports)]
use crate::measure::Measure;
#[allow(unused_imports)]
use crate::player::Player;
#[allow(unused_imports)]
use vstd::prelude::*;

verus! {

/// Who is a small name at a big club, and who a big name at a small one. The first takes a club of
/// 7500, a step of 2500 to it or of 2000 to its league, and an ability more than 15 below the
/// league or a name more than 2500 below the club. The second takes a name 3000 above the club or
/// an ability 35 above the league.
pub proof fn lemma_small_and_big_names(t: TransferEnvironmentProfile)
    ensures
        ({
            let level = t.expected_ca();
            &&& t.weak_at_elite() <==> {
                &&& t.dest_club_rep >= 7500
                &&& t.dest_club_rep >= t.source_club_rep + 2500 || t.dest_league_rep
                    >= t.source_league_rep + 2000
                &&& t.player_ca + 15 < level || t.player_world_rep + 2500 < t.dest_club_rep
            }
            &&& t.star_at_weak() <==> t.player_world_rep >= t.dest_club_rep + 3000 || t.player_ca
                >= level + 35
            &&& 45 <= level <= 175
            &&& 2700 <= t.dest_league_rep < 10560 ==> 60 * level <= t.dest_league_rep < 60 * level
                + 60
            &&& t.dest_league_rep < 2700 ==> level == 45
            &&& t.dest_league_rep >= 10560 ==> level == 175
        }),
{
}

/// How much of a stage a move is: nothing from nowhere, everything at the top of all three scales,
/// half of it by the club, three tenths by the league and two by the player's own name.
pub proof fn lemma_stage_of_a_move(t: TransferEnvironmentProfile, u: TransferEnvironmentProfile)
    ensures
        ({
            let club = t.dest_club_rep <= 10000 && u.dest_club_rep <= 10000;
            let league = t.dest_league_rep <= 10000 && u.dest_league_rep <= 10000;
            let name = 0 <= t.player_current_rep <= 10000 && 0 <= u.player_current_rep <= 10000;
            let more = u.pressure_millionths() - t.pressure_millionths();
            &&& club && u.dest_league_rep == t.dest_league_rep && u.player_current_rep
                == t.player_current_rep ==> more == 50 * (u.dest_club_rep - t.dest_club_rep)
            &&& league && u.dest_club_rep == t.dest_club_rep && u.player_current_rep
                == t.player_current_rep ==> more == 30 * (u.dest_league_rep - t.dest_league_rep)
            &&& name && u.dest_club_rep == t.dest_club_rep && u.dest_league_rep
                == t.dest_league_rep ==> more == 20 * (u.player_current_rep - t.player_current_rep)
            &&& 0 <= t.pressure_millionths() <= 1_000_000
            &&& t.dest_club_rep == 0 && t.dest_league_rep == 0 && t.player_current_rep <= 0
                ==> t.pressure_millionths() == 0
            &&& t.dest_club_rep >= 10000 && t.dest_league_rep >= 10000 && t.player_current_rep
                >= 10000 ==> t.pressure_millionths() == 1_000_000
        }),
{
}

/// When each story of a first day can be told.
pub proof fn lemma_when_a_first_day_has_a_story(
    t: TransferEnvironmentProfile,
    s: SocialSignals,
    x: ProfileReadings,
)
    ensures
        ({
            let one = crate::measure::one();
            let rank = t.dest_position_depth_rank;
            let fourth = rank is Some && rank->0 >= 4;
            let third = rank is Some && rank->0 >= 3;
            let thin = t.pressure.units() <= 8 * one;
            &&& t.top_club_opportunity() is Some
            &&& t.elite_training_lift(x.diligence) is Some <==> x.diligence.units() >= 24 * one
            &&& t.overawed_by_elite_club() is Some <==> thin || fourth
            &&& t.role_path_blocked() is Some <==> fourth
            &&& t.dressing_room_status_shock() is Some <==> t.dest_club_rep >= t.source_club_rep
                + 1500 && (third || t.player_ca + 25 <= t.expected_ca())
            &&& t.senior_mentor_support(s) is Some <==> s.same_language_teammates > 0
                || s.same_nationality_teammates > 0 || t.professionalism.units() >= 12 * one
            &&& t.too_good_for_level() is Some <==> !(t.destination_is_favorite
                && t.ambition.units() < 16 * one)
            &&& t.step_down_embarrassment() is Some <==> (t.source_club_rep >= t.dest_club_rep
                + 2000 || t.source_league_rep >= t.dest_league_rep + 1500) && !(
            t.destination_is_favorite && t.loyalty.units() >= 15 * one)
            &&& t.training_standard_frustration() is Some <==> t.source_league_rep
                >= t.dest_league_rep + 2500
            &&& t.fan_expectation_burden_first_tick() is Some <==> !t.is_loan
                && t.player_current_rep >= 6000 && (t.high_fee || t.player_world_rep
                >= t.dest_club_rep + 2000)
            &&& t.cold_shoulder_over_rival_past() is Some <==> t.source_is_rival && !t.is_loan
            &&& t.media_spotlight_pressure(x.step_up) is Some <==> t.pressure_millionths()
                >= 650_000 && (t.pressure.units() <= 10 * one || !x.step_up.lt_hundredths(30))
            &&& t.loan_level_mismatch() is Some <==> t.player_world_rep >= t.dest_club_rep + 2500
                || t.dest_club_rep >= t.source_club_rep + 2500
        }),
{
}

/// What the stories of a first day are about, for how long each rests, and what scales it. Youth
/// feels a big club more and age less; a professional takes a blow better; a thin skin, ambition
/// and company each have their say.
pub proof fn lemma_stories_of_a_first_day(
    t: TransferEnvironmentProfile,
    s: SocialSignals,
    x: ProfileReadings,
)
    ensures
        ({
            let one = crate::measure::one();
            let thin = t.pressure.units() <= 8 * one;
            let keen = t.ambition.units() >= 15 * one;
            let plain = MagnitudeFactor::One;
            &&& t.top_club_opportunity() is Some ==> {
                let c = t.top_club_opportunity()->0;
                &&& c.event_type is TopClubOpportunity && c.role is Primary
                    && c.cooldown_days == 120
                &&& c.magnitude.first == top_club_age_factor(t.age as int)
                &&& c.magnitude.second == MagnitudeFactor::Ambition
                &&& c.context.cause is ReputationAdmiration && c.context.scope is Personal
                &&& c.context.follow_up is Some && c.context.follow_up->0 is PressureBuilding
            }
            &&& t.elite_training_lift(x.diligence) is Some ==> {
                let c = t.elite_training_lift(x.diligence)->0;
                &&& c.event_type is EliteTrainingLift && c.role is Flavor && c.cooldown_days == 60
                &&& c.magnitude.first == MagnitudeFactor::Ambition
                &&& c.magnitude.second == plain
                &&& c.context.cause is TrainingPartnership && c.context.scope is TrainingGround
                &&& c.context.follow_up is Some && c.context.follow_up->0 is TrendImproving
            }
            &&& t.overawed_by_elite_club() is Some ==> {
                let c = t.overawed_by_elite_club()->0;
                &&& c.event_type is OverawedByEliteClub && c.role is Flavor && c.cooldown_days == 30
                &&& c.magnitude.first == top_club_age_factor(t.age as int)
                &&& c.magnitude.second == MagnitudeFactor::Professionalism
                &&& c.context.cause is ReputationTension && c.context.scope is DressingRoom
                &&& c.context.follow_up is Some && c.context.follow_up->0 is SettlingInProgress
            }
            &&& t.role_path_blocked() is Some ==> {
                let c = t.role_path_blocked()->0;
                &&& c.event_type is RolePathBlockedAtEliteClub && c.role is Flavor
                    && c.cooldown_days == 30
                &&& c.magnitude.first == top_club_age_factor(t.age as int)
                &&& c.magnitude.second == MagnitudeFactor::Professionalism
                &&& c.context.cause is PositionalRivalry && c.context.scope is MatchDay
                &&& c.context.follow_up is Some && c.context.follow_up->0 is ContractRequestRisk
            }
            &&& t.dressing_room_status_shock() is Some ==> {
                let c = t.dressing_room_status_shock()->0;
                &&& c.event_type is DressingRoomStatusShock && c.role is Flavor
                    && c.cooldown_days == 45
                &&& c.magnitude.first == MagnitudeFactor::Professionalism
                &&& c.magnitude.second == plain
                &&& c.context.cause is ReputationTension && c.context.scope is DressingRoom
                &&& c.context.follow_up is Some && c.context.follow_up->0 is SettlingInProgress
            }
            &&& t.senior_mentor_support(s) is Some ==> {
                let c = t.senior_mentor_support(s)->0;
                &&& c.event_type is SeniorMentorSupport && c.role is Flavor && c.cooldown_days == 60
                &&& c.magnitude.first == if s.same_nationality_teammates >= 1 { MagnitudeFactor::Percent(115) } else { plain }
                &&& c.magnitude.second == if s.same_language_teammates >= 2 { MagnitudeFactor::Percent(110) } else { plain }
                &&& c.context.cause is DressingRoomLift && c.context.scope is DressingRoom
                &&& c.context.follow_up is Some && c.context.follow_up->0 is LikelyToSettle
            }
            &&& t.too_good_for_level() is Some ==> {
                let c = t.too_good_for_level()->0;
                &&& c.event_type is TooGoodForLevel && c.role is Primary && c.cooldown_days == 45
                &&& c.magnitude.first == if keen { MagnitudeFactor::Percent(130) } else { plain }
                &&& c.magnitude.second == if t.loyalty.units() >= 15 * one
                    && t.destination_is_favorite { MagnitudeFactor::Percent(55) } else { plain }
                &&& c.context.cause is ReputationTension && c.context.scope is MatchDay
                &&& c.context.follow_up is Some && c.context.follow_up->0 is ContractRequestRisk
            }
            &&& t.step_down_embarrassment() is Some ==> {
                let c = t.step_down_embarrassment()->0;
                &&& c.event_type is StepDownEmbarrassment && c.role is Primary
                    && c.cooldown_days == 60
                &&& c.magnitude.first == if t.age >= 33 { MagnitudeFactor::Percent(75) } else { plain }
                &&& c.magnitude.second == if keen { MagnitudeFactor::Percent(130) } else { plain }
                &&& c.context.cause is MediaPressure && c.context.scope is Media
                &&& c.context.follow_up is Some && c.context.follow_up->0 is PressureBuilding
            }
            &&& t.training_standard_frustration() is Some ==> {
                let c = t.training_standard_frustration()->0;
                &&& c.event_type is TrainingStandardFrustration && c.role is Flavor
                    && c.cooldown_days == 45
                &&& c.magnitude.first == if t.professionalism.units() >= 15 * one { MagnitudeFactor::Percent(120) } else { plain }
                &&& c.magnitude.second == plain
                &&& c.context.cause is TrainingFriction && c.context.scope is TrainingGround
                &&& c.context.follow_up is Some && c.context.follow_up->0 is PressureBuilding
            }
            &&& t.fan_expectation_burden_first_tick() is Some ==> {
                let c = t.fan_expectation_burden_first_tick()->0;
                &&& c.event_type is FanExpectationBurden && c.role is Flavor
                    && c.cooldown_days == 45
                &&& c.magnitude.first == if thin { MagnitudeFactor::Percent(130) } else { plain }
                &&& c.magnitude.second == plain
                &&& c.context.cause is MediaPressure && c.context.scope is Media
                &&& c.context.follow_up is Some && c.context.follow_up->0 is PressureBuilding
            }
            &&& t.cold_shoulder_over_rival_past() is Some ==> {
                let c = t.cold_shoulder_over_rival_past()->0;
                &&& c.event_type is ColdShoulderOverRivalPast && c.role is Flavor
                    && c.cooldown_days == 365
                &&& c.magnitude.first == if thin { MagnitudeFactor::Percent(125) } else { plain }
                &&& c.magnitude.second == plain
                &&& c.context.cause is ReputationTension && c.context.scope is DressingRoom
                &&& c.context.follow_up is Some && c.context.follow_up->0 is SettlingInProgress
            }
            &&& t.media_spotlight_pressure(x.step_up) is Some ==> {
                let c = t.media_spotlight_pressure(x.step_up)->0;
                &&& c.event_type is MediaSpotlightPressure && c.role is Universal
                    && c.cooldown_days == 30
                &&& c.magnitude.first == MagnitudeFactor::Professionalism
                &&& c.magnitude.second == plain
                &&& c.context.cause is MediaPressure && c.context.scope is Media
                &&& c.context.follow_up is Some && c.context.follow_up->0 is PressureBuilding
            }
            &&& t.loan_level_mismatch() is Some ==> {
                let c = t.loan_level_mismatch()->0;
                &&& c.event_type is LoanLevelMismatch && c.role is Universal
                    && c.cooldown_days == 60
                &&& c.magnitude.first == plain
                &&& c.magnitude.second == plain
                &&& c.context.cause is TacticalDisagreement && c.context.scope is MatchDay
                &&& c.context.follow_up is Some && c.context.follow_up->0 is SettlingInProgress
            }
        }),
{
}

/// Which story goes before which: of the headlines the chance, then being too good, then the shame;
/// of the additions support before a blocked way, a lost standing, better training, awe, bad
/// training, a rival's past and the fans.
pub proof fn lemma_which_story_goes_first(
    t: TransferEnvironmentProfile,
    s: SocialSignals,
    x: ProfileReadings,
)
    ensures
        t.top_club_opportunity() is Some
            && t.too_good_for_level() is Some ==> t.top_club_opportunity()->0.priority > t.too_good_for_level()->0.priority,
        t.too_good_for_level() is Some
            && t.step_down_embarrassment() is Some ==> t.too_good_for_level()->0.priority > t.step_down_embarrassment()->0.priority,
        t.senior_mentor_support(s) is Some
            && t.role_path_blocked() is Some ==> t.senior_mentor_support(s)->0.priority > t.role_path_blocked()->0.priority,
        t.role_path_blocked() is Some
            && t.dressing_room_status_shock() is Some ==> t.role_path_blocked()->0.priority > t.dressing_room_status_shock()->0.priority,
        t.dressing_room_status_shock() is Some
            && t.elite_training_lift(x.diligence) is Some ==> t.dressing_room_status_shock()->0.priority > t.elite_training_lift(x.diligence)->0.priority,
        t.elite_training_lift(x.diligence) is Some
            && t.overawed_by_elite_club() is Some ==> t.elite_training_lift(x.diligence)->0.priority > t.overawed_by_elite_club()->0.priority,
        t.overawed_by_elite_club() is Some
            && t.training_standard_frustration() is Some ==> t.overawed_by_elite_club()->0.priority > t.training_standard_frustration()->0.priority,
        t.training_standard_frustration() is Some
            && t.cold_shoulder_over_rival_past() is Some ==> t.training_standard_frustration()->0.priority > t.cold_shoulder_over_rival_past()->0.priority,
        t.cold_shoulder_over_rival_past() is Some
            && t.fan_expectation_burden_first_tick() is Some ==> t.cold_shoulder_over_rival_past()->0.priority > t.fan_expectation_burden_first_tick()->0.priority,
{
}

/// The top of a list with one more candidate behind it, for each role.
proof fn lemma_top_steps(
    t: TransferEnvironmentProfile,
    s: SocialSignals,
    x: ProfileReadings,
    role: EnvRole,
)
    requires
        role is Primary || role is Flavor,
    ensures
        ({
            let elite = t.weak_at_elite();
            let star = t.star_at_weak();
            let best = top_of(t.first_day_pool(s, x), role);
            &&& role is Primary ==> best == if elite {
                t.top_club_opportunity()
            } else if star && t.too_good_for_level() is Some {
                t.too_good_for_level()
            } else if star {
                t.step_down_embarrassment()
            } else {
                None
            }
            &&& role is Flavor ==> best == if elite && t.senior_mentor_support(s) is Some {
                t.senior_mentor_support(s)
            } else if elite && t.role_path_blocked() is Some {
                t.role_path_blocked()
            } else if (elite || star) && t.dressing_room_status_shock() is Some {
                t.dressing_room_status_shock()
            } else if elite && t.elite_training_lift(x.diligence) is Some {
                t.elite_training_lift(x.diligence)
            } else if elite && t.overawed_by_elite_club() is Some {
                t.overawed_by_elite_club()
            } else if star && t.training_standard_frustration() is Some {
                t.training_standard_frustration()
            } else if star {
                t.fan_expectation_burden_first_tick()
            } else {
                None
            }
        }),
{
    let none = Seq::<CandidateView>::empty();
    let start = if t.weak_at_elite() {
        let a = with_some(none, t.top_club_opportunity());
        let b = with_some(a, t.elite_training_lift(x.diligence));
        let c = with_some(b, t.overawed_by_elite_club());
        let d = with_some(c, t.role_path_blocked());
        let e = with_some(d, t.dressing_room_status_shock());
        lemma_top_of_with(none, t.top_club_opportunity(), role);
        lemma_top_of_with(a, t.elite_training_lift(x.diligence), role);
        lemma_top_of_with(b, t.overawed_by_elite_club(), role);
        lemma_top_of_with(c, t.role_path_blocked(), role);
        lemma_top_of_with(d, t.dressing_room_status_shock(), role);
        lemma_top_of_with(e, t.senior_mentor_support(s), role);
        t.elite_stories(s, x)
    } else {
        none
    };
    if t.star_at_weak() {
        let f = with_some(start, t.too_good_for_level());
        let g = with_some(f, t.step_down_embarrassment());
        let h = with_some(g, t.training_standard_frustration());
        let i = with_some(h, t.fan_expectation_burden_first_tick());
        lemma_top_of_with(start, t.too_good_for_level(), role);
        lemma_top_of_with(f, t.step_down_embarrassment(), role);
        lemma_top_of_with(g, t.training_standard_frustration(), role);
        lemma_top_of_with(h, t.fan_expectation_burden_first_tick(), role);
        lemma_top_of_with(i, t.dressing_room_status_shock(), role);
    }
}

/// Whether a list tells of an event of this type.
pub open spec fn told(s: Seq<CandidateView>, t: HappinessEventType) -> bool {
    exists|i: int| 0 <= i < s.len() && (#[trigger] s[i]).event_type == t
}

proof fn lemma_told_with(s: Seq<CandidateView>, c: Option<CandidateView>, t: HappinessEventType)
    ensures
        told(with_some(s, c), t) <==> told(s, t) || (c is Some && c->0.event_type == t),
{
    let after = with_some(s, c);
    if told(s, t) {
        let i = choose|i: int| 0 <= i < s.len() && (#[trigger] s[i]).event_type == t;
        assert(after[i].event_type == t);
    }
    if c is Some {
        assert(after[s.len() as int] == c->0);
    }
    if told(after, t) {
        let i = choose|i: int| 0 <= i < after.len() && (#[trigger] after[i]).event_type == t;
        if i < s.len() {
            assert(s[i].event_type == t);
        }
    }
}

/// What a first day tells. A small name at a big club tells of its chance; a big name at a small
/// one that it is too good for the level or, at a club it loves, of the shame if there is any. One
/// thing is added to it, the first that holds. A loan off the player's level, a large stage and a
/// rival's past are told besides.
pub proof fn lemma_what_a_first_day_tells(
    t: TransferEnvironmentProfile,
    s: SocialSignals,
    x: ProfileReadings,
)
    ensures
        ({
            let stories = t.first_day_stories(s, x);
            let elite = t.weak_at_elite();
            let star = t.star_at_weak() && !elite;
            let supported = t.senior_mentor_support(s) is Some;
            let blocked = t.role_path_blocked() is Some;
            let fallen = t.dressing_room_status_shock() is Some;
            &&& told(stories, HappinessEventType::TopClubOpportunity) <==> elite
            &&& told(stories, HappinessEventType::TooGoodForLevel) <==> star
                && t.too_good_for_level() is Some
            &&& told(stories, HappinessEventType::StepDownEmbarrassment) <==> star
                && t.too_good_for_level() is None && t.step_down_embarrassment() is Some
            &&& told(stories, HappinessEventType::SeniorMentorSupport) <==> elite && supported
            &&& told(stories, HappinessEventType::RolePathBlockedAtEliteClub) <==> elite
                && !supported && blocked
            &&& told(stories, HappinessEventType::DressingRoomStatusShock) <==> fallen && (star || (
            elite && !supported && !blocked))
            &&& told(stories, HappinessEventType::LoanLevelMismatch) <==> t.is_loan
                && t.loan_level_mismatch() is Some
            &&& told(stories, HappinessEventType::MediaSpotlightPressure)
                <==> t.media_spotlight_pressure(x.step_up) is Some
            &&& told(stories, HappinessEventType::ColdShoulderOverRivalPast)
                <==> t.source_is_rival && !t.is_loan
            &&& star && !fallen && t.training_standard_frustration() is Some ==> told(
                stories,
                HappinessEventType::TrainingStandardFrustration,
            )
            &&& star && !fallen && t.training_standard_frustration() is None
                && t.fan_expectation_burden_first_tick() is Some ==> told(
                stories,
                HappinessEventType::FanExpectationBurden,
            )
            &&& elite && !supported && !blocked && !fallen && t.elite_training_lift(x.diligence)
                is Some ==> told(stories, HappinessEventType::EliteTrainingLift)
        }),
{
    let pool = t.first_day_pool(s, x);
    lemma_top_steps(t, s, x, EnvRole::Primary);
    lemma_top_steps(t, s, x, EnvRole::Flavor);
    let lead = top_of(pool, EnvRole::Primary);
    let more = top_of(pool, EnvRole::Flavor);
    let mismatch = if t.is_loan {
        t.loan_level_mismatch()
    } else {
        None
    };
    let stage = t.media_spotlight_pressure(x.step_up);
    let none = Seq::<CandidateView>::empty();
    let a = with_some(none, lead);
    let b = with_some(a, more);
    let c = with_some(b, mismatch);
    let d = with_some(c, stage);
    assert forall|e: HappinessEventType| #[trigger] told(t.first_day_stories(s, x), e) <==> (lead
        is Some && lead->0.event_type == e) || (more is Some && more->0.event_type == e)
            || (mismatch
        is Some && mismatch->0.event_type == e) || (stage is Some && stage->0.event_type == e) || (
    t.cold_shoulder_over_rival_past() is Some && t.cold_shoulder_over_rival_past()->0.event_type
        == e) by {
        lemma_told_with(none, lead, e);
        lemma_told_with(a, more, e);
        lemma_told_with(b, mismatch, e);
        lemma_told_with(c, stage, e);
        lemma_told_with(d, t.cold_shoulder_over_rival_past(), e);
    }
}

/// When each story of a week can be told.
pub proof fn lemma_when_a_week_has_a_story(w: WeeklyEnvSignals)
    ensures
        ({
            let one = crate::measure::one();
            let score = w.adaptation_score.units();
            let well = w.avg_rating.units() >= 7 * one;
            &&& w.proved_level_after_move() is Some <==> w.apps >= 6 && well
                && w.roll.lt_hundredths(45)
            &&& w.adaptation_breakthrough() is Some <==> score >= 65 * one && w.had_recent_isolation
                && w.roll.lt_hundredths(50)
            &&& w.trusted_after_step_up() is Some <==> w.apps >= 5 && 100 * w.starts >= 55 * w.apps
                && score >= 55 * one && w.roll.lt_hundredths(55)
            &&& w.overawed_by_elite_club() is Some <==> w.days_since <= 60 && score < 45 * one
                && w.roll.lt_hundredths(40)
            &&& w.too_good_for_level() is Some <==> w.ambition.units() >= 13 * one && (w.apps < 3
                || !well) && w.roll.lt_hundredths(35)
            &&& w.training_standard_frustration() is Some <==> w.league_reputation < 4500
                && w.roll.lt_hundredths(30)
            &&& w.fan_expectation_burden() is Some <==> w.current_reputation >= 6000
                && w.pressure.units() <= 8 * one && w.apps >= 3 && !well && w.roll.lt_hundredths(30)
        }),
{
}

/// What the stories of a week are about, and for how long each rests.
pub proof fn lemma_stories_of_a_week(w: WeeklyEnvSignals)
    ensures
        w.adaptation_breakthrough() is Some ==> {
            let c = w.adaptation_breakthrough()->0;
            &&& c.event_type is AdaptationBreakthrough && c.role is Primary && c.cooldown_days == 60
            &&& c.magnitude.first == MagnitudeFactor::One
                && c.magnitude.second == MagnitudeFactor::One
            &&& c.context.cause is AdaptationIsolation && c.context.scope is Personal
            &&& c.context.follow_up is Some && c.context.follow_up->0 is LikelyToSettle
        },
        w.trusted_after_step_up() is Some ==> {
            let c = w.trusted_after_step_up()->0;
            &&& c.event_type is TrustedAfterStepUp && c.role is Primary && c.cooldown_days == 60
            &&& c.magnitude.first == MagnitudeFactor::Ambition
                && c.magnitude.second == MagnitudeFactor::One
            &&& c.context.cause is ManagerSupport && c.context.scope is MatchDay
            &&& c.context.follow_up is Some && c.context.follow_up->0 is ManagerTrustRising
        },
        w.proved_level_after_move() is Some ==> {
            let c = w.proved_level_after_move()->0;
            &&& c.event_type is ProvedLevelAfterMove && c.role is Primary && c.cooldown_days == 60
            &&& c.magnitude.first == MagnitudeFactor::One
                && c.magnitude.second == MagnitudeFactor::One
            &&& c.context.cause is ReputationAdmiration && c.context.scope is MatchDay
            &&& c.context.follow_up is Some && c.context.follow_up->0 is TrendImproving
        },
        w.overawed_by_elite_club() is Some ==> {
            let c = w.overawed_by_elite_club()->0;
            &&& c.event_type is OverawedByEliteClub && c.role is Primary && c.cooldown_days == 21
            &&& c.magnitude.first == MagnitudeFactor::Professionalism
                && c.magnitude.second == MagnitudeFactor::One
            &&& c.context.cause is AdaptationIsolation && c.context.scope is DressingRoom
            &&& c.context.follow_up is Some && c.context.follow_up->0 is SettlingInProgress
        },
        w.too_good_for_level() is Some ==> {
            let c = w.too_good_for_level()->0;
            &&& c.event_type is TooGoodForLevel && c.role is Primary && c.cooldown_days == 30
            &&& c.magnitude.first == MagnitudeFactor::One
                && c.magnitude.second == MagnitudeFactor::One
            &&& c.context.cause is ReputationTension && c.context.scope is MatchDay
            &&& c.context.follow_up is Some && c.context.follow_up->0 is ContractRequestRisk
        },
        w.training_standard_frustration() is Some ==> {
            let c = w.training_standard_frustration()->0;
            &&& c.event_type is TrainingStandardFrustration && c.role is Flavor
                && c.cooldown_days == 30
            &&& c.magnitude.first == MagnitudeFactor::One
                && c.magnitude.second == MagnitudeFactor::One
            &&& c.context.cause is TrainingFriction && c.context.scope is TrainingGround
            &&& c.context.follow_up is Some && c.context.follow_up->0 is PressureBuilding
        },
        w.fan_expectation_burden() is Some ==> {
            let c = w.fan_expectation_burden()->0;
            &&& c.event_type is FanExpectationBurden && c.role is Flavor && c.cooldown_days == 30
            &&& c.magnitude.first == MagnitudeFactor::One
                && c.magnitude.second == MagnitudeFactor::One
            &&& c.context.cause is MediaPressure && c.context.scope is Media
            &&& c.context.follow_up is Some && c.context.follow_up->0 is PressureBuilding
        },
{
}

/// What a week tells: at a big club, of the level proved, the breakthrough, the manager's trust or
/// the awe, the first of these that holds; at a small one, of the level proved, being too good, the
/// training or the fans. Anywhere else it tells nothing.
pub proof fn lemma_what_a_week_tells(w: WeeklyEnvSignals, dest_club_rep: int, lead: int)
    ensures
        ({
            let story = top(w.pool(dest_club_rep, lead));
            let elite = dest_club_rep >= 7500 && lead <= -2500;
            let star = lead >= 3500;
            &&& !elite && !star ==> story is None
            &&& (elite || star) && w.proved_level_after_move() is Some ==> story
                == w.proved_level_after_move()
            &&& elite && w.proved_level_after_move() is None ==> story
                == if w.adaptation_breakthrough() is Some {
                w.adaptation_breakthrough()
            } else if w.trusted_after_step_up() is Some {
                w.trusted_after_step_up()
            } else {
                w.overawed_by_elite_club()
            }
            &&& star && w.proved_level_after_move() is None ==> story == if w.too_good_for_level()
                is Some {
                w.too_good_for_level()
            } else if w.training_standard_frustration() is Some {
                w.training_standard_frustration()
            } else {
                w.fan_expectation_burden()
            }
        }),
{
    let none = Seq::<CandidateView>::empty();
    let start = if dest_club_rep >= 7500 && lead <= -2500 {
        let a = with_some(none, w.proved_level_after_move());
        let b = with_some(a, w.adaptation_breakthrough());
        let c = with_some(b, w.trusted_after_step_up());
        lemma_top_with(none, w.proved_level_after_move());
        lemma_top_with(a, w.adaptation_breakthrough());
        lemma_top_with(b, w.trusted_after_step_up());
        lemma_top_with(c, w.overawed_by_elite_club());
        with_some(c, w.overawed_by_elite_club())
    } else {
        none
    };
    if lead >= 3500 {
        let a = with_some(start, w.proved_level_after_move());
        let b = with_some(a, w.too_good_for_level());
        let c = with_some(b, w.training_standard_frustration());
        lemma_top_with(start, w.proved_level_after_move());
        lemma_top_with(a, w.too_good_for_level());
        lemma_top_with(b, w.training_standard_frustration());
        lemma_top_with(c, w.fan_expectation_burden());
    }
}

/// What a week is judged by: the games of the spell, the starts among them, and whether the last
/// sixty days held a lonely one.
pub proof fn lemma_what_a_week_shows(p: Player, days: int, league: u16, x: WeeklyReadings)
    requires
        0 <= days <= 168,
    ensures
        ({
            let w = weekly_signals(p, days, league, x);
            let lonely = exists|i: int|
                0 <= i < p.happiness@.len() && (#[trigger] p.happiness@[i]).event_type
                    is FeelingIsolated && p.happiness@[i].days_ago <= 60;
            &&& w.days_since == days
            &&& w.apps == p.statistics.played + p.statistics.played_subs
            &&& w.starts == p.statistics.played
            &&& w.had_recent_isolation <==> lonely
            &&& w.adaptation_score == x.adaptation_score && w.avg_rating == x.avg_rating && w.roll
                == x.roll
            &&& w.league_reputation == league && w.ambition == p.attributes.ambition && w.pressure
                == p.attributes.pressure
            &&& w.current_reputation == p.player_attributes.current_reputation
        }),
{
}

/// When a week can have a story: up to 168 days after a move, and more than seven days after the
/// last one.
pub proof fn lemma_weeks_with_a_story(p: Player, now: Date)
    ensures
        awaits_story(p, now) <==> {
            &&& p.last_transfer_date is Some
            &&& p.last_transfer_date->0.days <= now.days <= p.last_transfer_date->0.days + 168
            &&& forall|i: int|
                0 <= i < p.happiness@.len() && is_story((#[trigger] p.happiness@[i]).event_type)
                    ==> p.happiness@[i].days_ago > 7
        },
{
}

/// What counts as a story of the surroundings: what a first day or a week can tell of them, but for
/// the frost over a rival's past.
pub proof fn lemma_what_counts_as_a_story(
    t: TransferEnvironmentProfile,
    s: SocialSignals,
    x: ProfileReadings,
    w: WeeklyEnvSignals,
    e: HappinessEventType,
)
    ensures
        is_story(e) ==> !(e is FeelingIsolated || e is SettledIntoSquad || e is AmbitionShock || e
            is SalaryShock || e is DreamMove || e is JoiningElite || e is RoleMismatch || e
            is ColdShoulderOverRivalPast || e is WantsReturnHome),
        t.top_club_opportunity() is Some ==> is_story(t.top_club_opportunity()->0.event_type),
        t.elite_training_lift(x.diligence) is Some ==> is_story(t.elite_training_lift(x.diligence)->0.event_type),
        t.overawed_by_elite_club() is Some ==> is_story(t.overawed_by_elite_club()->0.event_type),
        t.role_path_blocked() is Some ==> is_story(t.role_path_blocked()->0.event_type),
        t.dressing_room_status_shock() is Some ==> is_story(t.dressing_room_status_shock()->0.event_type),
        t.senior_mentor_support(s) is Some ==> is_story(t.senior_mentor_support(s)->0.event_type),
        t.too_good_for_level() is Some ==> is_story(t.too_good_for_level()->0.event_type),
        t.step_down_embarrassment() is Some ==> is_story(t.step_down_embarrassment()->0.event_type),
        t.training_standard_frustration() is Some ==> is_story(t.training_standard_frustration()->0.event_type),
        t.fan_expectation_burden_first_tick() is Some ==> is_story(t.fan_expectation_burden_first_tick()->0.event_type),
        t.media_spotlight_pressure(x.step_up) is Some ==> is_story(t.media_spotlight_pressure(x.step_up)->0.event_type),
        t.loan_level_mismatch() is Some ==> is_story(t.loan_level_mismatch()->0.event_type),
        w.adaptation_breakthrough() is Some ==> is_story(w.adaptation_breakthrough()->0.event_type),
        w.trusted_after_step_up() is Some ==> is_story(w.trusted_after_step_up()->0.event_type),
        w.proved_level_after_move() is Some ==> is_story(w.proved_level_after_move()->0.event_type),
        w.overawed_by_elite_club() is Some ==> is_story(w.overawed_by_elite_club()->0.event_type),
        w.too_good_for_level() is Some ==> is_story(w.too_good_for_level()->0.event_type),
        w.training_standard_frustration() is Some ==> is_story(w.training_standard_frustration()->0.event_type),
        w.fan_expectation_burden() is Some ==> is_story(w.fan_expectation_burden()->0.event_type),
{
}

/// Youth feels a big club by a fifth more, up to 23, and age by 15 hundredths less, from 30.
pub proof fn lemma_age_at_a_big_club(age: int)
    ensures
        top_club_age_factor(age) == MagnitudeFactor::Percent(120) <==> age <= 23,
        top_club_age_factor(age) == MagnitudeFactor::Percent(85) <==> age >= 30,
        top_club_age_factor(age) is One <==> 24 <= age <= 29,
{
}

/// How much of a step up a move is: 45 parts for every point of the club, 35 for every point of the
/// league, and 2000 for every point of ability above what the league asks for.
pub proof fn lemma_size_of_a_step(t: TransferEnvironmentProfile, u: TransferEnvironmentProfile)
    requires
        t.dest_league_rep == u.dest_league_rep,
    ensures
        ({
            let more = u.step_up_millionths() - t.step_up_millionths();
            let club = (u.dest_club_rep - u.source_club_rep) - (t.dest_club_rep
                - t.source_club_rep);
            let league = t.source_league_rep - u.source_league_rep;
            more == 45 * club + 35 * league + 2000 * (u.player_ca - t.player_ca)
        }),
        t.source_club_rep == t.dest_club_rep && t.source_league_rep == t.dest_league_rep
            && t.player_ca == t.expected_ca() ==> t.step_up_millionths() == 0,
{
}

} // verus!
