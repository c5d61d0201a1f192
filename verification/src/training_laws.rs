//! What training promises: which session works on what, what it costs, and how age, intensity,
//! character and condition change it.

#[allow(unused_imports)]
use crate::measure::Measure;
#[allow(unused_imports)]
use crate::training::{
    age_percent, all_focus_shares, body_compromised, bond_tenths, body_strained, breakthrough,
    character_evidence, coach_points, condition_evidence, dosed_benefit_squared, dosed_cost,
    evidence, family, family_age_percent, fatigued, fit_skills, focus_shares,
    gain_intensity_percent, held_against, intensity_percent, is_physical_session, is_recovery_family,
    maturity_percent, morale_reaction, off_day, overload_percent, overloaded,
    performance_evidence, potential_age_percent, reason, receptive_age_tenths,
    recently_criticised, recently_rumoured, room_to_grow, session_gains, session_load, sets_standard,
    uses_receptiveness, CoachingAttributes, FocusShare, MoraleReaction, OutcomeInputs, SessionPlan, Skill,
    SkillFamily, SkillType, TrainingEventEvidence, TrainingEventReason, TrainingFocus,
    TrainingIntensity, TrainingSession, TrainingType,
};
#[allow(unused_imports)]
use vstd::prelude::*;

verus! {

/// Whether a session teaches a skill, and none more.
pub open spec fn teaches_most(t: TrainingType, skill: Skill) -> bool {
    exists|i: int|
        0 <= i < session_gains(t).len() && (#[trigger] session_gains(t)[i]).0 == skill
            && forall|j: int|
            0 <= j < session_gains(t).len() ==> (#[trigger] session_gains(t)[j]).1
                <= session_gains(t)[i].1
}

/// A session teaches what it is named after, and nothing more than that: shooting teaches
/// finishing, passing teaches passing, and so on through the week. A speed session works on pace
/// and, most of all, on agility.
pub proof fn lemma_sessions_teach_their_name(t: TrainingType)
    ensures
        t is Endurance ==> teaches_most(t, Skill::Stamina),
        t is Strength ==> teaches_most(t, Skill::Strength),
        t is Speed ==> teaches_most(t, Skill::Agility),
        t is Agility ==> teaches_most(t, Skill::Agility),
        t is BallControl ==> teaches_most(t, Skill::FirstTouch),
        t is Passing ==> teaches_most(t, Skill::Passing),
        t is Shooting ==> teaches_most(t, Skill::Finishing),
        t is Crossing ==> teaches_most(t, Skill::Crossing),
        t is SetPieces ==> teaches_most(t, Skill::Crossing),
        t is Positioning ==> teaches_most(t, Skill::Positioning),
        t is TeamShape ==> teaches_most(t, Skill::Teamwork),
        t is PressingDrills ==> teaches_most(t, Skill::WorkRate),
        t is TransitionPlay ==> teaches_most(t, Skill::Passing)
            && teaches_most(t, Skill::Decisions),
        t is SetPiecesDefensive ==> teaches_most(t, Skill::Positioning)
            && teaches_most(t, Skill::Marking),
        t is Concentration ==> teaches_most(t, Skill::Concentration),
        t is DecisionMaking ==> teaches_most(t, Skill::Decisions),
        t is Leadership ==> teaches_most(t, Skill::Leadership),
        t is MatchPreparation ==> teaches_most(t, Skill::Concentration),
        t is VideoAnalysis ==> teaches_most(t, Skill::Decisions),
        t is OpponentSpecific ==> teaches_most(t, Skill::Decisions)
            && teaches_most(t, Skill::Vision),
        t is GoalkeeperTraining ==> teaches_most(t, Skill::Handling)
            && teaches_most(t, Skill::Reflexes),
        t is Speed ==> exists|i: int|
            0 <= i < session_gains(t).len() && (#[trigger] session_gains(t)[i]).0 is Pace,
{
    let g = session_gains(t);
    match t {
        TrainingType::Endurance => {
            assert(g[0].0 is Stamina);
        },
        TrainingType::Strength => {
            assert(g[0].0 is Strength);
        },
        TrainingType::Speed => {
            assert(g[0].0 is Pace);
            assert(g[1].0 is Agility);
        },
        TrainingType::Agility => {
            assert(g[0].0 is Agility);
        },
        TrainingType::BallControl => {
            assert(g[0].0 is FirstTouch);
        },
        TrainingType::Passing => {
            assert(g[0].0 is Passing);
        },
        TrainingType::Shooting => {
            assert(g[0].0 is Finishing);
        },
        TrainingType::Crossing => {
            assert(g[0].0 is Crossing);
        },
        TrainingType::SetPieces => {
            assert(g[0].0 is Crossing);
        },
        TrainingType::Positioning => {
            assert(g[0].0 is Positioning);
        },
        TrainingType::TeamShape => {
            assert(g[0].0 is Teamwork);
        },
        TrainingType::PressingDrills => {
            assert(g[0].0 is WorkRate);
        },
        TrainingType::TransitionPlay => {
            assert(g[0].0 is Passing);
            assert(g[1].0 is Decisions);
        },
        TrainingType::SetPiecesDefensive => {
            assert(g[0].0 is Positioning);
            assert(g[1].0 is Marking);
        },
        TrainingType::Concentration => {
            assert(g[0].0 is Concentration);
        },
        TrainingType::DecisionMaking => {
            assert(g[0].0 is Decisions);
        },
        TrainingType::Leadership => {
            assert(g[0].0 is Leadership);
        },
        TrainingType::MatchPreparation => {
            assert(g[0].0 is Concentration);
        },
        TrainingType::VideoAnalysis => {
            assert(g[0].0 is Decisions);
        },
        TrainingType::OpponentSpecific => {
            assert(g[0].0 is Decisions);
            assert(g[1].0 is Vision);
        },
        TrainingType::GoalkeeperTraining => {
            assert(g[0].0 is Handling);
            assert(g[1].0 is Reflexes);
        },
        _ => {},
    }
}

/// Where a skill is taught, and how much of it: each by the sessions that work on it and by no
/// other.
pub proof fn lemma_where_a_skill_is_taught(t: TrainingType, i: int)
    requires
        0 <= i < session_gains(t).len(),
    ensures
        ({
            let (skill, gain) = session_gains(t)[i];
            match skill {
                Skill::Stamina => gain == 50 && (t is Endurance),
                Skill::Strength => gain == 40 && (t is Strength),
                Skill::Pace => gain == 30 && (t is Speed),
                Skill::Agility => gain == 40 && (t is Speed || t is Agility),
                Skill::Balance => gain == 30 && (t is Agility),
                Skill::Jumping => gain == 20 && (t is Strength),
                Skill::NaturalFitness => gain == 30 && (t is Endurance),
                Skill::FirstTouch => gain == 50 && (t is BallControl),
                Skill::Passing => gain == 60 && (t is Passing) || gain == 30
                    && (t is TransitionPlay),
                Skill::Crossing => gain == 50 && (t is Crossing) || gain == 30 && (t is SetPieces),
                Skill::Dribbling => gain == 30 && (t is BallControl),
                Skill::Finishing => gain == 50 && (t is Shooting),
                Skill::Heading => gain == 20 && (t is SetPieces || t is SetPiecesDefensive),
                Skill::Technique => gain == 40 && (t is BallControl) || gain == 20
                    && (t is Shooting || t is Crossing),
                Skill::Marking => gain == 30 && (t is SetPiecesDefensive),
                Skill::LongShots => gain == 20 && (t is Shooting),
                Skill::FreeKicks => gain == 25 && (t is SetPieces),
                Skill::Corners => gain == 25 && (t is SetPieces),
                Skill::Concentration => gain == 50 && (t is Concentration) || gain == 30
                    && (t is Positioning || t is MatchPreparation),
                Skill::Decisions => gain == 50 && (t is DecisionMaking) || gain == 30
                    && (t is TransitionPlay || t is VideoAnalysis) || gain == 20
                    && (t is Positioning || t is OpponentSpecific) || gain == 10 && (t is Shooting),
                Skill::Positioning => gain == 60 && (t is Positioning) || gain == 40
                    && (t is TeamShape) || gain == 30 && (t is SetPiecesDefensive)
                    || gain == 20 && (t is MatchPreparation || t is VideoAnalysis),
                Skill::Teamwork => gain == 50 && (t is TeamShape) || gain == 30
                    && (t is PressingDrills) || gain == 20 && (t is Leadership),
                Skill::Vision => gain == 20 && (t is Passing || t is DecisionMaking
                    || t is VideoAnalysis || t is OpponentSpecific),
                Skill::WorkRate => gain == 40 && (t is PressingDrills) || gain == 20
                    && (t is TeamShape),
                Skill::Leadership => gain == 50 && (t is Leadership),
                Skill::Composure => gain == 20 && (t is Concentration) || gain == 15
                    && (t is MatchPreparation) || gain == 10 && (t is Shooting),
                Skill::Anticipation => gain == 20 && (t is Positioning || t is DecisionMaking),
                Skill::Bravery => gain == 10 && (t is SetPiecesDefensive),
                Skill::OffTheBall => gain == 20 && (t is TransitionPlay),
                Skill::Handling => gain == 40 && (t is GoalkeeperTraining),
                Skill::Reflexes => gain == 40 && (t is GoalkeeperTraining),
                Skill::OneOnOnes => gain == 25 && (t is GoalkeeperTraining),
                Skill::AerialReach => gain == 20 && (t is GoalkeeperTraining),
                Skill::CommandOfArea => gain == 20 && (t is GoalkeeperTraining),
                Skill::Communication => gain == 10 && (t is GoalkeeperTraining),
                Skill::RushingOut => gain == 15 && (t is GoalkeeperTraining),
                Skill::Punching => gain == 10 && (t is GoalkeeperTraining),
                Skill::Kicking => gain == 20 && (t is GoalkeeperTraining),
                Skill::Throwing => gain == 10 && (t is GoalkeeperTraining),
                _ => false,
            }
        }),
{
}

/// How many skills a session works on: none on the days of rest and recovery, two to five in the
/// field, ten in goal.
pub proof fn lemma_breadth_of_sessions(t: TrainingType)
    ensures
        session_gains(t).len() == 0 <==> t is Recovery || t is RestDay || t is LightRecovery
            || t is Rehabilitation,
        session_gains(t).len() == 2 <==> t is Endurance || t is Strength || t is Speed
            || t is Agility || t is Passing || t is Crossing || t is PressingDrills
            || t is Concentration || t is Leadership || t is OpponentSpecific,
        session_gains(t).len() == 3 <==> t is BallControl || t is TeamShape
            || t is TransitionPlay || t is DecisionMaking || t is MatchPreparation
            || t is VideoAnalysis,
        session_gains(t).len() == 4 <==> t is SetPieces || t is Positioning
            || t is SetPiecesDefensive,
        session_gains(t).len() == 5 <==> t is Shooting,
        session_gains(t).len() == 10 <==> t is GoalkeeperTraining,
{
}

/// What a session costs in condition, from the hardest drill to the deepest rest.
pub proof fn lemma_price_in_condition(t: TrainingType)
    ensures
        session_load(t).fatigue == 180 <==> t is PressingDrills,
        session_load(t).fatigue == 160 <==> t is TransitionPlay,
        session_load(t).fatigue == 150 <==> t is Speed,
        session_load(t).fatigue == 100 <==> t is Endurance || t is Strength,
        session_load(t).fatigue == 80 <==> t is Agility,
        session_load(t).fatigue == 60 <==> t is GoalkeeperTraining,
        session_load(t).fatigue == 50 <==> t is Shooting,
        session_load(t).fatigue == 30 <==> t is Crossing || t is TeamShape || t is MatchPreparation,
        session_load(t).fatigue == 20 <==> t is SetPieces || t is SetPiecesDefensive
            || t is OpponentSpecific,
        session_load(t).fatigue == 15 <==> t is BallControl,
        session_load(t).fatigue == 10 <==> t is Passing,
        session_load(t).fatigue == -30 <==> t is Positioning,
        session_load(t).fatigue == -60 <==> t is Concentration || t is DecisionMaking
            || t is Leadership,
        session_load(t).fatigue == -120 <==> t is VideoAnalysis,
        session_load(t).fatigue == -300 <==> t is Rehabilitation,
        session_load(t).fatigue == -500 <==> t is LightRecovery,
        session_load(t).fatigue == -600 <==> t is RestDay,
        session_load(t).fatigue == -800 <==> t is Recovery,
{
}

/// How far a session endangers the body: speed and pressing most, and the days of rest lower the danger.
pub proof fn lemma_price_in_danger(t: TrainingType)
    ensures
        session_load(t).injury_risk == 40 <==> t is Speed || t is PressingDrills,
        session_load(t).injury_risk == 30 <==> t is Strength || t is Agility || t is TransitionPlay,
        session_load(t).injury_risk == 20 <==> t is Endurance || t is Shooting
            || t is GoalkeeperTraining,
        session_load(t).injury_risk == 15 <==> t is MatchPreparation,
        session_load(t).injury_risk == 10 <==> t is BallControl || t is Passing
            || t is Crossing || t is TeamShape || t is OpponentSpecific,
        session_load(t).injury_risk == 8 <==> t is SetPieces || t is SetPiecesDefensive,
        session_load(t).injury_risk == 5 <==> t is Positioning,
        session_load(t).injury_risk == 0 <==> t is Concentration || t is DecisionMaking
            || t is Leadership || t is VideoAnalysis,
        session_load(t).injury_risk == -10 <==> t is LightRecovery,
        session_load(t).injury_risk == -20 <==> t is Recovery || t is Rehabilitation,
        session_load(t).injury_risk == -30 <==> t is RestDay,
{
}

/// How much physical load a session books.
pub proof fn lemma_price_in_load(t: TrainingType)
    ensures
        session_load(t).load_units == 38 <==> t is PressingDrills,
        session_load(t).load_units == 34 <==> t is TransitionPlay,
        session_load(t).load_units == 32 <==> t is Speed,
        session_load(t).load_units == 30 <==> t is Endurance,
        session_load(t).load_units == 24 <==> t is Agility,
        session_load(t).load_units == 22 <==> t is Strength,
        session_load(t).load_units == 20 <==> t is GoalkeeperTraining,
        session_load(t).load_units == 18 <==> t is MatchPreparation,
        session_load(t).load_units == 16 <==> t is Shooting,
        session_load(t).load_units == 14 <==> t is Crossing || t is TeamShape,
        session_load(t).load_units == 12 <==> t is BallControl,
        session_load(t).load_units == 10 <==> t is Passing || t is OpponentSpecific,
        session_load(t).load_units == 8 <==> t is SetPieces || t is SetPiecesDefensive,
        session_load(t).load_units == 4 <==> t is Positioning || t is Rehabilitation,
        session_load(t).load_units == 2 <==> t is LightRecovery,
        session_load(t).load_units == 0 <==> t is Recovery || t is Concentration
            || t is DecisionMaking || t is Leadership || t is VideoAnalysis || t is RestDay,
{
}

/// How much of a session is run at high intensity.
pub proof fn lemma_price_in_intensity(t: TrainingType)
    ensures
        session_load(t).high_intensity_percent == 55 <==> t is Speed,
        session_load(t).high_intensity_percent == 50 <==> t is PressingDrills,
        session_load(t).high_intensity_percent == 45 <==> t is TransitionPlay,
        session_load(t).high_intensity_percent == 40 <==> t is Agility,
        session_load(t).high_intensity_percent == 30 <==> t is GoalkeeperTraining,
        session_load(t).high_intensity_percent == 20 <==> t is Endurance || t is Shooting
            || t is MatchPreparation,
        session_load(t).high_intensity_percent == 15 <==> t is Strength || t is Crossing,
        session_load(t).high_intensity_percent == 10 <==> t is BallControl || t is SetPieces
            || t is TeamShape || t is SetPiecesDefensive || t is OpponentSpecific,
        session_load(t).high_intensity_percent == 5 <==> t is Passing,
        session_load(t).high_intensity_percent == 0 <==> t is Recovery || t is Positioning
            || t is Concentration || t is DecisionMaking || t is Leadership
            || t is VideoAnalysis || t is RestDay || t is LightRecovery || t is Rehabilitation,
{
}

/// How much sharpness a session brings: match preparation most, pressing and transition next.
pub proof fn lemma_gain_in_sharpness(t: TrainingType)
    ensures
        session_load(t).readiness_tenths == 12 <==> t is MatchPreparation,
        session_load(t).readiness_tenths == 10 <==> t is PressingDrills || t is TransitionPlay,
        session_load(t).readiness_tenths == 8 <==> t is GoalkeeperTraining,
        session_load(t).readiness_tenths == 6 <==> t is TeamShape || t is OpponentSpecific,
        session_load(t).readiness_tenths == 5 <==> t is Speed || t is Shooting,
        session_load(t).readiness_tenths == 4 <==> t is Endurance || t is Agility
            || t is BallControl || t is Passing || t is Crossing || t is SetPieces
            || t is Positioning || t is SetPiecesDefensive,
        session_load(t).readiness_tenths == 3 <==> t is Strength || t is Rehabilitation,
        session_load(t).readiness_tenths == 2 <==> t is Concentration || t is DecisionMaking
            || t is Leadership || t is LightRecovery,
        session_load(t).readiness_tenths == 1 <==> t is Recovery || t is VideoAnalysis,
        session_load(t).readiness_tenths == 0 <==> t is RestDay,
{
}

/// Rest, recovery and work of the mind cost the same at every intensity; everything else costs more
/// the harder it is.
pub proof fn lemma_what_intensity_changes(t: TrainingType)
    ensures
        session_load(t).scales_with_intensity <==> !(t is Recovery || t is Concentration
            || t is DecisionMaking || t is Leadership || t is VideoAnalysis || t is RestDay
            || t is LightRecovery || t is Rehabilitation),
        uses_receptiveness(t) <==> !(t is VideoAnalysis || t is OpponentSpecific),
        is_physical_session(t) <==> t is Endurance || t is Strength || t is Speed || t is Agility,
        is_recovery_family(t) <==> session_gains(t).len() == 0 || t is VideoAnalysis,
{
}

/// Which skills tell how well a session suits a player: each is asked for by the sessions that
/// draw on it and by no other, and none is asked for twice.
pub proof fn lemma_what_a_session_asks(t: TrainingType, i: int, j: int)
    requires
        0 <= i < fit_skills(t).len(),
        0 <= j < fit_skills(t).len(),
    ensures
        i != j ==> fit_skills(t)[i] != fit_skills(t)[j],
        match fit_skills(t)[i] {
            Skill::Stamina => t is Endurance || t is PressingDrills,
            Skill::Strength => t is Strength,
            Skill::Pace => t is Speed || t is TransitionPlay,
            Skill::Agility => t is Speed || t is Agility || t is GoalkeeperTraining,
            Skill::Balance => t is Agility,
            Skill::Jumping => t is Strength,
            Skill::NaturalFitness => t is Endurance,
            Skill::FirstTouch => t is BallControl,
            Skill::Passing => t is Passing || t is TransitionPlay,
            Skill::Crossing => t is Crossing || t is SetPieces,
            Skill::Dribbling => t is BallControl,
            Skill::Finishing => t is Shooting,
            Skill::Heading => t is SetPieces || t is SetPiecesDefensive,
            Skill::Tackling => t is SetPiecesDefensive,
            Skill::Technique => t is BallControl || t is Passing || t is Shooting
                || t is Crossing || t is SetPieces,
            Skill::Concentration => t is Positioning || t is Concentration
                || t is MatchPreparation || t is OpponentSpecific,
            Skill::Decisions => t is Shooting || t is Positioning || t is TransitionPlay
                || t is Concentration || t is DecisionMaking || t is MatchPreparation
                || t is VideoAnalysis || t is OpponentSpecific,
            Skill::Positioning => t is Positioning || t is TeamShape || t is SetPiecesDefensive
                || t is MatchPreparation || t is VideoAnalysis,
            Skill::Teamwork => t is TeamShape || t is PressingDrills || t is Leadership,
            Skill::Vision => t is Passing || t is DecisionMaking || t is VideoAnalysis
                || t is OpponentSpecific,
            Skill::WorkRate => t is TeamShape || t is PressingDrills,
            Skill::Leadership => t is Leadership,
            Skill::Handling => t is GoalkeeperTraining,
            Skill::Reflexes => t is GoalkeeperTraining,
            _ => false,
        },
{
}

/// A session asks for two or three skills, and a day of rest for none: there the condition decides.
pub proof fn lemma_how_much_a_session_asks(t: TrainingType)
    ensures
        fit_skills(t).len() == 0 <==> t is Recovery || t is RestDay || t is LightRecovery
            || t is Rehabilitation,
        fit_skills(t).len() == 2 <==> t is Endurance || t is Strength || t is Speed
            || t is Agility || t is Crossing || t is Concentration || t is DecisionMaking
            || t is Leadership,
        fit_skills(t).len() == 3 <==> t is BallControl || t is Passing || t is Shooting
            || t is SetPieces || t is Positioning || t is TeamShape || t is PressingDrills
            || t is TransitionPlay || t is SetPiecesDefensive || t is MatchPreparation
            || t is VideoAnalysis || t is OpponentSpecific || t is GoalkeeperTraining,
{
}

/// What a session works on belongs together: the body in the four physical sessions, the ball in
/// crossing and ball control, the mind in the tactical and mental ones, the goal in goal.
pub proof fn lemma_families_of_sessions(t: TrainingType, i: int)
    requires
        0 <= i < session_gains(t).len(),
    ensures
        t is Endurance || t is Strength || t is Speed
            || t is Agility ==> family(session_gains(t)[i].0) is Physical,
        t is BallControl || t is Crossing
            || t is SetPieces ==> family(session_gains(t)[i].0) is Technical,
        t is Passing || t is Shooting || t is TransitionPlay
            || t is SetPiecesDefensive ==> family(session_gains(t)[i].0) is Mental
            || family(session_gains(t)[i].0) is Technical,
        t is Positioning || t is TeamShape || t is PressingDrills || t is Concentration
            || t is DecisionMaking || t is Leadership || t is MatchPreparation
            || t is VideoAnalysis
            || t is OpponentSpecific ==> family(session_gains(t)[i].0) is Mental,
        t is GoalkeeperTraining ==> family(session_gains(t)[i].0) is Goalkeeping,
{
}

/// Physical work builds most from 16 to 18 and less with every few years after; before 16 the body is
/// not ready for it.
pub proof fn lemma_physical_work_by_age(age: u8)
    ensures
        age_percent(age) == 40 <==> age <= 13,
        age_percent(age) == 70 <==> 14 <= age <= 15,
        age_percent(age) == 150 <==> 16 <= age <= 18,
        age_percent(age) == 130 <==> 19 <= age <= 21,
        age_percent(age) == 110 <==> 22 <= age <= 24,
        age_percent(age) == 100 <==> 25 <= age <= 27,
        age_percent(age) == 80 <==> 28 <= age <= 30,
        age_percent(age) == 50 <==> 31 <= age <= 33,
        age_percent(age) == 30 <==> 34 <= age <= 36,
        age_percent(age) == 10 <==> 37 <= age,
{
}

/// Technique is learned in full to 27 and then ever more slowly.
pub proof fn lemma_technique_by_age(age: u8)
    ensures
        family_age_percent(SkillFamily::Technical, age) == 100 <==> age <= 27,
        family_age_percent(SkillFamily::Technical, age) == 85 <==> 28 <= age <= 30,
        family_age_percent(SkillFamily::Technical, age) == 60 <==> 31 <= age <= 33,
        family_age_percent(SkillFamily::Technical, age) == 40 <==> 34 <= age <= 36,
        family_age_percent(SkillFamily::Technical, age) == 25 <==> 37 <= age,
{
}

/// Reading the game is learned in full to 29, and more than half as well at any age.
pub proof fn lemma_reading_the_game_by_age(age: u8)
    ensures
        family_age_percent(SkillFamily::Mental, age) == 100 <==> age <= 29,
        family_age_percent(SkillFamily::Mental, age) == 90 <==> 30 <= age <= 32,
        family_age_percent(SkillFamily::Mental, age) == 75 <==> 33 <= age <= 35,
        family_age_percent(SkillFamily::Mental, age) == 55 <==> 36 <= age,
{
}

/// Goalkeeping is learned in full to 31.
pub proof fn lemma_goalkeeping_by_age(age: u8)
    ensures
        family_age_percent(SkillFamily::Goalkeeping, age) == 100 <==> age <= 31,
        family_age_percent(SkillFamily::Goalkeeping, age) == 85 <==> 32 <= age <= 34,
        family_age_percent(SkillFamily::Goalkeeping, age) == 65 <==> 35 <= age <= 37,
        family_age_percent(SkillFamily::Goalkeeping, age) == 45 <==> 38 <= age,
{
}

/// A body of 13 takes a fifth of the physical work, one of 18 all of it.
pub proof fn lemma_growing_up(age: u8)
    ensures
        maturity_percent(age) == 20 <==> age <= 13,
        maturity_percent(age) == 30 <==> 14 <= age <= 14,
        maturity_percent(age) == 45 <==> 15 <= age <= 15,
        maturity_percent(age) == 70 <==> 16 <= age <= 16,
        maturity_percent(age) == 88 <==> 17 <= age <= 17,
        maturity_percent(age) == 100 <==> 18 <= age,
{
}

/// The gap to a potential counts most from 16 to 18; below 16 it counts less than in the early
/// twenties, and beyond 30 hardly at all.
pub proof fn lemma_potential_by_age(age: u8)
    ensures
        potential_age_percent(age) == 40 <==> age <= 13,
        potential_age_percent(age) == 70 <==> 14 <= age <= 15,
        potential_age_percent(age) == 150 <==> 16 <= age <= 18,
        potential_age_percent(age) == 130 <==> 19 <= age <= 21,
        potential_age_percent(age) == 100 <==> 22 <= age <= 24,
        potential_age_percent(age) == 60 <==> 25 <= age <= 27,
        potential_age_percent(age) == 30 <==> 28 <= age <= 30,
        potential_age_percent(age) == 10 <==> 31 <= age,
{
}

/// The young listen best, from 16 to 20; children and veterans least.
pub proof fn lemma_who_listens(age: u8)
    ensures
        receptive_age_tenths(age) == -1 <==> age <= 15 || 33 <= age,
        receptive_age_tenths(age) == 3 <==> 16 <= age <= 20,
        receptive_age_tenths(age) == 2 <==> 21 <= age <= 24,
        receptive_age_tenths(age) == 1 <==> 25 <= age <= 28,
        receptive_age_tenths(age) == 0 <==> 29 <= age <= 32,
{
}

/// How hard a session is on the body and how much of it is learned, by its intensity: half as hard
/// a session costs half, twice as hard a session twice, while learning moves far less.
pub proof fn lemma_intensities(i: TrainingIntensity)
    ensures
        intensity_percent(i) == 30 <==> i is VeryLight,
        intensity_percent(i) == 50 <==> i is Light,
        intensity_percent(i) == 100 <==> i is Moderate,
        intensity_percent(i) == 150 <==> i is High,
        intensity_percent(i) == 200 <==> i is VeryHigh,
        gain_intensity_percent(i) == 60 <==> i is VeryLight,
        gain_intensity_percent(i) == 80 <==> i is Light,
        gain_intensity_percent(i) == 100 <==> i is Moderate,
        gain_intensity_percent(i) == 115 <==> i is High,
        gain_intensity_percent(i) == 125 <==> i is VeryHigh,
{
}

/// How much of the body's price the dose of a session charges: the load times the intensity where
/// it counts, for an hour out of sixty minutes.
pub proof fn lemma_hour_of_work(s: TrainingSession, amount: int)
    requires
        s.duration_minutes == 60,
    ensures
        session_load(s.session_type).scales_with_intensity ==> dosed_cost(amount, s) == 60 * (amount
            * intensity_percent(s.intensity)),
        !session_load(s.session_type).scales_with_intensity ==> dosed_cost(amount, s) == 6000
            * amount,
        dosed_benefit_squared(amount, s) == 60 * (amount * amount),
{
    let p = intensity_percent(s.intensity) as int;
    assert(amount * p * 60 == 60 * (amount * p)) by (nonlinear_arith);
    assert(amount * 100 * 60 == 6000 * amount) by (nonlinear_arith);
    assert(amount * amount * 60 == 60 * (amount * amount)) by (nonlinear_arith);
}

/// What individual work is spent on: all of it, ten tenths, on the one skill it is named after;
/// on body or mind in two parts; and on no skill at all where it is about a foot, a position or
/// an injury. Only work on the body slows with age.
pub proof fn lemma_individual_work(focus: TrainingFocus, skill: SkillType, i: int)
    ensures
        ({
            let one = focus_shares(TrainingFocus::SpecificSkill(skill));
            &&& one.len() == 1 && one[0].tenths == 10 && !one[0].aged
            &&& one[0].skill is FreeKicks <==> skill is FreeKicks
            &&& one[0].skill is PenaltyTaking <==> skill is Penalties
            &&& one[0].skill is LongShots <==> skill is LongShots
            &&& one[0].skill is Heading <==> skill is Heading
            &&& one[0].skill is Tackling <==> skill is Tackling
            &&& one[0].skill is Crossing <==> skill is Crossing
            &&& one[0].skill is Dribbling <==> skill is Dribbling
        }),
        focus is FitnessBuilding || focus is MentalDevelopment ==> focus_shares(focus).len() == 2
            && focus_shares(focus)[0].tenths + focus_shares(focus)[1].tenths == 10,
        focus is FitnessBuilding ==> focus_shares(focus)[0].skill is Stamina && focus_shares(
            focus,
        )[1].skill is NaturalFitness && focus_shares(focus)[0].tenths == focus_shares(
            focus,
        )[1].tenths + 2,
        focus is MentalDevelopment ==> focus_shares(focus)[0].skill is Composure && focus_shares(
            focus,
        )[1].skill is Decisions && focus_shares(focus)[0].tenths == focus_shares(focus)[1].tenths,
        focus is WeakFootImprovement || focus is PositionRetraining || focus is InjuryRecovery
            <==> focus_shares(focus).len() == 0,
        0 <= i < focus_shares(focus).len() ==> (focus_shares(focus)[i].aged <==> family(
            focus_shares(focus)[i].skill,
        ) is Physical),
{
}

/// Areas of individual work are worked on one after the other.
pub proof fn lemma_areas_in_turn(a: Seq<TrainingFocus>, b: Seq<TrainingFocus>, focus: TrainingFocus)
    ensures
        all_focus_shares(Seq::empty()) == Seq::<FocusShare>::empty(),
        all_focus_shares(seq![focus]) == focus_shares(focus),
        all_focus_shares(a + b) == all_focus_shares(a) + all_focus_shares(b),
    decreases b.len(),
{
    assert(seq![focus].drop_last() =~= Seq::<TrainingFocus>::empty());
    assert(all_focus_shares(Seq::empty()) =~= Seq::<FocusShare>::empty());
    assert(seq![focus].last() == focus);
    assert(all_focus_shares(seq![focus]) == all_focus_shares(Seq::empty()) + focus_shares(focus));
    assert(all_focus_shares(seq![focus]) =~= focus_shares(focus));
    if b.len() == 0 {
        assert(a + b =~= a);
        assert(all_focus_shares(a) + all_focus_shares(b) =~= all_focus_shares(a));
    } else {
        lemma_areas_in_turn(a, b.drop_last(), focus);
        assert((a + b).drop_last() =~= a + b.drop_last());
        assert(all_focus_shares(a + b) =~= all_focus_shares(a) + all_focus_shares(b));
    }
}

/// Why a session went well. Nobody who falls short of his standard is praised, nor anybody who is
/// coming back from injury; the reasons come in the order of how much they say.
pub proof fn lemma_why_it_went_well(inp: OutcomeInputs, criticised: bool, rumoured: bool)
    requires
        !inp.in_recovery,
    ensures
        ({
            let r = reason(inp, criticised, rumoured);
            let one = crate::measure::one();
            let raw = inp.raw.units();
            let good = raw >= inp.baseline.units();
            let answered = criticised && raw >= 13 * one;
            let young = inp.age <= 21 && inp.delta.units() >= 2 * one && 2 * raw >= 27 * one;
            let led = inp.age >= 30 && inp.leadership.units() >= 14 * one && 2 * raw >= 27 * one;
            let worked = inp.professionalism.units() >= 15 * one && raw >= 14 * one;
            let prepared = (inp.session_type is MatchPreparation || inp.session_type
                is OpponentSpecific) && raw >= 13 * one;
            &&& r is RespondedToCriticism <==> good && answered
            &&& r is YoungImpressedStaff <==> good && !answered && young
            &&& r is SettingStandards <==> good && !answered && led
            &&& r is ExtraWorkAfterSession <==> good && !answered && !young && !led && worked
            &&& r is MatchPreparationFocus <==> good && !answered && !young && !led && !worked
                && prepared
            &&& r is RoutineGoodSession <==> good && !answered && !young && !led && !worked
                && !prepared
        }),
{
}

/// Why a session went badly. A body that is short of condition or strained comes first, then a
/// mind on other clubs, then a lack of will; and who is coming back from injury is only that,
/// however it went.
pub proof fn lemma_why_it_went_badly(inp: OutcomeInputs, criticised: bool, rumoured: bool)
    ensures
        ({
            let r = reason(inp, criticised, rumoured);
            let one = crate::measure::one();
            let bad = inp.raw.units() < inp.baseline.units() && !inp.in_recovery;
            let spent = inp.condition_pct < 60 || inp.recovery_debt.units() >= 200 * one
                || inp.workload_spike || inp.fatigue_change.units() > 120 * one;
            let distracted = rumoured && inp.psychological.units() < 12 * one;
            let lazy = inp.professionalism.units() <= 7 * one && inp.effort.units() <= 7 * one
                && inp.physical_state.units() >= 10 * one;
            &&& r is ReturningFromInjuryNotSharp <==> inp.in_recovery
            &&& r is StruggledWithIntensity <==> bad && spent
            &&& r is DistractedByRumours <==> bad && !spent && distracted
            &&& r is PoorAttitude <==> bad && !spent && !distracted && lazy
            &&& r is RoutineBadSession <==> bad && !spent && !distracted && !lazy
        }),
{
}

/// What counts as a fresh word from the manager or from the market: within 14 days a criticism, a
/// sanction or a place lost, within 21 days talk of another club.
pub proof fn lemma_what_is_fresh(h: crate::happiness::PlayerHappiness, i: int)
    requires
        0 <= i < h@.len(),
    ensures
        h@[i].days_ago <= 14 && (h@[i].event_type is ManagerCriticism || h@[i].event_type
            is ManagerDiscipline || h@[i].event_type is MatchDropped) ==> recently_criticised(h),
        h@[i].days_ago <= 21 && (h@[i].event_type is TransferRumour || h@[i].event_type
            is AgentStirsInterest || h@[i].event_type is TransferSpeculationDistracts
            || h@[i].event_type is WantedByBiggerClub || h@[i].event_type is InterestFromBiggerClub)
            ==> recently_rumoured(h),
        recently_criticised(h) ==> exists|k: int|
            0 <= k < h@.len() && (#[trigger] h@[k]).days_ago <= 14 && (h@[k].event_type
                is ManagerCriticism || h@[k].event_type is ManagerDiscipline || h@[k].event_type
                is MatchDropped),
        recently_rumoured(h) ==> exists|k: int|
            0 <= k < h@.len() && (#[trigger] h@[k]).days_ago <= 21 && (h@[k].event_type
                is TransferRumour || h@[k].event_type is AgentStirsInterest || h@[k].event_type
                is TransferSpeculationDistracts || h@[k].event_type is WantedByBiggerClub
                || h@[k].event_type is InterestFromBiggerClub),
{
    assert(h@[i].event_type == h@[i].event_type);
}

/// How a session moves the mood: up from a score of 14 or a point and a half above the standard,
/// down from 6.5 or a point and a half below it, and not at all between. What softens a drop and
/// what hardens it comes from the reason and the character.
pub proof fn lemma_mood_after_a_session(
    raw: Measure,
    delta: Measure,
    why: TrainingEventReason,
    professionalism: Measure,
    controversy: Measure,
    temperament: Measure,
)
    ensures
        ({
            let m = morale_reaction(raw, delta, why, professionalism, controversy, temperament);
            let one = crate::measure::one();
            let up = raw.units() >= 14 * one || 2 * delta.units() >= 3 * one;
            let down = 2 * raw.units() <= 13 * one || 2 * delta.units() <= -3 * one;
            &&& m is Lift <==> up
            &&& m is Drop <==> down && !up
            &&& m is Neutral <==> !up && !down
            &&& m is Drop ==> {
                &&& m->fatigue <==> why is StruggledWithIntensity || why
                    is ReturningFromInjuryNotSharp
                &&& m->professional <==> professionalism.units() >= 15 * one
                &&& m->volatile <==> controversy.units() >= 15 * one || temperament.units() <= 6
                    * one
            }
        }),
{
}

/// What an overloaded body keeps of what it learns: all of it at rest; else 15 percent less below
/// a condition of 60, 10 more below 40, 10 for a heavy debt and 10 for a spike, but never less
/// than 70 percent. A worse state never keeps more.
pub proof fn lemma_overload(condition: u32, better: u32, debt: bool, spike: bool)
    requires
        condition <= better,
    ensures
        overload_percent(true, condition, debt, spike) == 100,
        overload_percent(false, condition, debt, spike) <= overload_percent(
            false,
            better,
            debt,
            spike,
        ) <= 100,
        overload_percent(false, condition, debt, spike) >= 70,
        condition >= 60 ==> overload_percent(false, condition, false, false) == 100,
        40 <= condition < 60 ==> overload_percent(false, condition, false, false) == 85,
        condition < 40 ==> overload_percent(false, condition, false, false) == 75,
        condition >= 60 ==> overload_percent(false, condition, true, false) == 90
            && overload_percent(false, condition, false, true) == 90 && overload_percent(
            false,
            condition,
            true,
            true,
        ) == 80,
        40 <= condition < 60 ==> overload_percent(false, condition, true, false) == 75
            && overload_percent(false, condition, false, true) == 75,
        condition < 60 && debt && spike ==> overload_percent(false, condition, debt, spike) == 70,
        condition < 40 && (debt || spike) ==> overload_percent(false, condition, debt, spike) == 70,
{
}

/// Which of a coach's attributes counts where: fitness in physical work, technique with the ball,
/// tactics for shape, the mental side for the mind, all three of a goalkeeping coach in goal, and
/// the average of attack, defence, tactics and technique in everything else. Each is counted out
/// of twenty.
pub proof fn lemma_what_a_coach_brings(c: CoachingAttributes, t: TrainingType)
    ensures
        t is Endurance || t is Strength || t is Speed ==> coach_points(c, t).0 == c.fitness,
        t is BallControl || t is Passing || t is Shooting ==> coach_points(c, t).0 == c.technical,
        t is Positioning || t is TeamShape ==> coach_points(c, t).0 == c.tactical,
        t is Concentration || t is DecisionMaking ==> coach_points(c, t).0 == c.mental,
        t is GoalkeeperTraining ==> coach_points(c, t).0 == c.gk_shot_stopping + c.gk_handling
            + c.gk_distribution,
        t is Agility || t is Recovery || t is Crossing || t is SetPieces || t is PressingDrills
            || t is TransitionPlay || t is SetPiecesDefensive || t is Leadership
            || t is MatchPreparation || t is VideoAnalysis || t is OpponentSpecific || t is RestDay
            || t is LightRecovery || t is Rehabilitation ==> coach_points(c, t).0 == c.attacking
            + c.defending + c.tactical + c.technical,
        c.attacking == 20 && c.defending == 20 && c.tactical == 20 && c.technical == 20 && c.fitness
            == 20 && c.mental == 20 && c.gk_shot_stopping == 20 && c.gk_handling == 20
            && c.gk_distribution == 20 ==> coach_points(c, t).0 == coach_points(c, t).1,
{
}

/// A favourite listens better to his coach by two tenths; one whom the coach cannot stand, below
/// -50, by two tenths worse; and nobody else is moved by it.
pub proof fn lemma_bond_with_a_coach(is_favorite: bool, level: Option<Measure>)
    ensures
        bond_tenths(is_favorite, level) == 2 <==> is_favorite,
        bond_tenths(is_favorite, level) == -2 <==> !is_favorite && level is Some
            && level->0.units() < -50 * crate::measure::one(),
        bond_tenths(is_favorite, level) == 0 <==> !is_favorite && (level is None
            || level->0.units() >= -50 * crate::measure::one()),
{
}

/// The room to grow is what is missing to the potential: together with what a player can do it
/// makes up the potential, and there is none where he has reached it.
pub proof fn lemma_room_to_grow(potential: u8, current: u8)
    ensures
        room_to_grow(potential, current) is None <==> current >= potential,
        room_to_grow(potential, current) is Some ==> {
            let (gap, whole) = room_to_grow(potential, current)->0;
            gap + current == whole && whole == potential && gap > 0
        },
{
}

proof fn lemma_when_holds(
    a: Seq<TrainingEventEvidence>,
    holds: bool,
    e: TrainingEventEvidence,
    x: TrainingEventEvidence,
)
    ensures
        (a + crate::training::when(holds, e)).contains(x) <==> a.contains(x) || (holds && x == e),
{
    let b = a + crate::training::when(holds, e);
    if a.contains(x) {
        let i = choose|i: int| 0 <= i < a.len() && a[i] == x;
        assert(b[i] == x);
    }
    if holds && x == e {
        assert(b[a.len() as int] == x);
    }
    if b.contains(x) {
        let i = choose|i: int| 0 <= i < b.len() && b[i] == x;
        if i < a.len() {
            assert(a[i] == x);
        }
    }
}

proof fn lemma_joined(
    a: Seq<TrainingEventEvidence>,
    b: Seq<TrainingEventEvidence>,
    x: TrainingEventEvidence,
)
    ensures
        (a + b).contains(x) <==> a.contains(x) || b.contains(x),
{
    let c = a + b;
    if a.contains(x) {
        let i = choose|i: int| 0 <= i < a.len() && a[i] == x;
        assert(c[i] == x);
    }
    if b.contains(x) {
        let i = choose|i: int| 0 <= i < b.len() && b[i] == x;
        assert(c[a.len() + i] == x);
    }
    if c.contains(x) {
        let i = choose|i: int| 0 <= i < c.len() && c[i] == x;
        if i < a.len() {
            assert(a[i] == x);
        } else {
            assert(b[i - a.len()] == x);
        }
    }
}

/// What the scores and the workload say.
proof fn lemma_performance_speaks(inp: OutcomeInputs, x: TrainingEventEvidence)
    ensures
        performance_evidence(inp).contains(x) <==> match x {
            TrainingEventEvidence::HighSessionPerformance => inp.raw.ge(14),
            TrainingEventEvidence::LowSessionPerformance => inp.raw.le(6),
            TrainingEventEvidence::LowEffort => inp.effort.le(7),
            TrainingEventEvidence::HighWorkRate => inp.work_rate.ge(14),
            TrainingEventEvidence::HighDetermination => inp.determination.ge(14),
            TrainingEventEvidence::LowCondition => inp.condition_pct < 60,
            TrainingEventEvidence::HighWorkload => !inp.fatigue_change.le(100),
            TrainingEventEvidence::Overloaded => overloaded(inp),
            TrainingEventEvidence::FatigueLimited => fatigued(inp),
            _ => false,
        },
{
    let s0 = Seq::<TrainingEventEvidence>::empty();
    let s1 = s0 + crate::training::when(inp.raw.ge(14), TrainingEventEvidence::HighSessionPerformance);
    lemma_when_holds(s0, inp.raw.ge(14), TrainingEventEvidence::HighSessionPerformance, x);
    let s2 = s1 + crate::training::when(inp.raw.le(6), TrainingEventEvidence::LowSessionPerformance);
    lemma_when_holds(s1, inp.raw.le(6), TrainingEventEvidence::LowSessionPerformance, x);
    let s3 = s2 + crate::training::when(inp.effort.le(7), TrainingEventEvidence::LowEffort);
    lemma_when_holds(s2, inp.effort.le(7), TrainingEventEvidence::LowEffort, x);
    let s4 = s3 + crate::training::when(inp.work_rate.ge(14), TrainingEventEvidence::HighWorkRate);
    lemma_when_holds(s3, inp.work_rate.ge(14), TrainingEventEvidence::HighWorkRate, x);
    let s5 = s4 + crate::training::when(inp.determination.ge(14), TrainingEventEvidence::HighDetermination);
    lemma_when_holds(s4, inp.determination.ge(14), TrainingEventEvidence::HighDetermination, x);
    let s6 = s5 + crate::training::when(inp.condition_pct < 60, TrainingEventEvidence::LowCondition);
    lemma_when_holds(s5, inp.condition_pct < 60, TrainingEventEvidence::LowCondition, x);
    let s7 = s6 + crate::training::when(!inp.fatigue_change.le(100), TrainingEventEvidence::HighWorkload);
    lemma_when_holds(s6, !inp.fatigue_change.le(100), TrainingEventEvidence::HighWorkload, x);
    let s8 = s7 + crate::training::when(overloaded(inp), TrainingEventEvidence::Overloaded);
    lemma_when_holds(s7, overloaded(inp), TrainingEventEvidence::Overloaded, x);
    let s9 = s8 + crate::training::when(fatigued(inp), TrainingEventEvidence::FatigueLimited);
    lemma_when_holds(s8, fatigued(inp), TrainingEventEvidence::FatigueLimited, x);
    assert(performance_evidence(inp) == s9);
}

/// What the player's state says.
proof fn lemma_condition_speaks(inp: OutcomeInputs, criticised: bool, rumoured: bool, x: TrainingEventEvidence)
    ensures
        condition_evidence(inp, criticised, rumoured).contains(x) <==> match x {
            TrainingEventEvidence::InRecoveryPhase => inp.in_recovery,
            TrainingEventEvidence::RecoveryLimited => inp.in_recovery,
            TrainingEventEvidence::LowMorale => !inp.morale.ge(35),
            TrainingEventEvidence::RecentlyDropped => criticised,
            TrainingEventEvidence::TransferSpeculation => rumoured,
            TrainingEventEvidence::TransferDistraction => rumoured,
            _ => false,
        },
{
    let s0 = Seq::<TrainingEventEvidence>::empty();
    let s1 = s0 + crate::training::when(inp.in_recovery, TrainingEventEvidence::InRecoveryPhase);
    lemma_when_holds(s0, inp.in_recovery, TrainingEventEvidence::InRecoveryPhase, x);
    let s2 = s1 + crate::training::when(inp.in_recovery, TrainingEventEvidence::RecoveryLimited);
    lemma_when_holds(s1, inp.in_recovery, TrainingEventEvidence::RecoveryLimited, x);
    let s3 = s2 + crate::training::when(!inp.morale.ge(35), TrainingEventEvidence::LowMorale);
    lemma_when_holds(s2, !inp.morale.ge(35), TrainingEventEvidence::LowMorale, x);
    let s4 = s3 + crate::training::when(criticised, TrainingEventEvidence::RecentlyDropped);
    lemma_when_holds(s3, criticised, TrainingEventEvidence::RecentlyDropped, x);
    let s5 = s4 + crate::training::when(rumoured, TrainingEventEvidence::TransferSpeculation);
    lemma_when_holds(s4, rumoured, TrainingEventEvidence::TransferSpeculation, x);
    let s6 = s5 + crate::training::when(rumoured, TrainingEventEvidence::TransferDistraction);
    lemma_when_holds(s5, rumoured, TrainingEventEvidence::TransferDistraction, x);
    assert(condition_evidence(inp, criticised, rumoured) == s6);
}

/// What age, character and standing say.
proof fn lemma_character_speaks(inp: OutcomeInputs, x: TrainingEventEvidence)
    ensures
        character_evidence(inp).contains(x) <==> match x {
            TrainingEventEvidence::HighProfessionalism => inp.professionalism.ge(15),
            TrainingEventEvidence::LowProfessionalism => inp.professionalism.le(7),
            TrainingEventEvidence::YouthDevelopmentTier => inp.age <= 21,
            TrainingEventEvidence::VeteranLeader => inp.age >= 30 && inp.leadership.ge(14),
            TrainingEventEvidence::CoachMismatch => inp.coach_fit.le(6),
            TrainingEventEvidence::TacticalMismatch => inp.session_fit.le(6),
            TrainingEventEvidence::StrongBaselineButOffDay => off_day(inp),
            TrainingEventEvidence::YoungPlayerBreakthrough => breakthrough(inp),
            TrainingEventEvidence::VeteranSetStandard => sets_standard(inp),
            _ => false,
        },
{
    let s0 = Seq::<TrainingEventEvidence>::empty();
    let s1 = s0 + crate::training::when(inp.professionalism.ge(15), TrainingEventEvidence::HighProfessionalism);
    lemma_when_holds(s0, inp.professionalism.ge(15), TrainingEventEvidence::HighProfessionalism, x);
    let s2 = s1 + crate::training::when(inp.professionalism.le(7), TrainingEventEvidence::LowProfessionalism);
    lemma_when_holds(s1, inp.professionalism.le(7), TrainingEventEvidence::LowProfessionalism, x);
    let s3 = s2 + crate::training::when(inp.age <= 21, TrainingEventEvidence::YouthDevelopmentTier);
    lemma_when_holds(s2, inp.age <= 21, TrainingEventEvidence::YouthDevelopmentTier, x);
    let s4 = s3 + crate::training::when(inp.age >= 30
        && inp.leadership.ge(14), TrainingEventEvidence::VeteranLeader);
    lemma_when_holds(s3, inp.age >= 30
        && inp.leadership.ge(14), TrainingEventEvidence::VeteranLeader, x);
    let s5 = s4 + crate::training::when(inp.coach_fit.le(6), TrainingEventEvidence::CoachMismatch);
    lemma_when_holds(s4, inp.coach_fit.le(6), TrainingEventEvidence::CoachMismatch, x);
    let s6 = s5 + crate::training::when(inp.session_fit.le(6), TrainingEventEvidence::TacticalMismatch);
    lemma_when_holds(s5, inp.session_fit.le(6), TrainingEventEvidence::TacticalMismatch, x);
    let s7 = s6 + crate::training::when(off_day(inp), TrainingEventEvidence::StrongBaselineButOffDay);
    lemma_when_holds(s6, off_day(inp), TrainingEventEvidence::StrongBaselineButOffDay, x);
    let s8 = s7 + crate::training::when(breakthrough(inp), TrainingEventEvidence::YoungPlayerBreakthrough);
    lemma_when_holds(s7, breakthrough(inp), TrainingEventEvidence::YoungPlayerBreakthrough, x);
    let s9 = s8 + crate::training::when(sets_standard(inp), TrainingEventEvidence::VeteranSetStandard);
    lemma_when_holds(s8, sets_standard(inp), TrainingEventEvidence::VeteranSetStandard, x);
    assert(character_evidence(inp) == s9);
}

/// What a session leaves as evidence: each fact exactly where it holds, and no other.
pub proof fn lemma_evidence_is_true(
    inp: OutcomeInputs,
    criticised: bool,
    rumoured: bool,
    x: TrainingEventEvidence,
)
    ensures
        ({
            let one = crate::measure::one();
            evidence(inp, criticised, rumoured).contains(x) <==> match x {
                TrainingEventEvidence::HighSessionPerformance => inp.raw.units() >= 14 * one,
                TrainingEventEvidence::LowSessionPerformance => inp.raw.units() <= 6 * one,
                TrainingEventEvidence::LowEffort => inp.effort.units() <= 7 * one,
                TrainingEventEvidence::HighWorkRate => inp.work_rate.units() >= 14 * one,
                TrainingEventEvidence::HighDetermination => inp.determination.units() >= 14 * one,
                TrainingEventEvidence::LowCondition => inp.condition_pct < 60,
                TrainingEventEvidence::HighWorkload => inp.fatigue_change.units() > 100 * one,
                TrainingEventEvidence::Overloaded => inp.recovery_debt_heavy || inp.workload_spike,
                TrainingEventEvidence::FatigueLimited => inp.condition_pct < 60
                    && (inp.recovery_debt.units() >= 200 * one || inp.workload_spike
                    || inp.fatigue_change.units() > 120 * one),
                TrainingEventEvidence::InRecoveryPhase => inp.in_recovery,
                TrainingEventEvidence::RecoveryLimited => inp.in_recovery,
                TrainingEventEvidence::LowMorale => inp.morale.units() < 35 * one,
                TrainingEventEvidence::RecentlyDropped => criticised,
                TrainingEventEvidence::TransferSpeculation => rumoured,
                TrainingEventEvidence::TransferDistraction => rumoured,
                TrainingEventEvidence::HighProfessionalism => inp.professionalism.units() >= 15 * one,
                TrainingEventEvidence::LowProfessionalism => inp.professionalism.units() <= 7 * one,
                TrainingEventEvidence::YouthDevelopmentTier => inp.age <= 21,
                TrainingEventEvidence::VeteranLeader => inp.age >= 30
                    && inp.leadership.units() >= 14 * one,
                TrainingEventEvidence::CoachMismatch => inp.coach_fit.units() <= 6 * one,
                TrainingEventEvidence::TacticalMismatch => inp.session_fit.units() <= 6 * one,
                TrainingEventEvidence::StrongBaselineButOffDay => inp.raw.units() < inp.baseline.units() && 2 * inp.baseline.units() >= 27 * one && inp.delta.units() <= -2 * one,
                TrainingEventEvidence::YoungPlayerBreakthrough => inp.raw.units() >= inp.baseline.units() && inp.age <= 21 && 2 * inp.raw.units() >= 27 * one && inp.delta.units() >= 2 * one,
                TrainingEventEvidence::VeteranSetStandard => inp.raw.units() >= inp.baseline.units() && inp.age >= 30 && inp.leadership.units() >= 14 * one && inp.raw.units() >= 13 * one,
            }
        }),
{
    let p = performance_evidence(inp);
    let c = condition_evidence(inp, criticised, rumoured);
    let d = character_evidence(inp);
    lemma_performance_speaks(inp, x);
    lemma_condition_speaks(inp, criticised, rumoured, x);
    lemma_character_speaks(inp, x);
    lemma_joined(p, c, x);
    lemma_joined(p + c, d, x);
}

/// What a player is held against: whatever is said of him in his first five sessions; after that
/// his own average, from 1 to 20.
pub proof fn lemma_what_a_player_is_held_against(sessions: u16, average: Measure, early: Measure)
    ensures
        ({
            let score = held_against(sessions, average, early);
            let one = crate::measure::one();
            &&& sessions <= 4 ==> score == early.units()
            &&& sessions >= 5 ==> one <= score <= 20 * one
            &&& sessions >= 5 && one <= average.units() <= 20 * one ==> score == average.units()
        }),
{
    crate::measure::lemma_one_positive();
}

/// Which taper applies to a skill: strength and stamina wait for the body, finishing and passing
/// follow technique, positioning and decisions the reading of the game, handling and reflexes the
/// goal; two skills of one family are never treated differently.
pub proof fn lemma_tapers_by_skill(p: SessionPlan, a: Skill, b: Skill)
    ensures
        family(a) == family(b) ==> p.taper(a) == p.taper(b),
        a is Strength || a is Stamina || a is Pace || a is Jumping ==> p.taper(a)
            == p.maturity_percent,
        a is Finishing || a is Passing || a is Tackling || a is Crossing ==> p.taper(a)
            == p.technical_percent,
        a is Positioning || a is Decisions || a is Leadership || a is WorkRate ==> p.taper(a)
            == p.mental_percent,
        a is Handling || a is Reflexes || a is Kicking || a is Punching ==> p.taper(a)
            == p.goalkeeping_percent,
{
}

} // verus!
