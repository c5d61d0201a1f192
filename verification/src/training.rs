//! Training sessions: what they teach, what they cost the body, and how a
//! day on the training ground is judged.
//!
//! The tables are exact decimals, held as integers with a fixed scale. The
//! caller multiplies them with the single-precision qualities of coach,
//! player and facility.

use crate::date::Date;
use crate::happiness::{HappinessEventType, PlayerHappiness};
use crate::measure::Measure;
#[allow(unused_imports)]
use vstd::prelude::*;

verus! {

/// The kind of a training session.
#[derive(Clone, Copy, Debug, PartialEq, Eq, Structural)]
pub enum TrainingType {
    Endurance,
    Strength,
    Speed,
    Agility,
    Recovery,
    BallControl,
    Passing,
    Shooting,
    Crossing,
    SetPieces,
    Positioning,
    TeamShape,
    PressingDrills,
    TransitionPlay,
    SetPiecesDefensive,
    Concentration,
    DecisionMaking,
    Leadership,
    MatchPreparation,
    VideoAnalysis,
    OpponentSpecific,
    RestDay,
    LightRecovery,
    Rehabilitation,
    GoalkeeperTraining,
}

/// How hard a session is run.
#[derive(Clone, Copy, Debug, PartialEq, Eq, Structural)]
pub enum TrainingIntensity {
    VeryLight,
    Light,
    Moderate,
    High,
    VeryHigh,
}

/// A skill that training can move.
#[derive(Clone, Copy, Debug, PartialEq, Eq, Structural)]
pub enum Skill {
    Stamina,
    Strength,
    Pace,
    Agility,
    Balance,
    Jumping,
    NaturalFitness,
    FirstTouch,
    Passing,
    Crossing,
    Dribbling,
    Finishing,
    Heading,
    Tackling,
    Technique,
    Marking,
    LongShots,
    FreeKicks,
    Corners,
    PenaltyTaking,
    Concentration,
    Decisions,
    Positioning,
    Teamwork,
    Vision,
    WorkRate,
    Leadership,
    Composure,
    Anticipation,
    Bravery,
    OffTheBall,
    Handling,
    Reflexes,
    OneOnOnes,
    AerialReach,
    CommandOfArea,
    Communication,
    RushingOut,
    Punching,
    Kicking,
    Throwing,
}

/// The family a skill belongs to; age bites each family differently.
#[derive(Clone, Copy, Debug, PartialEq, Eq, Structural)]
pub enum SkillFamily {
    Physical,
    Technical,
    Mental,
    Goalkeeping,
}

/// A skill that an individual plan can single out.
#[derive(Clone, Copy, Debug, PartialEq, Eq, Structural)]
pub enum SkillType {
    FreeKicks,
    Penalties,
    LongShots,
    Heading,
    Tackling,
    Crossing,
    Dribbling,
}

/// A focus area of an individual plan.
#[derive(Clone, Copy, Debug, PartialEq, Eq, Structural)]
pub enum TrainingFocus {
    WeakFootImprovement,
    PositionRetraining,
    SpecificSkill(SkillType),
    FitnessBuilding,
    MentalDevelopment,
    InjuryRecovery,
}

/// A scheduled session.
#[derive(Clone, Copy, Debug, PartialEq, Eq, Structural)]
pub struct TrainingSession {
    pub session_type: TrainingType,
    pub intensity: TrainingIntensity,
    pub duration_minutes: u16,
}

/// What a session does to the body.
#[derive(Clone, Copy, Debug, PartialEq, Eq, Structural)]
pub struct SessionLoad {
    /// Condition lost; negative where the session restores it.
    pub fatigue: i32,
    /// Injury risk in ten-thousandths; negative where the session lowers it.
    pub injury_risk: i32,
    /// Physical load units.
    pub load_units: u32,
    /// Share of high-intensity work, in percent.
    pub high_intensity_percent: u32,
    /// Match readiness gained, in tenths.
    pub readiness_tenths: u32,
    /// Whether fatigue, injury risk and load grow with the session's intensity.
    pub scales_with_intensity: bool,
}

impl SessionLoad {
    /// A load from its parts.
    pub open spec fn of_spec(
        fatigue: int,
        injury_risk: int,
        load_units: u32,
        high_intensity_percent: u32,
        readiness_tenths: u32,
        scales_with_intensity: bool,
    ) -> SessionLoad {
        SessionLoad {
            fatigue: fatigue as i32,
            injury_risk: injury_risk as i32,
            load_units,
            high_intensity_percent,
            readiness_tenths,
            scales_with_intensity,
        }
    }

    fn of(
        fatigue: i32,
        injury_risk: i32,
        load_units: u32,
        high_intensity_percent: u32,
        readiness_tenths: u32,
        scales_with_intensity: bool,
    ) -> (r: SessionLoad)
        ensures
            r == SessionLoad::of_spec(
                fatigue as int,
                injury_risk as int,
                load_units,
                high_intensity_percent,
                readiness_tenths,
                scales_with_intensity,
            ),
    {
        SessionLoad {
            fatigue,
            injury_risk,
            load_units,
            high_intensity_percent,
            readiness_tenths,
            scales_with_intensity,
        }
    }
}

/// A share of the individual work that goes to one skill.
#[derive(Clone, Copy, Debug, PartialEq, Eq, Structural)]
pub struct FocusShare {
    pub skill: Skill,
    /// Share of the individual gain, in tenths.
    pub tenths: u32,
    /// Whether the physical age factor applies on top.
    pub aged: bool,
}

/// The family of a skill.
pub open spec fn family(skill: Skill) -> SkillFamily {
    match skill {
        Skill::Stamina | Skill::Strength | Skill::Pace | Skill::Agility | Skill::Balance
        | Skill::Jumping | Skill::NaturalFitness => SkillFamily::Physical,
        Skill::FirstTouch | Skill::Passing | Skill::Crossing | Skill::Dribbling
        | Skill::Finishing | Skill::Heading | Skill::Tackling | Skill::Technique | Skill::Marking
        | Skill::LongShots | Skill::FreeKicks | Skill::Corners
        | Skill::PenaltyTaking => SkillFamily::Technical,
        Skill::Concentration | Skill::Decisions | Skill::Positioning | Skill::Teamwork
        | Skill::Vision | Skill::WorkRate | Skill::Leadership | Skill::Composure
        | Skill::Anticipation | Skill::Bravery | Skill::OffTheBall => SkillFamily::Mental,
        Skill::Handling | Skill::Reflexes | Skill::OneOnOnes | Skill::AerialReach
        | Skill::CommandOfArea | Skill::Communication | Skill::RushingOut | Skill::Punching
        | Skill::Kicking | Skill::Throwing => SkillFamily::Goalkeeping,
    }
}

/// The skills a session teaches, each with its base gain in thousandths.
pub open spec fn session_gains(t: TrainingType) -> Seq<(Skill, u32)> {
    match t {
        TrainingType::Endurance => seq![(Skill::Stamina, 50), (Skill::NaturalFitness, 30)],
        TrainingType::Strength => seq![(Skill::Strength, 40), (Skill::Jumping, 20)],
        TrainingType::Speed => seq![(Skill::Pace, 30), (Skill::Agility, 40)],
        TrainingType::Agility => seq![(Skill::Agility, 40), (Skill::Balance, 30)],
        TrainingType::BallControl => seq![
            (Skill::FirstTouch, 50),
            (Skill::Technique, 40),
            (Skill::Dribbling, 30),
        ],
        TrainingType::Passing => seq![(Skill::Passing, 60), (Skill::Vision, 20)],
        TrainingType::Shooting => seq![
            (Skill::Finishing, 50),
            (Skill::Technique, 20),
            (Skill::LongShots, 20),
            (Skill::Decisions, 10),
            (Skill::Composure, 10),
        ],
        TrainingType::Crossing => seq![(Skill::Crossing, 50), (Skill::Technique, 20)],
        TrainingType::SetPieces => seq![
            (Skill::Crossing, 30),
            (Skill::Heading, 20),
            (Skill::Corners, 25),
            (Skill::FreeKicks, 25),
        ],
        TrainingType::Positioning => seq![
            (Skill::Positioning, 60),
            (Skill::Concentration, 30),
            (Skill::Decisions, 20),
            (Skill::Anticipation, 20),
        ],
        TrainingType::TeamShape => seq![
            (Skill::Teamwork, 50),
            (Skill::Positioning, 40),
            (Skill::WorkRate, 20),
        ],
        TrainingType::PressingDrills => seq![(Skill::WorkRate, 40), (Skill::Teamwork, 30)],
        TrainingType::TransitionPlay => seq![
            (Skill::Passing, 30),
            (Skill::Decisions, 30),
            (Skill::OffTheBall, 20),
        ],
        TrainingType::SetPiecesDefensive => seq![
            (Skill::Positioning, 30),
            (Skill::Marking, 30),
            (Skill::Heading, 20),
            (Skill::Bravery, 10),
        ],
        TrainingType::Concentration => seq![(Skill::Concentration, 50), (Skill::Composure, 20)],
        TrainingType::DecisionMaking => seq![
            (Skill::Decisions, 50),
            (Skill::Vision, 20),
            (Skill::Anticipation, 20),
        ],
        TrainingType::Leadership => seq![(Skill::Leadership, 50), (Skill::Teamwork, 20)],
        TrainingType::MatchPreparation => seq![
            (Skill::Concentration, 30),
            (Skill::Positioning, 20),
            (Skill::Composure, 15),
        ],
        TrainingType::VideoAnalysis => seq![
            (Skill::Decisions, 30),
            (Skill::Positioning, 20),
            (Skill::Vision, 20),
        ],
        TrainingType::OpponentSpecific => seq![(Skill::Decisions, 20), (Skill::Vision, 20)],
        TrainingType::GoalkeeperTraining => seq![
            (Skill::Handling, 40),
            (Skill::Reflexes, 40),
            (Skill::OneOnOnes, 25),
            (Skill::AerialReach, 20),
            (Skill::CommandOfArea, 20),
            (Skill::Kicking, 20),
            (Skill::RushingOut, 15),
            (Skill::Communication, 10),
            (Skill::Punching, 10),
            (Skill::Throwing, 10),
        ],
        TrainingType::Recovery
        | TrainingType::RestDay
        | TrainingType::LightRecovery
        | TrainingType::Rehabilitation => Seq::empty(),
    }
}

/// What a session does to the body at moderate intensity and an hour's length.
pub open spec fn session_load(t: TrainingType) -> SessionLoad {
    match t {
        TrainingType::Endurance => SessionLoad::of_spec(100, 20, 30, 20, 4, true),
        TrainingType::Strength => SessionLoad::of_spec(100, 30, 22, 15, 3, true),
        TrainingType::Speed => SessionLoad::of_spec(150, 40, 32, 55, 5, true),
        TrainingType::Agility => SessionLoad::of_spec(80, 30, 24, 40, 4, true),
        TrainingType::Recovery => SessionLoad::of_spec(-800, -20, 0, 0, 1, false),
        TrainingType::BallControl => SessionLoad::of_spec(15, 10, 12, 10, 4, true),
        TrainingType::Passing => SessionLoad::of_spec(10, 10, 10, 5, 4, true),
        TrainingType::Shooting => SessionLoad::of_spec(50, 20, 16, 20, 5, true),
        TrainingType::Crossing => SessionLoad::of_spec(30, 10, 14, 15, 4, true),
        TrainingType::SetPieces => SessionLoad::of_spec(20, 8, 8, 10, 4, true),
        TrainingType::Positioning => SessionLoad::of_spec(-30, 5, 4, 0, 4, true),
        TrainingType::TeamShape => SessionLoad::of_spec(30, 10, 14, 10, 6, true),
        TrainingType::PressingDrills => SessionLoad::of_spec(180, 40, 38, 50, 10, true),
        TrainingType::TransitionPlay => SessionLoad::of_spec(160, 30, 34, 45, 10, true),
        TrainingType::SetPiecesDefensive => SessionLoad::of_spec(20, 8, 8, 10, 4, true),
        TrainingType::Concentration => SessionLoad::of_spec(-60, 0, 0, 0, 2, false),
        TrainingType::DecisionMaking => SessionLoad::of_spec(-60, 0, 0, 0, 2, false),
        TrainingType::Leadership => SessionLoad::of_spec(-60, 0, 0, 0, 2, false),
        TrainingType::MatchPreparation => SessionLoad::of_spec(30, 15, 18, 20, 12, true),
        TrainingType::VideoAnalysis => SessionLoad::of_spec(-120, 0, 0, 0, 1, false),
        TrainingType::OpponentSpecific => SessionLoad::of_spec(20, 10, 10, 10, 6, true),
        TrainingType::RestDay => SessionLoad::of_spec(-600, -30, 0, 0, 0, false),
        TrainingType::LightRecovery => SessionLoad::of_spec(-500, -10, 2, 0, 2, false),
        TrainingType::Rehabilitation => SessionLoad::of_spec(-300, -20, 4, 0, 3, false),
        TrainingType::GoalkeeperTraining => SessionLoad::of_spec(60, 20, 20, 30, 8, true),
    }
}

/// The skills whose average says how well a session suits a player. Recovery days have none:
/// there the player's condition decides.
pub open spec fn fit_skills(t: TrainingType) -> Seq<Skill> {
    match t {
        TrainingType::Endurance => seq![Skill::Stamina, Skill::NaturalFitness],
        TrainingType::Strength => seq![Skill::Strength, Skill::Jumping],
        TrainingType::Speed => seq![Skill::Pace, Skill::Agility],
        TrainingType::Agility => seq![Skill::Agility, Skill::Balance],
        TrainingType::BallControl => seq![Skill::FirstTouch, Skill::Technique, Skill::Dribbling],
        TrainingType::Passing => seq![Skill::Passing, Skill::Technique, Skill::Vision],
        TrainingType::Shooting => seq![Skill::Finishing, Skill::Technique, Skill::Decisions],
        TrainingType::Crossing => seq![Skill::Crossing, Skill::Technique],
        TrainingType::SetPieces => seq![Skill::Crossing, Skill::Heading, Skill::Technique],
        TrainingType::Positioning => seq![
            Skill::Positioning,
            Skill::Concentration,
            Skill::Decisions,
        ],
        TrainingType::TeamShape => seq![Skill::Teamwork, Skill::Positioning, Skill::WorkRate],
        TrainingType::PressingDrills => seq![Skill::WorkRate, Skill::Teamwork, Skill::Stamina],
        TrainingType::TransitionPlay => seq![Skill::Passing, Skill::Decisions, Skill::Pace],
        TrainingType::SetPiecesDefensive => seq![
            Skill::Positioning,
            Skill::Heading,
            Skill::Tackling,
        ],
        TrainingType::Concentration => seq![Skill::Concentration, Skill::Decisions],
        TrainingType::DecisionMaking => seq![Skill::Decisions, Skill::Vision],
        TrainingType::Leadership => seq![Skill::Leadership, Skill::Teamwork],
        TrainingType::MatchPreparation => seq![
            Skill::Concentration,
            Skill::Positioning,
            Skill::Decisions,
        ],
        TrainingType::VideoAnalysis => seq![Skill::Decisions, Skill::Positioning, Skill::Vision],
        TrainingType::OpponentSpecific => seq![
            Skill::Decisions,
            Skill::Vision,
            Skill::Concentration,
        ],
        TrainingType::GoalkeeperTraining => seq![Skill::Handling, Skill::Reflexes, Skill::Agility],
        TrainingType::Recovery
        | TrainingType::RestDay
        | TrainingType::LightRecovery
        | TrainingType::Rehabilitation => Seq::empty(),
    }
}

/// Whether what a session teaches depends on the player's receptiveness. Sitting in front of
/// a screen does not.
pub open spec fn uses_receptiveness(t: TrainingType) -> bool {
    !(t is VideoAnalysis || t is OpponentSpecific)
}

/// Whether the physical age factor applies to what a session teaches.
pub open spec fn is_physical_session(t: TrainingType) -> bool {
    t is Endurance || t is Strength || t is Speed || t is Agility
}

/// Whether the session belongs to the recovery days, which carry no individual work.
pub open spec fn is_recovery_family(t: TrainingType) -> bool {
    t is Recovery || t is LightRecovery || t is Rehabilitation || t is RestDay || t is VideoAnalysis
}

/// The skills that a focus area works on.
pub open spec fn focus_shares(focus: TrainingFocus) -> Seq<FocusShare> {
    match focus {
        TrainingFocus::SpecificSkill(s) => seq![
            FocusShare {
                skill: match s {
                    SkillType::FreeKicks => Skill::FreeKicks,
                    SkillType::Penalties => Skill::PenaltyTaking,
                    SkillType::LongShots => Skill::LongShots,
                    SkillType::Heading => Skill::Heading,
                    SkillType::Tackling => Skill::Tackling,
                    SkillType::Crossing => Skill::Crossing,
                    SkillType::Dribbling => Skill::Dribbling,
                },
                tenths: 10,
                aged: false,
            },
        ],
        TrainingFocus::FitnessBuilding => seq![
            FocusShare { skill: Skill::Stamina, tenths: 6, aged: true },
            FocusShare { skill: Skill::NaturalFitness, tenths: 4, aged: true },
        ],
        TrainingFocus::MentalDevelopment => seq![
            FocusShare { skill: Skill::Composure, tenths: 5, aged: false },
            FocusShare { skill: Skill::Decisions, tenths: 5, aged: false },
        ],
        TrainingFocus::WeakFootImprovement
        | TrainingFocus::PositionRetraining
        | TrainingFocus::InjuryRecovery => Seq::empty(),
    }
}

/// The skills that a list of focus areas works on, in order.
pub open spec fn all_focus_shares(areas: Seq<TrainingFocus>) -> Seq<FocusShare>
    decreases areas.len(),
{
    if areas.len() == 0 {
        Seq::empty()
    } else {
        all_focus_shares(areas.drop_last()) + focus_shares(areas.last())
    }
}

/// The body's share of an intensity, in percent of moderate.
pub open spec fn intensity_percent(i: TrainingIntensity) -> u32 {
    match i {
        TrainingIntensity::VeryLight => 30,
        TrainingIntensity::Light => 50,
        TrainingIntensity::Moderate => 100,
        TrainingIntensity::High => 150,
        TrainingIntensity::VeryHigh => 200,
    }
}

/// The learning share of an intensity, in percent of moderate: it saturates.
pub open spec fn gain_intensity_percent(i: TrainingIntensity) -> u32 {
    match i {
        TrainingIntensity::VeryLight => 60,
        TrainingIntensity::Light => 80,
        TrainingIntensity::Moderate => 100,
        TrainingIntensity::High => 115,
        TrainingIntensity::VeryHigh => 125,
    }
}

/// The physical age factor, in percent.
pub open spec fn age_percent(age: u8) -> u32 {
    if age <= 13 {
        40
    } else if age <= 15 {
        70
    } else if age <= 18 {
        150
    } else if age <= 21 {
        130
    } else if age <= 24 {
        110
    } else if age <= 27 {
        100
    } else if age <= 30 {
        80
    } else if age <= 33 {
        50
    } else if age <= 36 {
        30
    } else {
        10
    }
}

/// The veteran taper of a family, in percent. Physical work carries [`age_percent`] instead.
pub open spec fn family_age_percent(f: SkillFamily, age: u8) -> u32 {
    match f {
        SkillFamily::Physical => 100,
        SkillFamily::Technical => if age <= 27 {
            100
        } else if age <= 30 {
            85
        } else if age <= 33 {
            60
        } else if age <= 36 {
            40
        } else {
            25
        },
        SkillFamily::Mental => if age <= 29 {
            100
        } else if age <= 32 {
            90
        } else if age <= 35 {
            75
        } else {
            55
        },
        SkillFamily::Goalkeeping => if age <= 31 {
            100
        } else if age <= 34 {
            85
        } else if age <= 37 {
            65
        } else {
            45
        },
    }
}

/// How much physical work a growing body takes, in percent.
pub open spec fn maturity_percent(age: u8) -> u32 {
    if age <= 13 {
        20
    } else if age == 14 {
        30
    } else if age == 15 {
        45
    } else if age == 16 {
        70
    } else if age == 17 {
        88
    } else {
        100
    }
}

/// The weight of the gap between potential and present ability, in percent.
pub open spec fn potential_age_percent(age: u8) -> u32 {
    if age <= 13 {
        40
    } else if age <= 15 {
        70
    } else if age <= 18 {
        150
    } else if age <= 21 {
        130
    } else if age <= 24 {
        100
    } else if age <= 27 {
        60
    } else if age <= 30 {
        30
    } else {
        10
    }
}

/// What age adds to a player's receptiveness, in tenths.
pub open spec fn receptive_age_tenths(age: u8) -> int {
    if age < 16 {
        -1
    } else if age <= 20 {
        3
    } else if age <= 24 {
        2
    } else if age <= 28 {
        1
    } else if age <= 32 {
        0
    } else {
        -1
    }
}

/// The minutes of a session that count, out of an hour.
pub open spec fn effective_minutes(minutes: u16) -> u16 {
    if minutes < 21 {
        21
    } else if minutes > 90 {
        90
    } else {
        minutes
    }
}

/// The percentage by which a session's intensity changes its cost to the body.
pub open spec fn cost_percent(t: TrainingType, i: TrainingIntensity) -> int {
    if session_load(t).scales_with_intensity {
        intensity_percent(i) as int
    } else {
        100
    }
}

/// A cost of the session, out of 6000 for each unit of the load: it grows with the minutes that
/// count.
pub open spec fn dosed_cost(amount: int, session: TrainingSession) -> int {
    amount * cost_percent(session.session_type, session.intensity) * effective_minutes(
        session.duration_minutes,
    )
}

/// The square of a benefit of the session: as the square grows with the minutes that count, the
/// benefit grows with their square root.
pub open spec fn dosed_benefit_squared(amount: int, session: TrainingSession) -> int {
    amount * amount * effective_minutes(session.duration_minutes)
}

/// A number for each kind of session, the same in every build.
pub open spec fn session_type_token(t: TrainingType) -> u32 {
    match t {
        TrainingType::Endurance => 1,
        TrainingType::Strength => 2,
        TrainingType::Speed => 3,
        TrainingType::Agility => 4,
        TrainingType::Recovery => 5,
        TrainingType::BallControl => 6,
        TrainingType::Passing => 7,
        TrainingType::Shooting => 8,
        TrainingType::Crossing => 9,
        TrainingType::SetPieces => 10,
        TrainingType::Positioning => 11,
        TrainingType::TeamShape => 12,
        TrainingType::PressingDrills => 13,
        TrainingType::TransitionPlay => 14,
        TrainingType::SetPiecesDefensive => 15,
        TrainingType::Concentration => 16,
        TrainingType::DecisionMaking => 17,
        TrainingType::Leadership => 18,
        TrainingType::MatchPreparation => 19,
        TrainingType::VideoAnalysis => 20,
        TrainingType::OpponentSpecific => 21,
        TrainingType::RestDay => 22,
        TrainingType::LightRecovery => 23,
        TrainingType::Rehabilitation => 24,
        TrainingType::GoalkeeperTraining => 25,
    }
}

/// A number for each intensity.
pub open spec fn intensity_token(i: TrainingIntensity) -> u32 {
    match i {
        TrainingIntensity::VeryLight => 1,
        TrainingIntensity::Light => 2,
        TrainingIntensity::Moderate => 3,
        TrainingIntensity::High => 4,
        TrainingIntensity::VeryHigh => 5,
    }
}

/// What the length and the intensity of a session make of its load. The body pays by the minute;
/// sharpness and learning grow by the square root of the minutes, so their squares are kept.
#[derive(Clone, Copy, Debug, PartialEq, Eq, Structural)]
pub struct SessionDose {
    /// Condition lost, out of 6000 for each unit.
    pub fatigue: i64,
    /// Injury risk, out of 6000 for each ten-thousandth.
    pub injury_risk: i64,
    /// Physical load, out of 6000 for each unit.
    pub load_units: i64,
    /// The square of the match readiness gained, in 6000ths.
    pub readiness_squared: i64,
    /// The square of the factor on skill gains, in 600000ths.
    pub gain_squared: i64,
}

impl SessionDose {
    /// Whether this is what a session's length and intensity make of its load.
    pub open spec fn is_of(self, session: TrainingSession) -> bool {
        let load = session_load(session.session_type);
        &&& self.fatigue == dosed_cost(load.fatigue as int, session)
        &&& self.injury_risk == dosed_cost(load.injury_risk as int, session)
        &&& self.load_units == dosed_cost(load.load_units as int, session)
        &&& self.readiness_squared == dosed_benefit_squared(load.readiness_tenths as int, session)
        &&& self.gain_squared == dosed_benefit_squared(
            gain_intensity_percent(session.intensity) as int,
            session,
        )
    }

    fn of(session: &TrainingSession, minutes: u16) -> (r: Self)
        requires
            minutes == effective_minutes(session.duration_minutes),
        ensures
            r.is_of(*session),
    {
        let load = session.session_type.load();
        let percent: i64 = if load.scales_with_intensity {
            session.intensity.percent() as i64
        } else {
            100
        };
        let gain: i64 = session.intensity.gain_percent() as i64;
        let m: i64 = minutes as i64;
        let fatigue: i64 = dosed(load.fatigue, percent, m);
        let injury_risk: i64 = dosed(load.injury_risk, percent, m);
        let load_units: i64 = dosed(load.load_units as i32, percent, m);
        let readiness_squared: i64 = dosed(
            load.readiness_tenths as i32,
            load.readiness_tenths as i64,
            m,
        );
        let gain_squared: i64 = dosed(gain as i32, gain, m);
        SessionDose { fatigue, injury_risk, load_units, readiness_squared, gain_squared }
    }
}

fn dosed(amount: i32, percent: i64, minutes: i64) -> (r: i64)
    requires
        -1000 <= amount <= 1000,
        0 <= percent <= 200,
        0 <= minutes <= 90,
    ensures
        r == amount * percent * minutes,
{
    let a: i64 = amount as i64;
    assert(-200_000 <= a * percent <= 200_000) by (nonlinear_arith)
        requires
            -1000 <= a <= 1000,
            0 <= percent <= 200,
    ;
    let scaled: i64 = a * percent;
    assert(-18_000_000 <= scaled * minutes <= 18_000_000) by (nonlinear_arith)
        requires
            -200_000 <= scaled <= 200_000,
            0 <= minutes <= 90,
    ;
    scaled * minutes
}

/// Everything about a session that does not depend on the quality of coach, player and
/// facility.
#[derive(Debug)]
pub struct SessionPlan {
    /// The skills taught, with base gains in thousandths.
    pub gains: Vec<(Skill, u32)>,
    /// Whether the base gains are multiplied by the player's receptiveness.
    pub gains_use_receptiveness: bool,
    /// Whether the base gains are multiplied by the physical age factor.
    pub gains_use_age: bool,
    /// The individual work on top.
    pub extra: Vec<FocusShare>,
    /// The cost to the body.
    pub load: SessionLoad,
    pub intensity_percent: u32,
    pub gain_intensity_percent: u32,
    pub effective_minutes: u16,
    /// What length and intensity make of the load.
    pub dose: SessionDose,
    /// Whether the session restores condition, so that facilities speed it up.
    pub restores_condition: bool,
    /// Whether the player is tired, so that the session hurts more.
    pub tired: bool,
    pub age_percent: u32,
    pub technical_percent: u32,
    pub mental_percent: u32,
    pub goalkeeping_percent: u32,
    pub maturity_percent: u32,
}

/// A player's record on the training ground.
#[derive(Clone, Copy, Debug, PartialEq, Eq, Structural)]
pub struct PlayerTraining {
    /// Rolling average of session quality.
    pub training_performance: Measure,
    /// Sessions completed.
    pub sessions_completed: u16,
}

fn focus_list(focus: &TrainingFocus) -> (r: Vec<FocusShare>)
    ensures
        r@ == focus_shares(*focus),
{
    match focus {
        TrainingFocus::SpecificSkill(s) => {
            let skill = match s {
                SkillType::FreeKicks => Skill::FreeKicks,
                SkillType::Penalties => Skill::PenaltyTaking,
                SkillType::LongShots => Skill::LongShots,
                SkillType::Heading => Skill::Heading,
                SkillType::Tackling => Skill::Tackling,
                SkillType::Crossing => Skill::Crossing,
                SkillType::Dribbling => Skill::Dribbling,
            };
            vec![FocusShare { skill, tenths: 10, aged: false }]
        },
        TrainingFocus::FitnessBuilding => vec![
            FocusShare { skill: Skill::Stamina, tenths: 6, aged: true },
            FocusShare { skill: Skill::NaturalFitness, tenths: 4, aged: true },
        ],
        TrainingFocus::MentalDevelopment => vec![
            FocusShare { skill: Skill::Composure, tenths: 5, aged: false },
            FocusShare { skill: Skill::Decisions, tenths: 5, aged: false },
        ],
        TrainingFocus::WeakFootImprovement
        | TrainingFocus::PositionRetraining
        | TrainingFocus::InjuryRecovery => Vec::new(),
    }
}

impl Skill {
    /// The family of the skill.
    pub fn family(self) -> (r: SkillFamily)
        ensures
            r == family(self),
    {
        match self {
            Skill::Stamina | Skill::Strength | Skill::Pace | Skill::Agility | Skill::Balance
            | Skill::Jumping | Skill::NaturalFitness => SkillFamily::Physical,
            Skill::FirstTouch | Skill::Passing | Skill::Crossing | Skill::Dribbling
            | Skill::Finishing | Skill::Heading | Skill::Tackling | Skill::Technique
            | Skill::Marking | Skill::LongShots | Skill::FreeKicks | Skill::Corners
            | Skill::PenaltyTaking => SkillFamily::Technical,
            Skill::Concentration | Skill::Decisions | Skill::Positioning | Skill::Teamwork
            | Skill::Vision | Skill::WorkRate | Skill::Leadership | Skill::Composure
            | Skill::Anticipation | Skill::Bravery | Skill::OffTheBall => SkillFamily::Mental,
            Skill::Handling | Skill::Reflexes | Skill::OneOnOnes | Skill::AerialReach
            | Skill::CommandOfArea | Skill::Communication | Skill::RushingOut | Skill::Punching
            | Skill::Kicking | Skill::Throwing => SkillFamily::Goalkeeping,
        }
    }
}

impl SessionPlan {
    /// How much of a gain in the skill the player's age leaves, in percent.
    pub open spec fn taper(self, skill: Skill) -> u32 {
        match family(skill) {
            SkillFamily::Physical => self.maturity_percent,
            SkillFamily::Technical => self.technical_percent,
            SkillFamily::Mental => self.mental_percent,
            SkillFamily::Goalkeeping => self.goalkeeping_percent,
        }
    }

    /// How much of a gain in the skill the player's age leaves, in percent. Physical work has
    /// its age in the base gains already; there the body's maturity counts.
    pub fn taper_percent(&self, skill: Skill) -> (r: u32)
        ensures
            r == self.taper(skill),
    {
        match skill.family() {
            SkillFamily::Physical => self.maturity_percent,
            SkillFamily::Technical => self.technical_percent,
            SkillFamily::Mental => self.mental_percent,
            SkillFamily::Goalkeeping => self.goalkeeping_percent,
        }
    }
}

impl TrainingType {
    /// The skills the session teaches, with base gains in thousandths.
    pub fn gains(&self) -> (r: Vec<(Skill, u32)>)
        ensures
            r@ == session_gains(*self),
    {
        match self {
            TrainingType::Endurance => vec![(Skill::Stamina, 50), (Skill::NaturalFitness, 30)],
            TrainingType::Strength => vec![(Skill::Strength, 40), (Skill::Jumping, 20)],
            TrainingType::Speed => vec![(Skill::Pace, 30), (Skill::Agility, 40)],
            TrainingType::Agility => vec![(Skill::Agility, 40), (Skill::Balance, 30)],
            TrainingType::BallControl => vec![
                (Skill::FirstTouch, 50),
                (Skill::Technique, 40),
                (Skill::Dribbling, 30),
            ],
            TrainingType::Passing => vec![(Skill::Passing, 60), (Skill::Vision, 20)],
            TrainingType::Shooting => vec![
                (Skill::Finishing, 50),
                (Skill::Technique, 20),
                (Skill::LongShots, 20),
                (Skill::Decisions, 10),
                (Skill::Composure, 10),
            ],
            TrainingType::Crossing => vec![(Skill::Crossing, 50), (Skill::Technique, 20)],
            TrainingType::SetPieces => vec![
                (Skill::Crossing, 30),
                (Skill::Heading, 20),
                (Skill::Corners, 25),
                (Skill::FreeKicks, 25),
            ],
            TrainingType::Positioning => vec![
                (Skill::Positioning, 60),
                (Skill::Concentration, 30),
                (Skill::Decisions, 20),
                (Skill::Anticipation, 20),
            ],
            TrainingType::TeamShape => vec![
                (Skill::Teamwork, 50),
                (Skill::Positioning, 40),
                (Skill::WorkRate, 20),
            ],
            TrainingType::PressingDrills => vec![(Skill::WorkRate, 40), (Skill::Teamwork, 30)],
            TrainingType::TransitionPlay => vec![
                (Skill::Passing, 30),
                (Skill::Decisions, 30),
                (Skill::OffTheBall, 20),
            ],
            TrainingType::SetPiecesDefensive => vec![
                (Skill::Positioning, 30),
                (Skill::Marking, 30),
                (Skill::Heading, 20),
                (Skill::Bravery, 10),
            ],
            TrainingType::Concentration => vec![(Skill::Concentration, 50), (Skill::Composure, 20)],
            TrainingType::DecisionMaking => vec![
                (Skill::Decisions, 50),
                (Skill::Vision, 20),
                (Skill::Anticipation, 20),
            ],
            TrainingType::Leadership => vec![(Skill::Leadership, 50), (Skill::Teamwork, 20)],
            TrainingType::MatchPreparation => vec![
                (Skill::Concentration, 30),
                (Skill::Positioning, 20),
                (Skill::Composure, 15),
            ],
            TrainingType::VideoAnalysis => vec![
                (Skill::Decisions, 30),
                (Skill::Positioning, 20),
                (Skill::Vision, 20),
            ],
            TrainingType::OpponentSpecific => vec![(Skill::Decisions, 20), (Skill::Vision, 20)],
            TrainingType::GoalkeeperTraining => vec![
                (Skill::Handling, 40),
                (Skill::Reflexes, 40),
                (Skill::OneOnOnes, 25),
                (Skill::AerialReach, 20),
                (Skill::CommandOfArea, 20),
                (Skill::Kicking, 20),
                (Skill::RushingOut, 15),
                (Skill::Communication, 10),
                (Skill::Punching, 10),
                (Skill::Throwing, 10),
            ],
            TrainingType::Recovery
            | TrainingType::RestDay
            | TrainingType::LightRecovery
            | TrainingType::Rehabilitation => Vec::new(),
        }
    }

    /// What the session does to the body.
    pub fn load(&self) -> (r: SessionLoad)
        ensures
            r == session_load(*self),
    {
        match self {
            TrainingType::Endurance => SessionLoad::of(100, 20, 30, 20, 4, true),
            TrainingType::Strength => SessionLoad::of(100, 30, 22, 15, 3, true),
            TrainingType::Speed => SessionLoad::of(150, 40, 32, 55, 5, true),
            TrainingType::Agility => SessionLoad::of(80, 30, 24, 40, 4, true),
            TrainingType::Recovery => SessionLoad::of(-800, -20, 0, 0, 1, false),
            TrainingType::BallControl => SessionLoad::of(15, 10, 12, 10, 4, true),
            TrainingType::Passing => SessionLoad::of(10, 10, 10, 5, 4, true),
            TrainingType::Shooting => SessionLoad::of(50, 20, 16, 20, 5, true),
            TrainingType::Crossing => SessionLoad::of(30, 10, 14, 15, 4, true),
            TrainingType::SetPieces => SessionLoad::of(20, 8, 8, 10, 4, true),
            TrainingType::Positioning => SessionLoad::of(-30, 5, 4, 0, 4, true),
            TrainingType::TeamShape => SessionLoad::of(30, 10, 14, 10, 6, true),
            TrainingType::PressingDrills => SessionLoad::of(180, 40, 38, 50, 10, true),
            TrainingType::TransitionPlay => SessionLoad::of(160, 30, 34, 45, 10, true),
            TrainingType::SetPiecesDefensive => SessionLoad::of(20, 8, 8, 10, 4, true),
            TrainingType::Concentration => SessionLoad::of(-60, 0, 0, 0, 2, false),
            TrainingType::DecisionMaking => SessionLoad::of(-60, 0, 0, 0, 2, false),
            TrainingType::Leadership => SessionLoad::of(-60, 0, 0, 0, 2, false),
            TrainingType::MatchPreparation => SessionLoad::of(30, 15, 18, 20, 12, true),
            TrainingType::VideoAnalysis => SessionLoad::of(-120, 0, 0, 0, 1, false),
            TrainingType::OpponentSpecific => SessionLoad::of(20, 10, 10, 10, 6, true),
            TrainingType::RestDay => SessionLoad::of(-600, -30, 0, 0, 0, false),
            TrainingType::LightRecovery => SessionLoad::of(-500, -10, 2, 0, 2, false),
            TrainingType::Rehabilitation => SessionLoad::of(-300, -20, 4, 0, 3, false),
            TrainingType::GoalkeeperTraining => SessionLoad::of(60, 20, 20, 30, 8, true),
        }
    }

    /// The skills whose average says how well the session suits a player.
    pub fn fit_skills(&self) -> (r: Vec<Skill>)
        ensures
            r@ == fit_skills(*self),
    {
        match self {
            TrainingType::Endurance => vec![Skill::Stamina, Skill::NaturalFitness],
            TrainingType::Strength => vec![Skill::Strength, Skill::Jumping],
            TrainingType::Speed => vec![Skill::Pace, Skill::Agility],
            TrainingType::Agility => vec![Skill::Agility, Skill::Balance],
            TrainingType::BallControl => vec![
                Skill::FirstTouch,
                Skill::Technique,
                Skill::Dribbling,
            ],
            TrainingType::Passing => vec![Skill::Passing, Skill::Technique, Skill::Vision],
            TrainingType::Shooting => vec![Skill::Finishing, Skill::Technique, Skill::Decisions],
            TrainingType::Crossing => vec![Skill::Crossing, Skill::Technique],
            TrainingType::SetPieces => vec![Skill::Crossing, Skill::Heading, Skill::Technique],
            TrainingType::Positioning => vec![
                Skill::Positioning,
                Skill::Concentration,
                Skill::Decisions,
            ],
            TrainingType::TeamShape => vec![Skill::Teamwork, Skill::Positioning, Skill::WorkRate],
            TrainingType::PressingDrills => vec![Skill::WorkRate, Skill::Teamwork, Skill::Stamina],
            TrainingType::TransitionPlay => vec![Skill::Passing, Skill::Decisions, Skill::Pace],
            TrainingType::SetPiecesDefensive => vec![
                Skill::Positioning,
                Skill::Heading,
                Skill::Tackling,
            ],
            TrainingType::Concentration => vec![Skill::Concentration, Skill::Decisions],
            TrainingType::DecisionMaking => vec![Skill::Decisions, Skill::Vision],
            TrainingType::Leadership => vec![Skill::Leadership, Skill::Teamwork],
            TrainingType::MatchPreparation => vec![
                Skill::Concentration,
                Skill::Positioning,
                Skill::Decisions,
            ],
            TrainingType::VideoAnalysis => vec![
                Skill::Decisions,
                Skill::Positioning,
                Skill::Vision,
            ],
            TrainingType::OpponentSpecific => vec![
                Skill::Decisions,
                Skill::Vision,
                Skill::Concentration,
            ],
            TrainingType::GoalkeeperTraining => vec![
                Skill::Handling,
                Skill::Reflexes,
                Skill::Agility,
            ],
            TrainingType::Recovery
            | TrainingType::RestDay
            | TrainingType::LightRecovery
            | TrainingType::Rehabilitation => Vec::new(),
        }
    }

    /// Whether the session belongs to the recovery days.
    pub fn is_recovery_family(&self) -> (r: bool)
        ensures
            r == is_recovery_family(*self),
    {
        matches!(
            self,
            TrainingType::Recovery
                | TrainingType::LightRecovery
                | TrainingType::Rehabilitation
                | TrainingType::RestDay
                | TrainingType::VideoAnalysis
        )
    }

    /// Whether what the session teaches depends on the player's receptiveness.
    fn uses_receptiveness(&self) -> (r: bool)
        ensures
            r == uses_receptiveness(*self),
    {
        !matches!(self, TrainingType::VideoAnalysis | TrainingType::OpponentSpecific)
    }

    /// Whether the physical age factor applies to what the session teaches.
    fn is_physical(&self) -> (r: bool)
        ensures
            r == is_physical_session(*self),
    {
        matches!(
            self,
            TrainingType::Endurance
                | TrainingType::Strength
                | TrainingType::Speed
                | TrainingType::Agility
        )
    }

    /// A number for each kind of session, the same in every build.
    fn token(&self) -> (r: u32)
        ensures
            r == session_type_token(*self),
    {
        match self {
            TrainingType::Endurance => 1,
            TrainingType::Strength => 2,
            TrainingType::Speed => 3,
            TrainingType::Agility => 4,
            TrainingType::Recovery => 5,
            TrainingType::BallControl => 6,
            TrainingType::Passing => 7,
            TrainingType::Shooting => 8,
            TrainingType::Crossing => 9,
            TrainingType::SetPieces => 10,
            TrainingType::Positioning => 11,
            TrainingType::TeamShape => 12,
            TrainingType::PressingDrills => 13,
            TrainingType::TransitionPlay => 14,
            TrainingType::SetPiecesDefensive => 15,
            TrainingType::Concentration => 16,
            TrainingType::DecisionMaking => 17,
            TrainingType::Leadership => 18,
            TrainingType::MatchPreparation => 19,
            TrainingType::VideoAnalysis => 20,
            TrainingType::OpponentSpecific => 21,
            TrainingType::RestDay => 22,
            TrainingType::LightRecovery => 23,
            TrainingType::Rehabilitation => 24,
            TrainingType::GoalkeeperTraining => 25,
        }
    }
}

impl TrainingIntensity {
    /// The body's share of the intensity, in percent of moderate.
    fn percent(&self) -> (r: u32)
        ensures
            r == intensity_percent(*self),
    {
        match self {
            TrainingIntensity::VeryLight => 30,
            TrainingIntensity::Light => 50,
            TrainingIntensity::Moderate => 100,
            TrainingIntensity::High => 150,
            TrainingIntensity::VeryHigh => 200,
        }
    }

    /// The learning share of the intensity, in percent of moderate.
    fn gain_percent(&self) -> (r: u32)
        ensures
            r == gain_intensity_percent(*self),
    {
        match self {
            TrainingIntensity::VeryLight => 60,
            TrainingIntensity::Light => 80,
            TrainingIntensity::Moderate => 100,
            TrainingIntensity::High => 115,
            TrainingIntensity::VeryHigh => 125,
        }
    }

    /// A number for each intensity.
    fn token(&self) -> (r: u32)
        ensures
            r == intensity_token(*self),
    {
        match self {
            TrainingIntensity::VeryLight => 1,
            TrainingIntensity::Light => 2,
            TrainingIntensity::Moderate => 3,
            TrainingIntensity::High => 4,
            TrainingIntensity::VeryHigh => 5,
        }
    }
}

impl PlayerTraining {
    /// A neutral record.
    pub fn new() -> (r: Self)
        ensures
            r.training_performance.wf(),
            r.training_performance.units() == 10 * crate::measure::one(),
            r.sessions_completed == 0,
    {
        let training_performance = Measure::whole(10);
        PlayerTraining { training_performance, sessions_completed: 0 }
    }

    /// What a session will do: the skills it teaches, the individual work on top of it, its
    /// cost, and the factors that come from intensity, length, age and condition.
    pub fn train(
        session: &TrainingSession,
        focus_areas: &Vec<TrainingFocus>,
        age: u8,
        condition_pct: u32,
    ) -> (plan: SessionPlan)
        ensures
            plan.gains@ == session_gains(session.session_type),
            plan.gains_use_receptiveness == uses_receptiveness(session.session_type),
            plan.gains_use_age == is_physical_session(session.session_type),
            plan.extra@ == if is_recovery_family(session.session_type) {
                Seq::<FocusShare>::empty()
            } else {
                all_focus_shares(focus_areas@)
            },
            plan.load == session_load(session.session_type),
            plan.intensity_percent == intensity_percent(session.intensity),
            plan.gain_intensity_percent == gain_intensity_percent(session.intensity),
            plan.effective_minutes == effective_minutes(session.duration_minutes),
            plan.dose.is_of(*session),
            plan.restores_condition == (session_load(session.session_type).fatigue < 0),
            plan.tired == (condition_pct < 70),
            plan.age_percent == age_percent(age),
            plan.technical_percent == family_age_percent(SkillFamily::Technical, age),
            plan.mental_percent == family_age_percent(SkillFamily::Mental, age),
            plan.goalkeeping_percent == family_age_percent(SkillFamily::Goalkeeping, age),
            plan.maturity_percent == maturity_percent(age),
    {
        let t = session.session_type;
        let load = t.load();
        let mut extra: Vec<FocusShare> = Vec::new();
        if !t.is_recovery_family() {
            let mut i: usize = 0;
            assert(focus_areas@.take(0) =~= Seq::empty());
            while i < focus_areas.len()
                invariant
                    i <= focus_areas@.len(),
                    extra@ == all_focus_shares(focus_areas@.take(i as int)),
                decreases focus_areas@.len() - i,
            {
                let mut shares = focus_list(&focus_areas[i]);
                extra.append(&mut shares);
                assert(focus_areas@.take(i + 1).drop_last() =~= focus_areas@.take(i as int));
                i = i + 1;
            }
            assert(focus_areas@.take(i as int) =~= focus_areas@);
        }
        let minutes: u16 = if session.duration_minutes < 21 {
            21
        } else if session.duration_minutes > 90 {
            90
        } else {
            session.duration_minutes
        };
        SessionPlan {
            gains: t.gains(),
            gains_use_receptiveness: t.uses_receptiveness(),
            gains_use_age: t.is_physical(),
            extra,
            load,
            intensity_percent: session.intensity.percent(),
            gain_intensity_percent: session.intensity.gain_percent(),
            effective_minutes: minutes,
            dose: SessionDose::of(session, minutes),
            restores_condition: load.fatigue < 0,
            tired: condition_pct < 70,
            age_percent: PlayerTraining::calculate_age_training_factor(age),
            technical_percent: PlayerTraining::technical_age_training_factor(age),
            mental_percent: PlayerTraining::mental_age_training_factor(age),
            goalkeeping_percent: PlayerTraining::goalkeeping_age_training_factor(age),
            maturity_percent: PlayerTraining::calculate_physical_maturity_factor(age),
        }
    }

    /// The physical age factor, in percent.
    pub fn calculate_age_training_factor(age: u8) -> (r: u32)
        ensures
            r == age_percent(age),
    {
        if age <= 13 {
            40
        } else if age <= 15 {
            70
        } else if age <= 18 {
            150
        } else if age <= 21 {
            130
        } else if age <= 24 {
            110
        } else if age <= 27 {
            100
        } else if age <= 30 {
            80
        } else if age <= 33 {
            50
        } else if age <= 36 {
            30
        } else {
            10
        }
    }

    /// The veteran taper of technical gains, in percent.
    pub fn technical_age_training_factor(age: u8) -> (r: u32)
        ensures
            r == family_age_percent(SkillFamily::Technical, age),
    {
        if age <= 27 {
            100
        } else if age <= 30 {
            85
        } else if age <= 33 {
            60
        } else if age <= 36 {
            40
        } else {
            25
        }
    }

    /// The veteran taper of mental gains, in percent.
    pub fn mental_age_training_factor(age: u8) -> (r: u32)
        ensures
            r == family_age_percent(SkillFamily::Mental, age),
    {
        if age <= 29 {
            100
        } else if age <= 32 {
            90
        } else if age <= 35 {
            75
        } else {
            55
        }
    }

    /// The veteran taper of goalkeeping gains, in percent.
    pub fn goalkeeping_age_training_factor(age: u8) -> (r: u32)
        ensures
            r == family_age_percent(SkillFamily::Goalkeeping, age),
    {
        if age <= 31 {
            100
        } else if age <= 34 {
            85
        } else if age <= 37 {
            65
        } else {
            45
        }
    }

    /// How much physical work a growing body takes, in percent.
    pub fn calculate_physical_maturity_factor(age: u8) -> (r: u32)
        ensures
            r == maturity_percent(age),
    {
        if age <= 13 {
            20
        } else if age == 14 {
            30
        } else if age == 15 {
            45
        } else if age == 16 {
            70
        } else if age == 17 {
            88
        } else {
            100
        }
    }

    /// The weight of the gap between potential and present ability, in percent.
    pub fn potential_age_factor(age: u8) -> (r: u32)
        ensures
            r == potential_age_percent(age),
    {
        if age <= 13 {
            40
        } else if age <= 15 {
            70
        } else if age <= 18 {
            150
        } else if age <= 21 {
            130
        } else if age <= 24 {
            100
        } else if age <= 27 {
            60
        } else if age <= 30 {
            30
        } else {
            10
        }
    }

    /// What age adds to a player's receptiveness, in tenths.
    pub fn receptive_age_bonus(age: u8) -> (r: i32)
        ensures
            r == receptive_age_tenths(age),
    {
        if age < 16 {
            -1
        } else if age <= 20 {
            3
        } else if age <= 24 {
            2
        } else if age <= 28 {
            1
        } else if age <= 32 {
            0
        } else {
            -1
        }
    }
}

/// Why a session went well or badly.
#[derive(Clone, Copy, Debug, PartialEq, Eq, Structural)]
pub enum TrainingEventReason {
    RoutineGoodSession,
    ExtraWorkAfterSession,
    RespondedToCriticism,
    YoungImpressedStaff,
    SettingStandards,
    MatchPreparationFocus,
    RoutineBadSession,
    PoorAttitude,
    StruggledWithIntensity,
    DistractedByRumours,
    ReturningFromInjuryNotSharp,
}

/// A fact that supports the judgement of a session.
#[derive(Clone, Copy, Debug, PartialEq, Eq, Structural)]
pub enum TrainingEventEvidence {
    HighSessionPerformance,
    LowSessionPerformance,
    LowEffort,
    HighWorkRate,
    HighDetermination,
    LowCondition,
    HighWorkload,
    Overloaded,
    FatigueLimited,
    InRecoveryPhase,
    RecoveryLimited,
    LowMorale,
    RecentlyDropped,
    TransferSpeculation,
    TransferDistraction,
    HighProfessionalism,
    LowProfessionalism,
    YouthDevelopmentTier,
    VeteranLeader,
    CoachMismatch,
    TacticalMismatch,
    StrongBaselineButOffDay,
    YoungPlayerBreakthrough,
    VeteranSetStandard,
}

/// The scores of a session and the state of the player in it.
#[derive(Clone, Copy, Debug)]
pub struct OutcomeInputs {
    /// The session's overall score.
    pub raw: Measure,
    /// The score the player is held against.
    pub baseline: Measure,
    /// The difference of the two.
    pub delta: Measure,
    pub effort: Measure,
    pub physical_state: Measure,
    pub psychological: Measure,
    pub coach_fit: Measure,
    pub session_fit: Measure,
    pub professionalism: Measure,
    pub morale: Measure,
    pub work_rate: Measure,
    pub determination: Measure,
    pub leadership: Measure,
    pub fatigue_change: Measure,
    pub recovery_debt: Measure,
    /// Whether the recovery debt counts as heavy.
    pub recovery_debt_heavy: bool,
    pub workload_spike: bool,
    pub in_recovery: bool,
    pub condition_pct: u32,
    pub age: u8,
    pub session_type: TrainingType,
}

/// Whether the session met the player's standard.
pub open spec fn positive(inp: OutcomeInputs) -> bool {
    inp.raw.units() >= inp.baseline.units()
}

/// Whether the workload weighs on the body.
pub open spec fn body_strained(inp: OutcomeInputs) -> bool {
    inp.recovery_debt.ge(200) || inp.workload_spike || !inp.fatigue_change.le(120)
}

/// Whether the body cannot support a good session.
pub open spec fn body_compromised(inp: OutcomeInputs) -> bool {
    inp.condition_pct < 60 || body_strained(inp)
}

/// Whether the workload is more than the body can take.
pub open spec fn overloaded(inp: OutcomeInputs) -> bool {
    inp.recovery_debt_heavy || inp.workload_spike
}

/// Whether a strained body was short of condition.
pub open spec fn fatigued(inp: OutcomeInputs) -> bool {
    inp.condition_pct < 60 && body_strained(inp)
}

/// Whether a player of a high standard fell clearly short of it.
pub open spec fn off_day(inp: OutcomeInputs) -> bool {
    !positive(inp) && inp.baseline.ge_halves(27) && inp.delta.le(-2)
}

/// Whether a young player was clearly better than his standard.
pub open spec fn breakthrough(inp: OutcomeInputs) -> bool {
    positive(inp) && inp.age <= 21 && inp.raw.ge_halves(27) && inp.delta.ge(2)
}

/// Whether an experienced leader showed the others how it is done.
pub open spec fn sets_standard(inp: OutcomeInputs) -> bool {
    positive(inp) && inp.age >= 30 && inp.leadership.ge(14) && inp.raw.ge(13)
}

/// Whether the manager criticised, disciplined or dropped the player in the last two weeks.
pub open spec fn recently_criticised(happiness: PlayerHappiness) -> bool {
    let events = happiness@;
    ||| crate::happiness::recent(events, HappinessEventType::ManagerCriticism, 14)
    ||| crate::happiness::recent(events, HappinessEventType::ManagerDiscipline, 14)
    ||| crate::happiness::recent(events, HappinessEventType::MatchDropped, 14)
}

/// Whether the player was linked with a move in the last three weeks.
pub open spec fn recently_rumoured(happiness: PlayerHappiness) -> bool {
    let events = happiness@;
    ||| crate::happiness::recent(events, HappinessEventType::TransferRumour, 21)
    ||| crate::happiness::recent(events, HappinessEventType::AgentStirsInterest, 21)
    ||| crate::happiness::recent(events, HappinessEventType::TransferSpeculationDistracts, 21)
    ||| crate::happiness::recent(events, HappinessEventType::WantedByBiggerClub, 21)
    ||| crate::happiness::recent(events, HappinessEventType::InterestFromBiggerClub, 21)
}

/// The reason that explains the session.
pub open spec fn reason(
    inp: OutcomeInputs,
    criticised: bool,
    rumoured: bool,
) -> TrainingEventReason {
    if inp.in_recovery {
        TrainingEventReason::ReturningFromInjuryNotSharp
    } else if positive(inp) {
        if criticised && inp.raw.ge(13) {
            TrainingEventReason::RespondedToCriticism
        } else if inp.age <= 21 && inp.delta.ge(2) && inp.raw.ge_halves(27) {
            TrainingEventReason::YoungImpressedStaff
        } else if inp.age >= 30 && inp.leadership.ge(14) && inp.raw.ge_halves(27) {
            TrainingEventReason::SettingStandards
        } else if inp.professionalism.ge(15) && inp.raw.ge(14) {
            TrainingEventReason::ExtraWorkAfterSession
        } else if (inp.session_type is MatchPreparation || inp.session_type is OpponentSpecific)
            && inp.raw.ge(13) {
            TrainingEventReason::MatchPreparationFocus
        } else {
            TrainingEventReason::RoutineGoodSession
        }
    } else if body_compromised(inp) {
        TrainingEventReason::StruggledWithIntensity
    } else if rumoured && !inp.psychological.ge(12) {
        TrainingEventReason::DistractedByRumours
    } else if inp.professionalism.le(7) && inp.effort.le(7) && inp.physical_state.ge(10) {
        TrainingEventReason::PoorAttitude
    } else {
        TrainingEventReason::RoutineBadSession
    }
}

/// The evidence `e` if it holds, and nothing if it does not.
pub open spec fn when(holds: bool, e: TrainingEventEvidence) -> Seq<TrainingEventEvidence> {
    if holds {
        seq![e]
    } else {
        Seq::empty()
    }
}

/// What the scores and the workload say.
pub open spec fn performance_evidence(inp: OutcomeInputs) -> Seq<TrainingEventEvidence> {
    Seq::<TrainingEventEvidence>::empty()
        + when(inp.raw.ge(14), TrainingEventEvidence::HighSessionPerformance)
        + when(inp.raw.le(6), TrainingEventEvidence::LowSessionPerformance)
        + when(inp.effort.le(7), TrainingEventEvidence::LowEffort)
        + when(inp.work_rate.ge(14), TrainingEventEvidence::HighWorkRate)
        + when(inp.determination.ge(14), TrainingEventEvidence::HighDetermination)
        + when(inp.condition_pct < 60, TrainingEventEvidence::LowCondition)
        + when(!inp.fatigue_change.le(100), TrainingEventEvidence::HighWorkload)
        + when(overloaded(inp), TrainingEventEvidence::Overloaded)
        + when(fatigued(inp), TrainingEventEvidence::FatigueLimited)
}

/// What the player's state of body and mind says.
pub open spec fn condition_evidence(
    inp: OutcomeInputs,
    criticised: bool,
    rumoured: bool,
) -> Seq<TrainingEventEvidence> {
    Seq::<TrainingEventEvidence>::empty()
        + when(inp.in_recovery, TrainingEventEvidence::InRecoveryPhase)
        + when(inp.in_recovery, TrainingEventEvidence::RecoveryLimited)
        + when(!inp.morale.ge(35), TrainingEventEvidence::LowMorale)
        + when(criticised, TrainingEventEvidence::RecentlyDropped)
        + when(rumoured, TrainingEventEvidence::TransferSpeculation)
        + when(rumoured, TrainingEventEvidence::TransferDistraction)
}

/// What the player's age, character and standing say.
pub open spec fn character_evidence(inp: OutcomeInputs) -> Seq<TrainingEventEvidence> {
    Seq::<TrainingEventEvidence>::empty()
        + when(inp.professionalism.ge(15), TrainingEventEvidence::HighProfessionalism)
        + when(inp.professionalism.le(7), TrainingEventEvidence::LowProfessionalism)
        + when(inp.age <= 21, TrainingEventEvidence::YouthDevelopmentTier)
        + when(inp.age >= 30 && inp.leadership.ge(14), TrainingEventEvidence::VeteranLeader)
        + when(inp.coach_fit.le(6), TrainingEventEvidence::CoachMismatch)
        + when(inp.session_fit.le(6), TrainingEventEvidence::TacticalMismatch)
        + when(off_day(inp), TrainingEventEvidence::StrongBaselineButOffDay)
        + when(breakthrough(inp), TrainingEventEvidence::YoungPlayerBreakthrough)
        + when(sets_standard(inp), TrainingEventEvidence::VeteranSetStandard)
}

/// The evidence that a session leaves, in a fixed order.
pub open spec fn evidence(
    inp: OutcomeInputs,
    criticised: bool,
    rumoured: bool,
) -> Seq<TrainingEventEvidence> {
    performance_evidence(inp) + condition_evidence(inp, criticised, rumoured)
        + character_evidence(inp)
}

fn push_when(list: &mut Vec<TrainingEventEvidence>, holds: bool, e: TrainingEventEvidence)
    ensures
        final(list)@ == old(list)@ + when(holds, e),
{
    if holds {
        list.push(e);
    }
    assert(list@ =~= old(list)@ + when(holds, e));
}

/// How a session moves a player's mood.
#[derive(Clone, Copy, Debug, PartialEq, Eq, Structural)]
pub enum MoraleReaction {
    /// A good day: the lift grows with the score.
    Lift,
    /// A bad day: the drop grows as the score falls.
    Drop {
        /// The body was to blame, which halves the drop.
        fatigue: bool,
        /// A professional shrugs off a quarter of it.
        professional: bool,
        /// A volatile character takes it a fifth harder.
        volatile: bool,
    },
    /// An ordinary day.
    Neutral,
}

/// How a session of score `raw`, `delta` above the baseline, moves the mood.
pub open spec fn morale_reaction(
    raw: Measure,
    delta: Measure,
    reason: TrainingEventReason,
    professionalism: Measure,
    controversy: Measure,
    temperament: Measure,
) -> MoraleReaction {
    if raw.ge(14) || delta.ge_halves(3) {
        MoraleReaction::Lift
    } else if raw.le_halves(13) || delta.le_halves(-3) {
        MoraleReaction::Drop {
            fatigue: reason is StruggledWithIntensity || reason is ReturningFromInjuryNotSharp,
            professional: professionalism.ge(15),
            volatile: controversy.ge(15) || temperament.le(6),
        }
    } else {
        MoraleReaction::Neutral
    }
}

/// How much of a session's gains an overloaded body keeps, in percent.
pub open spec fn overload_percent(
    restores_condition_or_rests: bool,
    condition_pct: u32,
    recovery_debt_heavy: bool,
    workload_spike: bool,
) -> int {
    if restores_condition_or_rests {
        100
    } else {
        let left = 100 - (if condition_pct < 60 { 15int } else { 0 }) - (if condition_pct < 40 {
            10int
        } else {
            0
        }) - (if recovery_debt_heavy { 10int } else { 0 }) - (if workload_spike { 10int } else { 0 });
        if left < 70 {
            70
        } else {
            left
        }
    }
}

impl PlayerTraining {
    /// Explains a session: the main reason and the evidence for it.
    pub fn compute_outcome(inp: &OutcomeInputs, happiness: &PlayerHappiness) -> (r: (
        TrainingEventReason,
        Vec<TrainingEventEvidence>,
    ))
        ensures
            r.0 == reason(*inp, recently_criticised(*happiness), recently_rumoured(*happiness)),
            r.1@ == evidence(*inp, recently_criticised(*happiness), recently_rumoured(*happiness)),
    {
        let criticised = happiness.has_recent_event(HappinessEventType::ManagerCriticism, 14)
            || happiness.has_recent_event(HappinessEventType::ManagerDiscipline, 14)
            || happiness.has_recent_event(HappinessEventType::MatchDropped, 14);
        let rumoured = happiness.has_recent_event(HappinessEventType::TransferRumour, 21)
            || happiness.has_recent_event(HappinessEventType::AgentStirsInterest, 21)
            || happiness.has_recent_event(HappinessEventType::TransferSpeculationDistracts, 21)
            || happiness.has_recent_event(HappinessEventType::WantedByBiggerClub, 21)
            || happiness.has_recent_event(HappinessEventType::InterestFromBiggerClub, 21);
        let reason = PlayerTraining::pick_reason(inp, criticised, rumoured);
        let mut list = PlayerTraining::performance_evidence(inp);
        let mut more = PlayerTraining::condition_evidence(inp, criticised, rumoured);
        list.append(&mut more);
        let mut last = PlayerTraining::character_evidence(inp);
        list.append(&mut last);
        (reason, list)
    }

    fn performance_evidence(inp: &OutcomeInputs) -> (r: Vec<TrainingEventEvidence>)
        ensures
            r@ == performance_evidence(*inp),
    {
        let strained = inp.recovery_debt.is_at_least(200) || inp.workload_spike
            || !inp.fatigue_change.is_at_most(120);
        let mut list: Vec<TrainingEventEvidence> = Vec::new();
        push_when(
            &mut list,
            inp.raw.is_at_least(14),
            TrainingEventEvidence::HighSessionPerformance,
        );
        push_when(&mut list, inp.raw.is_at_most(6), TrainingEventEvidence::LowSessionPerformance);
        push_when(&mut list, inp.effort.is_at_most(7), TrainingEventEvidence::LowEffort);
        push_when(&mut list, inp.work_rate.is_at_least(14), TrainingEventEvidence::HighWorkRate);
        push_when(
            &mut list,
            inp.determination.is_at_least(14),
            TrainingEventEvidence::HighDetermination,
        );
        push_when(&mut list, inp.condition_pct < 60, TrainingEventEvidence::LowCondition);
        push_when(
            &mut list,
            !inp.fatigue_change.is_at_most(100),
            TrainingEventEvidence::HighWorkload,
        );
        push_when(
            &mut list,
            inp.recovery_debt_heavy || inp.workload_spike,
            TrainingEventEvidence::Overloaded,
        );
        push_when(
            &mut list,
            inp.condition_pct < 60 && strained,
            TrainingEventEvidence::FatigueLimited,
        );
        list
    }

    fn condition_evidence(inp: &OutcomeInputs, criticised: bool, rumoured: bool) -> (r: Vec<
        TrainingEventEvidence,
    >)
        ensures
            r@ == condition_evidence(*inp, criticised, rumoured),
    {
        let mut list: Vec<TrainingEventEvidence> = Vec::new();
        push_when(&mut list, inp.in_recovery, TrainingEventEvidence::InRecoveryPhase);
        push_when(&mut list, inp.in_recovery, TrainingEventEvidence::RecoveryLimited);
        push_when(&mut list, !inp.morale.is_at_least(35), TrainingEventEvidence::LowMorale);
        push_when(&mut list, criticised, TrainingEventEvidence::RecentlyDropped);
        push_when(&mut list, rumoured, TrainingEventEvidence::TransferSpeculation);
        push_when(&mut list, rumoured, TrainingEventEvidence::TransferDistraction);
        list
    }

    fn character_evidence(inp: &OutcomeInputs) -> (r: Vec<TrainingEventEvidence>)
        ensures
            r@ == character_evidence(*inp),
    {
        let positive = inp.raw.at_least(&inp.baseline);
        let leader = inp.leadership.is_at_least(14);
        let mut list: Vec<TrainingEventEvidence> = Vec::new();
        push_when(
            &mut list,
            inp.professionalism.is_at_least(15),
            TrainingEventEvidence::HighProfessionalism,
        );
        push_when(
            &mut list,
            inp.professionalism.is_at_most(7),
            TrainingEventEvidence::LowProfessionalism,
        );
        push_when(&mut list, inp.age <= 21, TrainingEventEvidence::YouthDevelopmentTier);
        push_when(&mut list, inp.age >= 30 && leader, TrainingEventEvidence::VeteranLeader);
        push_when(&mut list, inp.coach_fit.is_at_most(6), TrainingEventEvidence::CoachMismatch);
        push_when(
            &mut list,
            inp.session_fit.is_at_most(6),
            TrainingEventEvidence::TacticalMismatch,
        );
        push_when(
            &mut list,
            !positive && inp.baseline.is_at_least_halves(27) && inp.delta.is_at_most(-2),
            TrainingEventEvidence::StrongBaselineButOffDay,
        );
        push_when(
            &mut list,
            positive && inp.age <= 21 && inp.raw.is_at_least_halves(27) && inp.delta.is_at_least(2),
            TrainingEventEvidence::YoungPlayerBreakthrough,
        );
        push_when(
            &mut list,
            positive && inp.age >= 30 && leader && inp.raw.is_at_least(13),
            TrainingEventEvidence::VeteranSetStandard,
        );
        list
    }

    /// The reason that explains a session.
    pub fn pick_reason(inp: &OutcomeInputs, criticised: bool, rumoured: bool) -> (r:
        TrainingEventReason)
        ensures
            r == reason(*inp, criticised, rumoured),
    {
        if inp.in_recovery {
            return TrainingEventReason::ReturningFromInjuryNotSharp;
        }
        if inp.raw.at_least(&inp.baseline) {
            if criticised && inp.raw.is_at_least(13) {
                return TrainingEventReason::RespondedToCriticism;
            }
            if inp.age <= 21 && inp.delta.is_at_least(2) && inp.raw.is_at_least_halves(27) {
                return TrainingEventReason::YoungImpressedStaff;
            }
            if inp.age >= 30 && inp.leadership.is_at_least(14) && inp.raw.is_at_least_halves(27) {
                return TrainingEventReason::SettingStandards;
            }
            if inp.professionalism.is_at_least(15) && inp.raw.is_at_least(14) {
                return TrainingEventReason::ExtraWorkAfterSession;
            }
            let rehearsal = matches!(
                inp.session_type,
                TrainingType::MatchPreparation | TrainingType::OpponentSpecific
            );
            if rehearsal && inp.raw.is_at_least(13) {
                return TrainingEventReason::MatchPreparationFocus;
            }
            TrainingEventReason::RoutineGoodSession
        } else {
            let compromised = inp.condition_pct < 60 || inp.recovery_debt.is_at_least(200)
                || inp.workload_spike || !inp.fatigue_change.is_at_most(120);
            if compromised {
                return TrainingEventReason::StruggledWithIntensity;
            }
            if rumoured && !inp.psychological.is_at_least(12) {
                return TrainingEventReason::DistractedByRumours;
            }
            if inp.professionalism.is_at_most(7) && inp.effort.is_at_most(7)
                && inp.physical_state.is_at_least(10) {
                return TrainingEventReason::PoorAttitude;
            }
            TrainingEventReason::RoutineBadSession
        }
    }

    /// How a session moves the player's mood.
    pub fn morale_change_from_outcome(
        raw: Measure,
        delta: Measure,
        reason: TrainingEventReason,
        professionalism: Measure,
        controversy: Measure,
        temperament: Measure,
    ) -> (r: MoraleReaction)
        ensures
            r == morale_reaction(raw, delta, reason, professionalism, controversy, temperament),
    {
        if raw.is_at_least(14) || delta.is_at_least_halves(3) {
            MoraleReaction::Lift
        } else if raw.is_at_most_halves(13) || delta.is_at_most_halves(-3) {
            let fatigue = matches!(
                reason,
                TrainingEventReason::StruggledWithIntensity
                    | TrainingEventReason::ReturningFromInjuryNotSharp
            );
            MoraleReaction::Drop {
                fatigue,
                professional: professionalism.is_at_least(15),
                volatile: controversy.is_at_least(15) || temperament.is_at_most(6),
            }
        } else {
            MoraleReaction::Neutral
        }
    }

    /// How much of a session's gains an overloaded body keeps, in percent. Sessions that cost
    /// no condition keep everything.
    pub fn overload_penalty(
        fatigue_change: Measure,
        condition_pct: u32,
        recovery_debt_heavy: bool,
        workload_spike: bool,
    ) -> (r: u32)
        ensures
            r == overload_percent(
                fatigue_change.le(0),
                condition_pct,
                recovery_debt_heavy,
                workload_spike,
            ),
    {
        if fatigue_change.is_at_most(0) {
            return 100;
        }
        let mut left: u32 = 100;
        if condition_pct < 60 {
            left = left - 15;
        }
        if condition_pct < 40 {
            left = left - 10;
        }
        if recovery_debt_heavy {
            left = left - 10;
        }
        if workload_spike {
            left = left - 10;
        }
        if left < 70 {
            70
        } else {
            left
        }
    }

    /// The score the player is held against: in the first five sessions the given early
    /// score, after that the rolling average, kept between 1 and 20.
    pub fn baseline_score(&self, early: Measure) -> (r: Measure)
        ensures
            self.sessions_completed < 5 ==> r == early,
            r.units() == held_against(self.sessions_completed, self.training_performance, early),
    {
        if self.sessions_completed < 5 {
            early
        } else if self.training_performance.is_at_most(1) {
            Measure::whole(1)
        } else if self.training_performance.is_at_least(20) {
            Measure::whole(20)
        } else {
            self.training_performance
        }
    }
}

/// The score that a player is held against: an early one in his first five sessions, then his
/// average, kept between 1 and 20.
pub open spec fn held_against(sessions: u16, average: Measure, early: Measure) -> int {
    if sessions < 5 {
        early.units()
    } else if average.le(1) {
        crate::measure::one()
    } else if average.ge(20) {
        20 * crate::measure::one()
    } else {
        average.units()
    }
}

/// The words that make up the noise of one session.
#[derive(Clone, Copy, Debug, PartialEq, Eq, Structural)]
pub struct NoiseWords {
    /// First half of the ordinary noise.
    pub first: u32,
    /// Second half of the ordinary noise.
    pub second: u32,
    /// Decides whether the day is out of the ordinary.
    pub rarity: u32,
    /// How far out of the ordinary it is.
    pub strength: u32,
}

/// The hash behind the noise of one session.
pub open spec fn noise_hash(player_id: u32, date: Date, session: TrainingSession) -> int {
    let h = crate::noise::mixed(0, player_id as int, 0x9E37_79B9_7F4A_7C15);
    let h = crate::noise::mixed(h, crate::noise::word(date.days as int), 0xC6BC_279E_9286_5A2B);
    let h = crate::noise::mixed(
        h,
        session_type_token(session.session_type) as int,
        0x1657_8F35_4D38_C5A7,
    );
    crate::noise::mixed(h, intensity_token(session.intensity) as int, 0x94D0_49BB_1331_11EB)
}

/// What a coach brings to a session.
#[derive(Clone, Copy, Debug, PartialEq, Eq, Structural)]
pub struct CoachingAttributes {
    pub attacking: u8,
    pub defending: u8,
    pub tactical: u8,
    pub technical: u8,
    pub fitness: u8,
    pub mental: u8,
    pub gk_shot_stopping: u8,
    pub gk_handling: u8,
    pub gk_distribution: u8,
}

/// The attributes that count for a session, as points out of a maximum.
pub open spec fn coach_points(c: CoachingAttributes, t: TrainingType) -> (int, int) {
    match t {
        TrainingType::Endurance | TrainingType::Strength | TrainingType::Speed => (
            c.fitness as int,
            20,
        ),
        TrainingType::BallControl | TrainingType::Passing | TrainingType::Shooting => (
            c.technical as int,
            20,
        ),
        TrainingType::Positioning | TrainingType::TeamShape => (c.tactical as int, 20),
        TrainingType::Concentration | TrainingType::DecisionMaking => (c.mental as int, 20),
        TrainingType::GoalkeeperTraining => (
            c.gk_shot_stopping + c.gk_handling + c.gk_distribution,
            60,
        ),
        _ => (c.attacking + c.defending + c.tactical + c.technical, 80),
    }
}

/// What the bond between coach and player adds to receptiveness, in tenths.
pub open spec fn bond_tenths(is_favorite: bool, level: Option<Measure>) -> int {
    if is_favorite {
        2
    } else if level is Some && !level->0.ge(-50) {
        -2
    } else {
        0
    }
}

/// The gap to a player's potential, out of that potential, where there is one.
pub open spec fn room_to_grow(potential: u8, current: u8) -> Option<(u8, u8)> {
    if potential > current {
        Some(((potential - current) as u8, potential))
    } else {
        None
    }
}

impl PlayerTraining {
    /// The words that make up the noise of one session.
    pub fn deterministic_noise(player_id: u32, date: Date, session: &TrainingSession) -> (r:
        NoiseWords)
        ensures
            ({
                let h = noise_hash(player_id, date, *session);
                &&& r.first == crate::noise::slice(h, 0x800)
                &&& r.second == crate::noise::slice(
                    crate::noise::mixed(0, h, 0xD1B5_4A32_D192_ED03),
                    0x2_0000,
                )
                &&& r.rarity == crate::noise::slice(
                    crate::noise::mixed(0, h, 0xACE2_4D8B_5E2F_91A3),
                    0x2000,
                )
                &&& r.strength == crate::noise::slice(
                    crate::noise::mixed(0, h, 0x65A1_8C0B_3F4D_22B7),
                    0x8_0000,
                )
            }),
    {
        let h: u64 = crate::noise::mix(0, player_id as u64, 0x9E37_79B9_7F4A_7C15);
        let h: u64 = crate::noise::mix(h, crate::noise::to_word(date.days), 0xC6BC_279E_9286_5A2B);
        let h: u64 = crate::noise::mix(
            h,
            session.session_type.token() as u64,
            0x1657_8F35_4D38_C5A7,
        );
        let h: u64 = crate::noise::mix(h, session.intensity.token() as u64, 0x94D0_49BB_1331_11EB);
        NoiseWords {
            first: crate::noise::slice_of(h, 0x800),
            second: crate::noise::slice_of(
                crate::noise::mix(0, h, 0xD1B5_4A32_D192_ED03),
                0x2_0000,
            ),
            rarity: crate::noise::slice_of(crate::noise::mix(0, h, 0xACE2_4D8B_5E2F_91A3), 0x2000),
            strength: crate::noise::slice_of(
                crate::noise::mix(0, h, 0x65A1_8C0B_3F4D_22B7),
                0x8_0000,
            ),
        }
    }

    /// The coach's attributes that count for a session, as points out of a maximum.
    pub fn calculate_coach_effectiveness(c: &CoachingAttributes, t: TrainingType) -> (r: (u32, u32))
        ensures
            (r.0 as int, r.1 as int) == coach_points(*c, t),
    {
        match t {
            TrainingType::Endurance | TrainingType::Strength | TrainingType::Speed => (
                c.fitness as u32,
                20,
            ),
            TrainingType::BallControl | TrainingType::Passing | TrainingType::Shooting => (
                c.technical as u32,
                20,
            ),
            TrainingType::Positioning | TrainingType::TeamShape => (c.tactical as u32, 20),
            TrainingType::Concentration | TrainingType::DecisionMaking => (c.mental as u32, 20),
            TrainingType::GoalkeeperTraining => (
                c.gk_shot_stopping as u32 + c.gk_handling as u32 + c.gk_distribution as u32,
                60,
            ),
            _ => (
                c.attacking as u32 + c.defending as u32 + c.tactical as u32 + c.technical as u32,
                80,
            ),
        }
    }

    /// What the bond between coach and player adds to receptiveness, in tenths. `level` is the
    /// coach's relation to the player, if there is one.
    pub fn relationship_bonus(is_favorite: bool, level: Option<Measure>) -> (r: i32)
        ensures
            r == bond_tenths(is_favorite, level),
    {
        if is_favorite {
            return 2;
        }
        match level {
            Some(l) => if l.is_at_least(-50) {
                0
            } else {
                -2
            },
            None => 0,
        }
    }

    /// The room a player has to grow: the gap to his potential, out of that potential. `None`
    /// where there is none.
    pub fn calculate_potential_development_factor(potential: u8, current: u8) -> (r: Option<
        (u8, u8),
    >)
        ensures
            r == room_to_grow(potential, current),
    {
        if potential > current {
            Some((potential - current, potential))
        } else {
            None
        }
    }
}

impl Default for PlayerTraining {
    fn default() -> (r: Self)
        ensures
            r.training_performance.units() == 10 * crate::measure::one(),
            r.sessions_completed == 0,
    {
        PlayerTraining::new()
    }
}

/// Hard physical work costs condition, and recovery days restore it.
pub proof fn lemma_cost_of_sessions(t: TrainingType)
    ensures
        is_physical_session(t) || t is PressingDrills
            || t is TransitionPlay ==> session_load(t).fatigue
            >= 80 && session_load(t).injury_risk > 0,
        is_recovery_family(t) ==> session_load(t).fatigue < 0 && session_load(t).injury_risk <= 0
            && session_load(t).load_units <= 4 && session_load(t).readiness_tenths <= 3,
        t is PressingDrills || t is TransitionPlay || t is MatchPreparation
            ==> session_load(t).readiness_tenths >= 10,
        t is Recovery || t is RestDay
            || t is VideoAnalysis ==> session_load(t).readiness_tenths <= 1,
{
}

/// The length of a session: its costs are linear in its minutes, and its benefits grow by their
/// square root. Ninety minutes in place of an hour cost one and a half times as much, and what
/// they bring, squared, is one and a half times as much. Nothing grows above ninety minutes, and
/// nothing shrinks below twenty-one.
pub proof fn lemma_session_length(s: TrainingSession, t: TrainingSession, amount: int)
    requires
        s.session_type == t.session_type,
        s.intensity == t.intensity,
    ensures
        21 <= s.duration_minutes <= 90 && 21 <= t.duration_minutes <= 90 ==> {
            &&& dosed_cost(amount, s) * t.duration_minutes == dosed_cost(amount, t)
                * s.duration_minutes
            &&& dosed_benefit_squared(amount, s) * t.duration_minutes == dosed_benefit_squared(
                amount,
                t,
            ) * s.duration_minutes
        },
        s.duration_minutes == 60 && t.duration_minutes >= 90 ==> {
            &&& 2 * dosed_cost(amount, t) == 3 * dosed_cost(amount, s)
            &&& 2 * dosed_benefit_squared(amount, t) == 3 * dosed_benefit_squared(amount, s)
        },
        (s.duration_minutes >= 90 && t.duration_minutes >= 90) || (s.duration_minutes <= 21
            && t.duration_minutes <= 21) ==> {
            &&& dosed_cost(amount, s) == dosed_cost(amount, t)
            &&& dosed_benefit_squared(amount, s) == dosed_benefit_squared(amount, t)
        },
{
    let c = amount * cost_percent(s.session_type, s.intensity);
    let b = amount * amount;
    let m = effective_minutes(s.duration_minutes) as int;
    let n = effective_minutes(t.duration_minutes) as int;
    assert((c * m) * n == (c * n) * m) by (nonlinear_arith);
    assert((b * m) * n == (b * n) * m) by (nonlinear_arith);
    if m == 60 && n == 90 {
        assert(2 * (c * 90) == 3 * (c * 60)) by (nonlinear_arith);
        assert(2 * (b * 90) == 3 * (b * 60)) by (nonlinear_arith);
    }
}

/// Sharpness work beats every other session in readiness gained.
pub proof fn lemma_match_preparation_is_sharpest(t: TrainingType)
    ensures
        session_load(t).readiness_tenths <= session_load(
            TrainingType::MatchPreparation,
        ).readiness_tenths,
{
}

/// Only work on the pitch can hurt: a session that does not grow with its intensity has no
/// injury risk.
pub proof fn lemma_fixed_sessions_are_safe(t: TrainingType)
    ensures
        !session_load(t).scales_with_intensity ==> session_load(t).injury_risk <= 0,
        session_load(t).scales_with_intensity ==> session_load(t).injury_risk > 0,
{
}

/// No session teaches one skill twice, and every gain is positive.
pub proof fn lemma_gains_distinct(t: TrainingType, i: int, j: int)
    requires
        0 <= i < j < session_gains(t).len(),
    ensures
        session_gains(t)[i].0 != session_gains(t)[j].0,
        session_gains(t)[i].1 > 0,
        session_gains(t)[j].1 > 0,
{
}

/// Learning saturates where the body's price does not: harder than moderate costs more than it
/// teaches, and lighter than moderate costs less.
pub proof fn lemma_learning_saturates(i: TrainingIntensity)
    ensures
        intensity_percent(i) > 100 ==> gain_intensity_percent(i) < intensity_percent(i),
        intensity_percent(i) < 100 ==> gain_intensity_percent(i) > intensity_percent(i),
{
}

/// Veterans keep learning to read the game longest, and goalkeepers outlast outfield technique;
/// no family gains pace with age.
pub proof fn lemma_tapers(a: u8, b: u8)
    requires
        a <= b,
    ensures
        family_age_percent(SkillFamily::Technical, b) <= family_age_percent(
            SkillFamily::Technical,
            a,
        ),
        family_age_percent(SkillFamily::Mental, b) <= family_age_percent(SkillFamily::Mental, a),
        family_age_percent(SkillFamily::Goalkeeping, b) <= family_age_percent(
            SkillFamily::Goalkeeping,
            a,
        ),
        family_age_percent(SkillFamily::Technical, a) <= family_age_percent(SkillFamily::Mental, a),
        family_age_percent(SkillFamily::Technical, a) <= family_age_percent(
            SkillFamily::Goalkeeping,
            a,
        ),
{
}

/// A growing body takes more physical work every year, and a grown one takes it in full.
pub proof fn lemma_maturity(a: u8, b: u8)
    requires
        a <= b,
    ensures
        maturity_percent(a) <= maturity_percent(b) <= 100,
        maturity_percent(a) == 100 <==> a >= 18,
{
}

/// No kind of session and no intensity shares its number with another.
pub proof fn lemma_tokens_distinct(
    t: TrainingType,
    u: TrainingType,
    i: TrainingIntensity,
    j: TrainingIntensity,
)
    ensures
        session_type_token(t) == session_type_token(u) ==> t == u,
        intensity_token(i) == intensity_token(j) ==> i == j,
{
}

/// Fatigue beats attitude: a player whose body is compromised, or who is coming back from
/// injury, is never called lazy.
pub proof fn lemma_fatigue_beats_attitude(inp: OutcomeInputs, criticised: bool, rumoured: bool)
    requires
        body_compromised(inp) || inp.in_recovery,
    ensures
        !(reason(inp, criticised, rumoured) is PoorAttitude),
        !(reason(inp, criticised, rumoured) is DistractedByRumours),
{
}

/// The place of a piece of evidence in the fixed order.
pub open spec fn evidence_rank(e: TrainingEventEvidence) -> int {
    match e {
        TrainingEventEvidence::HighSessionPerformance => 0,
        TrainingEventEvidence::LowSessionPerformance => 1,
        TrainingEventEvidence::LowEffort => 2,
        TrainingEventEvidence::HighWorkRate => 3,
        TrainingEventEvidence::HighDetermination => 4,
        TrainingEventEvidence::LowCondition => 5,
        TrainingEventEvidence::HighWorkload => 6,
        TrainingEventEvidence::Overloaded => 7,
        TrainingEventEvidence::FatigueLimited => 8,
        TrainingEventEvidence::InRecoveryPhase => 9,
        TrainingEventEvidence::RecoveryLimited => 10,
        TrainingEventEvidence::LowMorale => 11,
        TrainingEventEvidence::RecentlyDropped => 12,
        TrainingEventEvidence::TransferSpeculation => 13,
        TrainingEventEvidence::TransferDistraction => 14,
        TrainingEventEvidence::HighProfessionalism => 15,
        TrainingEventEvidence::LowProfessionalism => 16,
        TrainingEventEvidence::YouthDevelopmentTier => 17,
        TrainingEventEvidence::VeteranLeader => 18,
        TrainingEventEvidence::CoachMismatch => 19,
        TrainingEventEvidence::TacticalMismatch => 20,
        TrainingEventEvidence::StrongBaselineButOffDay => 21,
        TrainingEventEvidence::YoungPlayerBreakthrough => 22,
        TrainingEventEvidence::VeteranSetStandard => 23,
    }
}

/// Whether the ranks in `s` increase and lie between `low` and `high`.
pub open spec fn ranked(s: Seq<TrainingEventEvidence>, low: int, high: int) -> bool {
    &&& forall|i: int| 0 <= i < s.len() ==> low <= #[trigger] evidence_rank(s[i]) < high
    &&& forall|i: int, j: int|
        0 <= i < j < s.len() ==> #[trigger] evidence_rank(s[i]) < #[trigger] evidence_rank(s[j])
}

proof fn lemma_ranked_when(
    s: Seq<TrainingEventEvidence>,
    low: int,
    high: int,
    holds: bool,
    e: TrainingEventEvidence,
)
    requires
        ranked(s, low, high),
        evidence_rank(e) == high,
        low <= high,
    ensures
        ranked(s + when(holds, e), low, high + 1),
{
}

proof fn lemma_ranked_concat(
    s: Seq<TrainingEventEvidence>,
    t: Seq<TrainingEventEvidence>,
    low: int,
    middle: int,
    high: int,
)
    requires
        ranked(s, low, middle),
        ranked(t, middle, high),
        low <= middle <= high,
    ensures
        ranked(s + t, low, high),
{
}

#[verifier::spinoff_prover]
proof fn lemma_ranked_performance(inp: OutcomeInputs)
    ensures
        ranked(performance_evidence(inp), 0, 9),
{
    let s = Seq::<TrainingEventEvidence>::empty();
    lemma_ranked_when(s, 0, 0, inp.raw.ge(14), TrainingEventEvidence::HighSessionPerformance);
    let s = s + when(inp.raw.ge(14), TrainingEventEvidence::HighSessionPerformance);
    lemma_ranked_when(s, 0, 1, inp.raw.le(6), TrainingEventEvidence::LowSessionPerformance);
    let s = s + when(inp.raw.le(6), TrainingEventEvidence::LowSessionPerformance);
    lemma_ranked_when(s, 0, 2, inp.effort.le(7), TrainingEventEvidence::LowEffort);
    let s = s + when(inp.effort.le(7), TrainingEventEvidence::LowEffort);
    lemma_ranked_when(s, 0, 3, inp.work_rate.ge(14), TrainingEventEvidence::HighWorkRate);
    let s = s + when(inp.work_rate.ge(14), TrainingEventEvidence::HighWorkRate);
    lemma_ranked_when(s, 0, 4, inp.determination.ge(14), TrainingEventEvidence::HighDetermination);
    let s = s + when(inp.determination.ge(14), TrainingEventEvidence::HighDetermination);
    lemma_ranked_when(s, 0, 5, inp.condition_pct < 60, TrainingEventEvidence::LowCondition);
    let s = s + when(inp.condition_pct < 60, TrainingEventEvidence::LowCondition);
    lemma_ranked_when(s, 0, 6, !inp.fatigue_change.le(100), TrainingEventEvidence::HighWorkload);
    let s = s + when(!inp.fatigue_change.le(100), TrainingEventEvidence::HighWorkload);
    lemma_ranked_when(s, 0, 7, overloaded(inp), TrainingEventEvidence::Overloaded);
    let s = s + when(overloaded(inp), TrainingEventEvidence::Overloaded);
    lemma_ranked_when(s, 0, 8, fatigued(inp), TrainingEventEvidence::FatigueLimited);
    let s = s + when(fatigued(inp), TrainingEventEvidence::FatigueLimited);
}

#[verifier::spinoff_prover]
proof fn lemma_ranked_condition(inp: OutcomeInputs, criticised: bool, rumoured: bool)
    ensures
        ranked(condition_evidence(inp, criticised, rumoured), 9, 15),
{
    let s = Seq::<TrainingEventEvidence>::empty();
    lemma_ranked_when(s, 9, 9, inp.in_recovery, TrainingEventEvidence::InRecoveryPhase);
    let s = s + when(inp.in_recovery, TrainingEventEvidence::InRecoveryPhase);
    lemma_ranked_when(s, 9, 10, inp.in_recovery, TrainingEventEvidence::RecoveryLimited);
    let s = s + when(inp.in_recovery, TrainingEventEvidence::RecoveryLimited);
    lemma_ranked_when(s, 9, 11, !inp.morale.ge(35), TrainingEventEvidence::LowMorale);
    let s = s + when(!inp.morale.ge(35), TrainingEventEvidence::LowMorale);
    lemma_ranked_when(s, 9, 12, criticised, TrainingEventEvidence::RecentlyDropped);
    let s = s + when(criticised, TrainingEventEvidence::RecentlyDropped);
    lemma_ranked_when(s, 9, 13, rumoured, TrainingEventEvidence::TransferSpeculation);
    let s = s + when(rumoured, TrainingEventEvidence::TransferSpeculation);
    lemma_ranked_when(s, 9, 14, rumoured, TrainingEventEvidence::TransferDistraction);
    let s = s + when(rumoured, TrainingEventEvidence::TransferDistraction);
}

#[verifier::spinoff_prover]
proof fn lemma_ranked_character(inp: OutcomeInputs)
    ensures
        ranked(character_evidence(inp), 15, 24),
{
    let s = Seq::<TrainingEventEvidence>::empty();
    lemma_ranked_when(
        s,
        15,
        15,
        inp.professionalism.ge(15),
        TrainingEventEvidence::HighProfessionalism,
    );
    let s = s + when(inp.professionalism.ge(15), TrainingEventEvidence::HighProfessionalism);
    lemma_ranked_when(
        s,
        15,
        16,
        inp.professionalism.le(7),
        TrainingEventEvidence::LowProfessionalism,
    );
    let s = s + when(inp.professionalism.le(7), TrainingEventEvidence::LowProfessionalism);
    lemma_ranked_when(s, 15, 17, inp.age <= 21, TrainingEventEvidence::YouthDevelopmentTier);
    let s = s + when(inp.age <= 21, TrainingEventEvidence::YouthDevelopmentTier);
    lemma_ranked_when(
        s,
        15,
        18,
        inp.age >= 30 && inp.leadership.ge(14),
        TrainingEventEvidence::VeteranLeader,
    );
    let s = s + when(inp.age >= 30 && inp.leadership.ge(14), TrainingEventEvidence::VeteranLeader);
    lemma_ranked_when(s, 15, 19, inp.coach_fit.le(6), TrainingEventEvidence::CoachMismatch);
    let s = s + when(inp.coach_fit.le(6), TrainingEventEvidence::CoachMismatch);
    lemma_ranked_when(s, 15, 20, inp.session_fit.le(6), TrainingEventEvidence::TacticalMismatch);
    let s = s + when(inp.session_fit.le(6), TrainingEventEvidence::TacticalMismatch);
    lemma_ranked_when(s, 15, 21, off_day(inp), TrainingEventEvidence::StrongBaselineButOffDay);
    let s = s + when(off_day(inp), TrainingEventEvidence::StrongBaselineButOffDay);
    lemma_ranked_when(s, 15, 22, breakthrough(inp), TrainingEventEvidence::YoungPlayerBreakthrough);
    let s = s + when(breakthrough(inp), TrainingEventEvidence::YoungPlayerBreakthrough);
    lemma_ranked_when(s, 15, 23, sets_standard(inp), TrainingEventEvidence::VeteranSetStandard);
    let s = s + when(sets_standard(inp), TrainingEventEvidence::VeteranSetStandard);
}

/// The evidence of a session names every fact at most once, in a fixed order.
pub proof fn lemma_evidence_distinct(inp: OutcomeInputs, criticised: bool, rumoured: bool)
    ensures
        ranked(evidence(inp, criticised, rumoured), 0, 24),
        evidence(inp, criticised, rumoured).no_duplicates(),
{
    lemma_ranked_performance(inp);
    lemma_ranked_condition(inp, criticised, rumoured);
    lemma_ranked_character(inp);
    let a = performance_evidence(inp);
    let b = condition_evidence(inp, criticised, rumoured);
    lemma_ranked_concat(a, b, 0, 9, 15);
    lemma_ranked_concat(a + b, character_evidence(inp), 0, 15, 24);
    let all = evidence(inp, criticised, rumoured);
    assert forall|i: int, j: int| 0 <= i < all.len() && 0 <= j < all.len() && i != j implies all[i]
        != all[j] by {
        assert(evidence_rank(all[i]) != evidence_rank(all[j]));
    }
}

} // verus!
