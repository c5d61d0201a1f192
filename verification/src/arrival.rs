//! The first day at a new club: what a fresh signing makes of the move.
//!
//! A transfer leaves a [`PendingSigning`] behind. The player takes it up once, on his first
//! day: his pride, his wages, his shirt, his language and his place in the side each put their
//! event into the log. A budget then keeps an ordinary move from weighing like a disaster.

use crate::adaptation::{fit_in, RoleFit};
use crate::date::Date;
use crate::happiness::{
    CareerDesire, CareerDesireEvidence, CareerDesireKind, ContractEventEvidence,
    ContractEventKind, ContractNote, HappinessEventCause, HappinessEventContext,
    HappinessEventEvidence, HappinessEventFollowUp, HappinessEventScope, HappinessEventType,
    PlayerHappiness, RoleStatusKind,
};
#[allow(unused_imports)]
use crate::happiness::{
    lemma_tells_both, lemma_tells_one, tells, weighs, ContextView, DesireView, EventView,
};
use crate::measure::Measure;
use crate::player::{PendingSigning, Player, PositionSlot};
#[allow(unused_imports)]
use vstd::prelude::*;

verus! {

/// By how much the new club's reputation must exceed the old one's for a step up.
pub const DREAM_MOVE_SOURCE_CLUB_GAP: i32 = 2000;

/// By how much the new league's reputation must exceed the old one's for a step up.
pub const DREAM_MOVE_SOURCE_LEAGUE_GAP: i32 = 1500;

/// The thresholds that a move is judged by.
#[derive(Clone, Copy, Debug, PartialEq, Eq, Structural)]
pub struct ArrivalRules {
    pub ambition_shock_min_ambition: Measure,
    pub ambition_shock_threshold: Measure,
    pub dream_move_threshold: Measure,
    pub elite_club_reputation: Measure,
    pub elite_club_min_player_gap: Measure,
    pub salary_shock_ratio: Measure,
    pub salary_boost_ratio: Measure,
}

/// What is measured of a move. Reputations run from 0 to 10000.
#[derive(Clone, Copy, Debug, PartialEq, Eq, Structural)]
pub struct ArrivalReadings {
    pub age: u8,
    /// The club's reputation on a scale from 0 to 1.
    pub club_share: Measure,
    /// The club's reputation.
    pub club_reputation: Measure,
    /// The club's reputation, kept in its range and cut to a whole number.
    pub club_points: u16,
    pub league_reputation: u16,
    /// By how much the reputation that the player's ambition asks for exceeds the club's.
    pub ambition_gap: Measure,
    /// By how much the club's reputation exceeds what the player dreams of.
    pub dream_surplus: Measure,
    /// By how much the club's reputation exceeds the player's.
    pub club_lead: Measure,
    /// The new wage over the old one; read only where both are known.
    pub wage_ratio: Measure,
    /// Whether clubs of the country are barred from European competitions.
    pub uefa_suspended: bool,
    /// For how many days a manager's promise of playing time goes with the move; none does where
    /// there are none.
    pub promise_horizon_days: i64,
}

/// How strongly each reaction weighs.
#[derive(Clone, Copy, Debug, PartialEq, Eq, Structural)]
pub struct ArrivalMagnitudes {
    pub ambition_shock: Measure,
    pub dream_move: Measure,
    pub dream_loan: Measure,
    pub homecoming: Measure,
    pub joining_elite: Measure,
    pub salary_shock: Measure,
    pub salary_boost: Measure,
    pub continental: Measure,
    pub home_return: Measure,
}

/// How a move looks on the player's record.
#[derive(Clone, Copy, Debug, PartialEq, Eq, Structural)]
pub enum Prestige {
    Ordinary,
    DreamMove,
    DreamLoan,
    /// A return to a favourite club that is no step up.
    Homecoming,
}

/// What a fresh signing reacts to.
#[derive(Clone, Copy, Debug, PartialEq, Eq, Structural)]
pub struct ArrivalFacts {
    pub ambition_shock: bool,
    pub prestige: Prestige,
    pub high_ambition: bool,
    pub joining_elite: bool,
    pub salary_shock: bool,
    pub salary_boost: bool,
    /// How proud the shirt number makes: zero, two, or four for an iconic one.
    pub shirt_points: i32,
    pub language_barrier: bool,
    /// How the formation has room, where it is known.
    pub role: Option<RoleFit>,
    /// The continental wish that the move fulfils.
    pub continental: Option<CareerDesireKind>,
    pub home_return: bool,
}

/// Conditions under which a heavy first day is realistic.
#[derive(Clone, Copy, Debug, PartialEq, Eq, Structural)]
pub struct TransferShockExtremes {
    pub huge_salary_cut: bool,
    pub no_tactical_role: bool,
    pub dramatic_step_down: bool,
    pub high_controversy: bool,
}

/// What a manager promises.
#[derive(Clone, Copy, Debug, PartialEq, Eq, Structural)]
pub enum ManagerPromiseKind {
    PlayingTime,
}

/// A promise of a manager, from the day it was made.
#[derive(Clone, Copy, Debug, PartialEq, Eq, Structural)]
pub struct ManagerPromise {
    pub kind: ManagerPromiseKind,
    pub made_on: Date,
    pub horizon_days: i64,
}

/// The promise that goes with a move: a player who was bought or borrowed to play is to play.
pub open spec fn implied_promise(now: Date, horizon_days: i64) -> Option<ManagerPromise> {
    if horizon_days > 0 {
        Some(
            ManagerPromise { kind: ManagerPromiseKind::PlayingTime, made_on: now, horizon_days },
        )
    } else {
        None
    }
}

/// What is left to do after the first reactions.
#[derive(Clone, Copy, Debug, PartialEq, Eq, Structural)]
pub struct Arrival {
    pub pending: PendingSigning,
    pub facts: ArrivalFacts,
    pub extremes: TransferShockExtremes,
    /// The promise to be recorded, where one goes with the move.
    pub promise: Option<ManagerPromise>,
}

/// Whether the new club or league is clearly bigger than the old one. Where neither is known
/// there is no step up.
pub open spec fn source_aware_step_up(
    dest_club: int,
    dest_league: int,
    source_club: int,
    source_league: int,
) -> bool {
    &&& !(source_club == 0 && source_league == 0)
    &&& dest_club - source_club >= 2000 || dest_league - source_league >= 1500
}

/// Whether ambition, standing and age let a move count as a dream.
pub open spec fn dream_gates(p: Player, rules: ArrivalRules, x: ArrivalReadings) -> bool {
    let world = p.player_attributes.world_reputation as int;
    &&& x.dream_surplus.units() >= rules.dream_move_threshold.units()
    &&& !x.club_reputation.le(world + 1000)
    &&& x.age >= 32 ==> x.club_reputation.ge(world + 2500)
    &&& x.age >= 35 ==> x.club_reputation.units() >= rules.elite_club_reputation.units()
}

/// Whether a loan is the loan of a lifetime.
pub open spec fn dream_loan_gates(
    p: Player,
    rules: ArrivalRules,
    x: ArrivalReadings,
    step_up: bool,
) -> bool {
    &&& x.club_reputation.units() >= rules.elite_club_reputation.units()
    &&& step_up
    &&& !x.club_reputation.le(p.player_attributes.world_reputation + 1000)
    &&& x.age < 35
}

/// Whether the move is a step up from where the player was.
pub open spec fn is_step_up(s: PendingSigning, x: ArrivalReadings) -> bool {
    source_aware_step_up(
        x.club_points as int,
        x.league_reputation as int,
        s.source_club_reputation as int,
        s.source_league_reputation as int,
    )
}

/// How the move looks on the record.
pub open spec fn prestige(
    p: Player,
    s: PendingSigning,
    rules: ArrivalRules,
    x: ArrivalReadings,
) -> Prestige {
    if s.is_loan {
        if dream_loan_gates(p, rules, x, is_step_up(s, x)) {
            Prestige::DreamLoan
        } else {
            Prestige::Ordinary
        }
    } else if is_step_up(s, x) && dream_gates(p, rules, x) {
        Prestige::DreamMove
    } else if p.favorite_clubs@.contains(s.destination_club_id) {
        Prestige::Homecoming
    } else {
        Prestige::Ordinary
    }
}

/// The new and the old wage, where both are known.
pub open spec fn wages(p: Player, s: PendingSigning) -> Option<(u32, u32)> {
    match (s.previous_salary, p.contract) {
        (Some(previous), Some(c)) => if previous == 0 {
            None
        } else {
            Some((c.salary, previous))
        },
        _ => None,
    }
}

/// How proud the shirt number makes.
pub open spec fn shirt_points(p: Player) -> int {
    match p.contract {
        Some(c) => match c.shirt_number {
            Some(n) => if n == 7 || n == 9 || n == 10 {
                4
            } else if 1 <= n <= 11 {
                2
            } else {
                0
            },
            None => 0,
        },
        None => 0,
    }
}

/// The continental wish that the move fulfils.
pub open spec fn continental_wish(s: PendingSigning, x: ArrivalReadings) -> Option<
    CareerDesireKind,
> {
    if !(s.had_european_desire || s.had_libertadores_desire) {
        None
    } else if x.club_share.lt_hundredths(55) {
        None
    } else if s.had_european_desire && x.uefa_suspended {
        None
    } else if s.had_libertadores_desire {
        Some(CareerDesireKind::CopaLibertadoresAmbition)
    } else {
        Some(CareerDesireKind::EuropeanCompetitionAmbition)
    }
}

/// Whether one of the languages is a mother tongue.
pub open spec fn has_mother_tongue(p: Player) -> bool {
    exists|i: int| 0 <= i < p.languages@.len() && (#[trigger] p.languages@[i]).is_native
}

/// What the player reacts to.
pub open spec fn arrival_facts(
    p: Player,
    s: PendingSigning,
    code: Seq<char>,
    formation: Option<Seq<PositionSlot>>,
    rules: ArrivalRules,
    x: ArrivalReadings,
) -> ArrivalFacts {
    let favourite = p.favorite_clubs@.contains(s.destination_club_id);
    let speaks = crate::player::speaks_local(p.languages@, code);
    let paid = !s.is_loan && wages(p, s) is Some;
    ArrivalFacts {
        ambition_shock: !favourite && p.attributes.ambition.units()
            > rules.ambition_shock_min_ambition.units() && x.ambition_gap.units()
            > rules.ambition_shock_threshold.units(),
        prestige: prestige(p, s, rules, x),
        high_ambition: p.attributes.ambition.ge(14),
        joining_elite: x.club_reputation.units() >= rules.elite_club_reputation.units()
            && x.club_lead.units() >= rules.elite_club_min_player_gap.units(),
        salary_shock: paid && x.wage_ratio.units() < rules.salary_shock_ratio.units(),
        salary_boost: paid && x.wage_ratio.units() >= rules.salary_boost_ratio.units(),
        shirt_points: shirt_points(p) as i32,
        language_barrier: !speaks,
        role: match formation {
            Some(f) => Some(crate::adaptation::role_fit(p.position, f)),
            None => None,
        },
        continental: continental_wish(s, x),
        home_return: s.had_return_home_desire && (favourite || speaks && has_mother_tongue(p)),
    }
}

/// Which extreme conditions the move carries.
pub open spec fn extremes(
    p: Player,
    s: PendingSigning,
    role: Option<RoleFit>,
    x: ArrivalReadings,
) -> TransferShockExtremes {
    TransferShockExtremes {
        huge_salary_cut: wages(p, s) is Some && x.wage_ratio.le_halves(1),
        no_tactical_role: role == Some(RoleFit::Nowhere),
        dramatic_step_down: s.source_club_reputation - x.club_points >= 4000
            || p.player_attributes.world_reputation - x.club_points >= 5000,
        high_controversy: p.attributes.controversy.ge(15),
    }
}

/// The explanation of a loan of a lifetime.
pub open spec fn dream_loan_context(high_ambition: bool) -> ContextView {
    ContextView::bare(
        HappinessEventCause::ReputationAdmiration,
        HappinessEventScope::Personal,
    ).evidence(HappinessEventEvidence::JoinedEliteClub).evidence(
        HappinessEventEvidence::ReputationGap,
    ).follow_up(HappinessEventFollowUp::SettlingInProgress).evidence_if(
        high_ambition,
        HappinessEventEvidence::HighAmbition,
    )
}

/// The explanation of a fulfilled wish.
pub open spec fn wish_context(
    cause: HappinessEventCause,
    kind: CareerDesireKind,
    e: CareerDesireEvidence,
) -> ContextView {
    ContextView::bare(cause, HappinessEventScope::Personal).desire(
        DesireView::of(kind, e),
    ).follow_up(HappinessEventFollowUp::LikelyToSettle)
}

/// The explanation of a change of wages.
pub open spec fn wage_context(kind: ContractEventKind, ratio: Measure) -> ContextView {
    ContextView::bare(HappinessEventCause::Other, HappinessEventScope::Boardroom).terms(
        ContractNote {
            kind,
            wage_vs_previous: ratio,
            evidence: match kind {
                ContractEventKind::SalaryShock => ContractEventEvidence::SquadStatusDowngrade,
                ContractEventKind::SalaryBoost => ContractEventEvidence::OverpaidVsExpectation,
            },
        },
    )
}

/// The explanation of a lonely first day.
pub open spec fn barrier_context() -> ContextView {
    ContextView::bare(
        HappinessEventCause::AdaptationIsolation,
        HappinessEventScope::DressingRoom,
    ).evidence(HappinessEventEvidence::LanguageBarrier).evidence(
        HappinessEventEvidence::NewSigningStillSettling,
    ).follow_up(HappinessEventFollowUp::SettlingInProgress)
}

/// The explanation of a missing place in the side.
pub open spec fn mismatch_context() -> ContextView {
    ContextView::bare(
        HappinessEventCause::TacticalDisagreement,
        HappinessEventScope::MatchDay,
    ).role(RoleStatusKind::NoNaturalRoleInFormation)
}

/// The log with one more event, if it happened.
pub open spec fn push_if(log: Seq<EventView>, holds: bool, e: EventView) -> Seq<EventView> {
    if holds {
        log.push(e)
    } else {
        log
    }
}

/// The log after the reactions that have to do with standing.
pub open spec fn log_standing(
    log: Seq<EventView>,
    f: ArrivalFacts,
    m: ArrivalMagnitudes,
) -> Seq<EventView> {
    let shocked = push_if(
        log,
        f.ambition_shock,
        EventView::today(HappinessEventType::AmbitionShock, m.ambition_shock, None),
    );
    let proud = match f.prestige {
        Prestige::Ordinary => shocked,
        Prestige::DreamMove => shocked.push(
            EventView::today(HappinessEventType::DreamMove, m.dream_move, None),
        ),
        Prestige::DreamLoan => shocked.push(
            EventView::today(
                HappinessEventType::DreamLoanOpportunity,
                m.dream_loan,
                Some(dream_loan_context(f.high_ambition)),
            ),
        ),
        Prestige::Homecoming => crate::happiness::log_with_cooldown(
            shocked,
            EventView::today(
                HappinessEventType::HomeReturnOpportunity,
                m.homecoming,
                Some(
                    wish_context(
                        HappinessEventCause::SupporterIdentification,
                        CareerDesireKind::FavoriteClubHomecoming,
                        CareerDesireEvidence::HomeOrFavouriteLink,
                    ),
                ),
            ),
            120,
        ),
    };
    push_if(
        proud,
        f.joining_elite,
        EventView::today(HappinessEventType::JoiningElite, m.joining_elite, None),
    )
}

/// The log after the reactions that have to do with the contract.
pub open spec fn log_terms(
    log: Seq<EventView>,
    f: ArrivalFacts,
    m: ArrivalMagnitudes,
    ratio: Measure,
) -> Seq<EventView> {
    let cut = push_if(
        log,
        f.salary_shock,
        EventView::today(
            HappinessEventType::SalaryShock,
            m.salary_shock,
            Some(wage_context(ContractEventKind::SalaryShock, ratio)),
        ),
    );
    let paid = push_if(
        cut,
        f.salary_boost,
        EventView::today(
            HappinessEventType::SalaryBoost,
            m.salary_boost,
            Some(wage_context(ContractEventKind::SalaryBoost, ratio)),
        ),
    );
    push_if(
        paid,
        f.shirt_points > 0,
        EventView::today(
            HappinessEventType::ShirtNumberPromotion,
            Measure::of_halves(2 * f.shirt_points),
            None,
        ),
    )
}

/// The log after the reactions that have to do with daily life: loneliness weighs three on
/// loan and five otherwise, a missing position four, and eight where there is no place at all.
pub open spec fn log_daily_life(log: Seq<EventView>, f: ArrivalFacts, is_loan: bool) -> Seq<
    EventView,
> {
    let lonely = push_if(
        log,
        f.language_barrier,
        EventView::today(
            HappinessEventType::FeelingIsolated,
            Measure::of_halves(
                if is_loan {
                    -6
                } else {
                    -10
                },
            ),
            Some(barrier_context()),
        ),
    );
    push_if(
        lonely,
        f.role == Some(RoleFit::SameGroup) || f.role == Some(RoleFit::Nowhere),
        EventView::today(
            HappinessEventType::RoleMismatch,
            Measure::of_halves(
                if f.role == Some(RoleFit::SameGroup) {
                    -8
                } else {
                    -16
                },
            ),
            Some(mismatch_context()),
        ),
    )
}

/// The event of a continental wish that came true.
pub open spec fn continental_event(kind: CareerDesireKind, magnitude: Measure) -> EventView {
    EventView::today(
        HappinessEventType::ContinentalAmbitionSatisfied,
        magnitude,
        Some(
            wish_context(
                HappinessEventCause::ReputationAdmiration,
                kind,
                CareerDesireEvidence::HighAmbition,
            ),
        ),
    )
}

/// The log after the wishes that the move fulfils.
pub open spec fn log_wishes(log: Seq<EventView>, f: ArrivalFacts, m: ArrivalMagnitudes) -> Seq<
    EventView,
> {
    let satisfied = match f.continental {
        Some(kind) => crate::happiness::log_with_cooldown(
            log,
            continental_event(kind, m.continental),
            120,
        ),
        None => log,
    };
    if f.home_return {
        crate::happiness::log_with_cooldown(
            satisfied,
            EventView::today(
                HappinessEventType::HomeReturnOpportunity,
                m.home_return,
                Some(
                    wish_context(
                        HappinessEventCause::AdaptationIsolation,
                        CareerDesireKind::ReturnHomeAfterPoorAdaptation,
                        CareerDesireEvidence::HomeOrFavouriteLink,
                    ),
                ),
            ),
            120,
        )
    } else {
        satisfied
    }
}

/// The log after the first day.
pub open spec fn log_arrival(
    log: Seq<EventView>,
    f: ArrivalFacts,
    m: ArrivalMagnitudes,
    ratio: Measure,
    is_loan: bool,
) -> Seq<EventView> {
    log_wishes(log_daily_life(log_terms(log_standing(log, f, m), f, m, ratio), f, is_loan), f, m)
}

impl Default for TransferShockExtremes {
    /// None of the conditions.
    fn default() -> (r: Self)
        ensures
            !r.some(),
    {
        TransferShockExtremes {
            huge_salary_cut: false,
            no_tactical_role: false,
            dramatic_step_down: false,
            high_controversy: false,
        }
    }
}

impl TransferShockExtremes {
    /// Whether any of the conditions holds.
    pub open spec fn some(self) -> bool {
        self.huge_salary_cut || self.no_tactical_role || self.dramatic_step_down
            || self.high_controversy
    }

    /// Whether any of the conditions holds.
    pub fn any(&self) -> (r: bool)
        ensures
            r == self.some(),
    {
        self.huge_salary_cut || self.no_tactical_role || self.dramatic_step_down
            || self.high_controversy
    }
}

/// Logs a fulfilled wish, unless one of the kind was logged within `cooldown` days.
fn log_wish(
    happiness: &mut PlayerHappiness,
    event_type: HappinessEventType,
    magnitude: Measure,
    cause: HappinessEventCause,
    kind: CareerDesireKind,
    e: CareerDesireEvidence,
    cooldown: u16,
)
    ensures
        final(happiness)@ == crate::happiness::log_with_cooldown(
            old(happiness)@,
            EventView::today(event_type, magnitude, Some(wish_context(cause, kind, e))),
            cooldown as int,
        ),
        final(happiness).morale == old(happiness).morale,
{
    let context = HappinessEventContext::new(cause, HappinessEventScope::Personal).with_desire(
        CareerDesire::of(kind, e),
    ).with_follow_up(HappinessEventFollowUp::LikelyToSettle);
    happiness.add_event_with_context_and_cooldown(event_type, magnitude, context, cooldown);
}

/// Logs the reactions that have to do with standing.
fn react_to_standing(happiness: &mut PlayerHappiness, f: &ArrivalFacts, m: &ArrivalMagnitudes)
    ensures
        final(happiness)@ == log_standing(old(happiness)@, *f, *m),
        final(happiness).morale == old(happiness).morale,
{
    if f.ambition_shock {
        happiness.add_event(HappinessEventType::AmbitionShock, m.ambition_shock);
    }
    match f.prestige {
        Prestige::Ordinary => {},
        Prestige::DreamMove => {
            happiness.add_event(HappinessEventType::DreamMove, m.dream_move);
        },
        Prestige::DreamLoan => {
            let context = HappinessEventContext::new(
                HappinessEventCause::ReputationAdmiration,
                HappinessEventScope::Personal,
            ).with_evidence(HappinessEventEvidence::JoinedEliteClub).with_evidence(
                HappinessEventEvidence::ReputationGap,
            ).with_follow_up(HappinessEventFollowUp::SettlingInProgress).with_evidence_if(
                f.high_ambition,
                HappinessEventEvidence::HighAmbition,
            );
            happiness.add_event_with_context(
                HappinessEventType::DreamLoanOpportunity,
                m.dream_loan,
                context,
            );
        },
        Prestige::Homecoming => {
            log_wish(
                happiness,
                HappinessEventType::HomeReturnOpportunity,
                m.homecoming,
                HappinessEventCause::SupporterIdentification,
                CareerDesireKind::FavoriteClubHomecoming,
                CareerDesireEvidence::HomeOrFavouriteLink,
                120,
            );
        },
    }
    if f.joining_elite {
        happiness.add_event(HappinessEventType::JoiningElite, m.joining_elite);
    }
}

/// Logs the reactions that have to do with the contract.
fn react_to_terms(
    happiness: &mut PlayerHappiness,
    f: &ArrivalFacts,
    m: &ArrivalMagnitudes,
    ratio: Measure,
)
    requires
        0 <= f.shirt_points <= 4,
    ensures
        final(happiness)@ == log_terms(old(happiness)@, *f, *m, ratio),
        final(happiness).morale == old(happiness).morale,
{
    if f.salary_shock {
        let context = HappinessEventContext::new(
            HappinessEventCause::Other,
            HappinessEventScope::Boardroom,
        ).with_terms(
            ContractNote {
                kind: ContractEventKind::SalaryShock,
                wage_vs_previous: ratio,
                evidence: ContractEventEvidence::SquadStatusDowngrade,
            },
        );
        happiness.add_event_with_context(
            HappinessEventType::SalaryShock,
            m.salary_shock,
            context,
        );
    }
    if f.salary_boost {
        let context = HappinessEventContext::new(
            HappinessEventCause::Other,
            HappinessEventScope::Boardroom,
        ).with_terms(
            ContractNote {
                kind: ContractEventKind::SalaryBoost,
                wage_vs_previous: ratio,
                evidence: ContractEventEvidence::OverpaidVsExpectation,
            },
        );
        happiness.add_event_with_context(
            HappinessEventType::SalaryBoost,
            m.salary_boost,
            context,
        );
    }
    if f.shirt_points > 0 {
        let magnitude = Measure::halves(2 * f.shirt_points);
        happiness.add_event(HappinessEventType::ShirtNumberPromotion, magnitude);
    }
}

/// Logs the reactions that have to do with daily life.
fn react_to_daily_life(happiness: &mut PlayerHappiness, f: &ArrivalFacts, is_loan: bool)
    ensures
        final(happiness)@ == log_daily_life(old(happiness)@, *f, is_loan),
        final(happiness).morale == old(happiness).morale,
{
    if f.language_barrier {
        let context = HappinessEventContext::new(
            HappinessEventCause::AdaptationIsolation,
            HappinessEventScope::DressingRoom,
        ).with_evidence(HappinessEventEvidence::LanguageBarrier).with_evidence(
            HappinessEventEvidence::NewSigningStillSettling,
        ).with_follow_up(HappinessEventFollowUp::SettlingInProgress);
        let magnitude = if is_loan {
            Measure::halves(-6)
        } else {
            Measure::halves(-10)
        };
        happiness.add_event_with_context(HappinessEventType::FeelingIsolated, magnitude, context);
    }
    let magnitude = match f.role {
        Some(RoleFit::SameGroup) => Measure::halves(-8),
        Some(RoleFit::Nowhere) => Measure::halves(-16),
        _ => {
            return ;
        },
    };
    let context = HappinessEventContext::new(
        HappinessEventCause::TacticalDisagreement,
        HappinessEventScope::MatchDay,
    ).with_role(RoleStatusKind::NoNaturalRoleInFormation);
    happiness.add_event_with_context(HappinessEventType::RoleMismatch, magnitude, context);
}

/// Logs the wishes that the move fulfils.
fn react_to_wishes(happiness: &mut PlayerHappiness, f: &ArrivalFacts, m: &ArrivalMagnitudes)
    ensures
        final(happiness)@ == log_wishes(old(happiness)@, *f, *m),
        final(happiness).morale == old(happiness).morale,
{
    match f.continental {
        Some(kind) => {
            log_wish(
                happiness,
                HappinessEventType::ContinentalAmbitionSatisfied,
                m.continental,
                HappinessEventCause::ReputationAdmiration,
                kind,
                CareerDesireEvidence::HighAmbition,
                120,
            );
        },
        None => {},
    }
    if f.home_return {
        log_wish(
            happiness,
            HappinessEventType::HomeReturnOpportunity,
            m.home_return,
            HappinessEventCause::AdaptationIsolation,
            CareerDesireKind::ReturnHomeAfterPoorAdaptation,
            CareerDesireEvidence::HomeOrFavouriteLink,
            120,
        );
    }
}

impl Player {
    /// Whether the new club or league is clearly bigger than the old one. Where neither is
    /// known there is no step up.
    pub fn is_source_aware_step_up(
        dest_club_rep: u16,
        dest_league_rep: u16,
        source_club_rep: u16,
        source_league_rep: u16,
    ) -> (r: bool)
        ensures
            r == source_aware_step_up(
                dest_club_rep as int,
                dest_league_rep as int,
                source_club_rep as int,
                source_league_rep as int,
            ),
    {
        if source_club_rep == 0 && source_league_rep == 0 {
            return false;
        }
        let club_gap: i32 = dest_club_rep as i32 - source_club_rep as i32;
        let league_gap: i32 = dest_league_rep as i32 - source_league_rep as i32;
        club_gap >= DREAM_MOVE_SOURCE_CLUB_GAP || league_gap >= DREAM_MOVE_SOURCE_LEAGUE_GAP
    }

    /// Whether ambition, standing and age let a move count as a dream.
    pub fn passes_dream_move_gates(&self, rules: &ArrivalRules, x: &ArrivalReadings) -> (r: bool)
        ensures
            r == dream_gates(*self, *rules, *x),
    {
        let world: i32 = self.player_attributes.world_reputation as i32;
        if !x.dream_surplus.at_least(&rules.dream_move_threshold) {
            return false;
        }
        if x.club_reputation.is_at_most(world + 1000) {
            return false;
        }
        if x.age >= 32 && !x.club_reputation.is_at_least(world + 2500) {
            return false;
        }
        if x.age >= 35 && !x.club_reputation.at_least(&rules.elite_club_reputation) {
            return false;
        }
        true
    }

    /// The new and the old wage, where both are known.
    pub fn wages_compared(&self, pending: &PendingSigning) -> (r: Option<(u32, u32)>)
        ensures
            r == wages(*self, *pending),
    {
        match (pending.previous_salary, &self.contract) {
            (Some(previous), Some(c)) => if previous == 0 {
                None
            } else {
                Some((c.salary, previous))
            },
            _ => None,
        }
    }

    /// How the move looks on the record. A loan is never a dream move, and a return to a
    /// favourite club is one only where the numbers justify it.
    fn prestige_of(&self, s: &PendingSigning, rules: &ArrivalRules, x: &ArrivalReadings) -> (r:
        Prestige)
        ensures
            r == prestige(*self, *s, *rules, *x),
    {
        let step_up = Player::is_source_aware_step_up(
            x.club_points,
            x.league_reputation,
            s.source_club_reputation,
            s.source_league_reputation,
        );
        if s.is_loan {
            let world: i32 = self.player_attributes.world_reputation as i32;
            if x.club_reputation.at_least(&rules.elite_club_reputation) && step_up
                && !x.club_reputation.is_at_most(world + 1000) && x.age < 35 {
                Prestige::DreamLoan
            } else {
                Prestige::Ordinary
            }
        } else if step_up && self.passes_dream_move_gates(rules, x) {
            Prestige::DreamMove
        } else if self.is_favorite_club(s.destination_club_id) {
            Prestige::Homecoming
        } else {
            Prestige::Ordinary
        }
    }

    /// How proud the shirt number makes.
    fn pride_in_shirt(&self) -> (r: i32)
        ensures
            r == shirt_points(*self),
            0 <= r <= 4,
    {
        match &self.contract {
            Some(c) => match c.shirt_number {
                Some(n) => if n == 7 || n == 9 || n == 10 {
                    4
                } else if 1 <= n && n <= 11 {
                    2
                } else {
                    0
                },
                None => 0,
            },
            None => 0,
        }
    }

    /// Whether one of the languages is a mother tongue.
    fn knows_mother_tongue(&self) -> (r: bool)
        ensures
            r == has_mother_tongue(*self),
    {
        let mut i: usize = 0;
        while i < self.languages.len()
            invariant
                i <= self.languages@.len(),
                forall|j: int| 0 <= j < i ==> !(#[trigger] self.languages@[j]).is_native,
            decreases self.languages@.len() - i,
        {
            if self.languages[i].is_native {
                assert(self.languages@[i as int].is_native);
                return true;
            }
            i = i + 1;
        }
        false
    }

    /// What the player reacts to on the first day.
    pub fn arrival_facts(
        &self,
        s: &PendingSigning,
        country_code: &str,
        formation: Option<&[PositionSlot]>,
        rules: &ArrivalRules,
        x: &ArrivalReadings,
    ) -> (r: ArrivalFacts)
        ensures
            r == arrival_facts(
                *self,
                *s,
                country_code@,
                match formation {
                    Some(f) => Some(f@),
                    None => None,
                },
                *rules,
                *x,
            ),
            0 <= r.shirt_points <= 4,
    {
        let favourite = self.is_favorite_club(s.destination_club_id);
        let speaks = self.speaks_local_language(country_code);
        let paid = !s.is_loan && self.wages_compared(s).is_some();
        let continental = if !(s.had_european_desire || s.had_libertadores_desire)
            || x.club_share.is_below_hundredths(55) || (s.had_european_desire
            && x.uefa_suspended) {
            None
        } else if s.had_libertadores_desire {
            Some(CareerDesireKind::CopaLibertadoresAmbition)
        } else {
            Some(CareerDesireKind::EuropeanCompetitionAmbition)
        };
        let role = match formation {
            Some(f) => Some(fit_in(self.position, f)),
            None => None,
        };
        ArrivalFacts {
            ambition_shock: !favourite && !rules.ambition_shock_min_ambition.at_least(
                &self.attributes.ambition,
            ) && !rules.ambition_shock_threshold.at_least(&x.ambition_gap),
            prestige: self.prestige_of(s, rules, x),
            high_ambition: self.attributes.ambition.is_at_least(14),
            joining_elite: x.club_reputation.at_least(&rules.elite_club_reputation)
                && x.club_lead.at_least(&rules.elite_club_min_player_gap),
            salary_shock: paid && !x.wage_ratio.at_least(&rules.salary_shock_ratio),
            salary_boost: paid && x.wage_ratio.at_least(&rules.salary_boost_ratio),
            shirt_points: self.pride_in_shirt(),
            language_barrier: !speaks,
            role,
            continental,
            home_return: s.had_return_home_desire && (favourite || (speaks
                && self.knows_mother_tongue())),
        }
    }

    /// Which extreme conditions the move carries.
    fn shock_extremes(&self, s: &PendingSigning, role: Option<RoleFit>, x: &ArrivalReadings) -> (r:
        TransferShockExtremes)
        ensures
            r == extremes(*self, *s, role, *x),
    {
        let points: i32 = x.club_points as i32;
        let no_tactical_role = match role {
            Some(RoleFit::Nowhere) => true,
            _ => false,
        };
        TransferShockExtremes {
            huge_salary_cut: self.wages_compared(s).is_some() && x.wage_ratio.is_at_most_halves(1),
            no_tactical_role,
            dramatic_step_down: s.source_club_reputation as i32 - points >= 4000
                || self.player_attributes.world_reputation as i32 - points >= 5000,
            high_controversy: self.attributes.controversy.is_at_least(15),
        }
    }

    /// Takes up a pending signing, once, and logs what the player makes of it. Without one
    /// nothing happens.
    pub fn process_transfer_shock(
        &mut self,
        now: Date,
        country_code: &str,
        formation: Option<&[PositionSlot]>,
        rules: &ArrivalRules,
        x: &ArrivalReadings,
        m: &ArrivalMagnitudes,
    ) -> (r: Option<Arrival>)
        ensures
            r is None <==> old(self).pending_signing is None,
            r is None ==> *final(self) == *old(self),
            r is Some ==> ({
                let s = old(self).pending_signing->0;
                let f = arrival_facts(
                    *old(self),
                    s,
                    country_code@,
                    match formation {
                        Some(f) => Some(f@),
                        None => None,
                    },
                    *rules,
                    *x,
                );
                &&& r->0 == (Arrival {
                    pending: s,
                    facts: f,
                    extremes: extremes(*old(self), s, f.role, *x),
                    promise: implied_promise(now, x.promise_horizon_days),
                })
                &&& final(self).happiness@ == log_arrival(
                    old(self).happiness@,
                    f,
                    *m,
                    x.wage_ratio,
                    s.is_loan,
                )
                &&& final(self).happiness.morale == old(self).happiness.morale
                &&& *final(self) == (Player {
                    pending_signing: None,
                    happiness: final(self).happiness,
                    ..*old(self)
                })
            }),
    {
        let s = match self.pending_signing {
            Some(s) => s,
            None => {
                return None;
            },
        };
        let facts = self.arrival_facts(&s, country_code, formation, rules, x);
        let shock_extremes = self.shock_extremes(&s, facts.role, x);
        self.pending_signing = None;
        react_to_standing(&mut self.happiness, &facts, m);
        react_to_terms(&mut self.happiness, &facts, m, x.wage_ratio);
        react_to_daily_life(&mut self.happiness, &facts, s.is_loan);
        react_to_wishes(&mut self.happiness, &facts, m);
        let promise = if x.promise_horizon_days > 0 {
            Some(
                ManagerPromise {
                    kind: ManagerPromiseKind::PlayingTime,
                    made_on: now,
                    horizon_days: x.promise_horizon_days,
                },
            )
        } else {
            None
        };
        Some(Arrival { pending: s, facts, extremes: shock_extremes, promise })
    }

    /// The club has qualified for a continental competition: a player who asked for one within
    /// the last 240 days is satisfied, at most once a year.
    pub fn on_continental_qualification_satisfaction(&mut self, magnitude: Measure)
        ensures
            *final(self) == (Player { happiness: final(self).happiness, ..*old(self) }),
            final(self).happiness.morale == old(self).happiness.morale,
            final(self).happiness@ == match qualification_wish(old(self).happiness@) {
                Some(kind) => crate::happiness::log_with_cooldown(
                    old(self).happiness@,
                    continental_event(kind, magnitude),
                    365,
                ),
                None => old(self).happiness@,
            },
    {
        let european = self.happiness.has_recent_event(
            HappinessEventType::WantsEuropeanCompetition,
            240,
        );
        let libertadores = self.happiness.has_recent_event(
            HappinessEventType::WantsCopaLibertadores,
            240,
        );
        if !(european || libertadores) {
            return ;
        }
        let kind = if libertadores {
            CareerDesireKind::CopaLibertadoresAmbition
        } else {
            CareerDesireKind::EuropeanCompetitionAmbition
        };
        log_wish(
            &mut self.happiness,
            HappinessEventType::ContinentalAmbitionSatisfied,
            magnitude,
            HappinessEventCause::ReputationAdmiration,
            kind,
            CareerDesireEvidence::HighAmbition,
            365,
        );
    }
}

/// The continental wish that the log still holds; the Libertadores come first.
pub open spec fn qualification_wish(log: Seq<EventView>) -> Option<CareerDesireKind> {
    if crate::happiness::recent(log, HappinessEventType::WantsCopaLibertadores, 240) {
        Some(CareerDesireKind::CopaLibertadoresAmbition)
    } else if crate::happiness::recent(log, HappinessEventType::WantsEuropeanCompetition, 240) {
        Some(CareerDesireKind::EuropeanCompetitionAmbition)
    } else {
        None
    }
}

/// How much of a reaction a player of this age still feels, in hundredths.
pub open spec fn age_percent(kind: Prestige, age: int) -> int {
    if age < 32 {
        100
    } else {
        match kind {
            Prestige::Ordinary => 100,
            Prestige::DreamMove => 60,
            Prestige::DreamLoan => 70,
            Prestige::Homecoming => 70,
        }
    }
}

/// How much of a reaction a player of this age still feels, in hundredths.
pub fn veteran_percent(kind: Prestige, age: u8) -> (r: u32)
    ensures
        r == age_percent(kind, age as int),
{
    if age < 32 {
        return 100;
    }
    match kind {
        Prestige::Ordinary => 100,
        Prestige::DreamMove => 60,
        Prestige::DreamLoan => 70,
        Prestige::Homecoming => 70,
    }
}

/// Whether the event is a grievance that lands in full: a massive wage cut, or no place in the
/// side at all.
pub open spec fn hard_shock(event_type: HappinessEventType, magnitude: Measure) -> bool {
    match event_type {
        HappinessEventType::SalaryShock => true,
        HappinessEventType::RoleMismatch => magnitude.le(-6),
        _ => false,
    }
}

/// Whether the event belongs to the first day.
pub open spec fn first_day_shock(event_type: HappinessEventType) -> bool {
    match event_type {
        HappinessEventType::AmbitionShock => true,
        HappinessEventType::RoleMismatch => true,
        HappinessEventType::FeelingIsolated => true,
        HappinessEventType::OverawedByEliteClub => true,
        HappinessEventType::RolePathBlockedAtEliteClub => true,
        HappinessEventType::DressingRoomStatusShock => true,
        HappinessEventType::TooGoodForLevel => true,
        HappinessEventType::StepDownEmbarrassment => true,
        HappinessEventType::TrainingStandardFrustration => true,
        HappinessEventType::FanExpectationBurden => true,
        HappinessEventType::MediaSpotlightPressure => true,
        HappinessEventType::LoanLevelMismatch => true,
        _ => false,
    }
}

/// Whether the event may be scaled down to fit the budget.
pub open spec fn soft_shock(event_type: HappinessEventType, magnitude: Measure) -> bool {
    !hard_shock(event_type, magnitude) && first_day_shock(event_type)
}

/// Whether the event counts towards today's soft load.
pub open spec fn in_soft_load(e: EventView) -> bool {
    e.days_ago == 0 && !e.magnitude.ge(0) && soft_shock(e.event_type, e.magnitude)
}

/// Whether the event counts towards today's hard load.
pub open spec fn in_hard_load(e: EventView) -> bool {
    e.days_ago == 0 && !e.magnitude.ge(0) && hard_shock(e.event_type, e.magnitude)
}

/// The magnitudes of today's load, in the order of the log.
pub open spec fn load(log: Seq<EventView>, soft: bool) -> Seq<Measure>
    decreases log.len(),
{
    if log.len() == 0 {
        Seq::empty()
    } else {
        let e = log.last();
        let rest = load(log.drop_last(), soft);
        if (soft && in_soft_load(e)) || (!soft && in_hard_load(e)) {
            rest.push(e.magnitude)
        } else {
            rest
        }
    }
}

/// Bounds what a first day may weigh in all.
#[derive(Clone, Copy, Debug, PartialEq, Eq, Structural)]
pub struct TransferShockBudget {
    pub ordinary_cap: i32,
    pub extreme_cap: i32,
}

impl TransferShockBudget {
    /// The budget of an ordinary and of an extreme first day.
    pub open spec fn standard() -> TransferShockBudget {
        TransferShockBudget { ordinary_cap: -10i32, extreme_cap: -22i32 }
    }

    /// What a first day under these conditions may weigh.
    pub open spec fn allowance(self, extremes: TransferShockExtremes) -> i32 {
        if extremes.some() {
            self.extreme_cap
        } else {
            self.ordinary_cap
        }
    }
}

impl Default for TransferShockBudget {
    fn default() -> (r: Self)
        ensures
            r == TransferShockBudget::standard(),
    {
        TransferShockBudget { ordinary_cap: -10, extreme_cap: -22 }
    }
}

impl TransferShockBudget {
    /// What a first day under these conditions may weigh.
    pub fn cap(&self, extremes: TransferShockExtremes) -> (r: i32)
        ensures
            r == self.allowance(extremes),
    {
        if extremes.any() {
            self.extreme_cap
        } else {
            self.ordinary_cap
        }
    }

    /// Whether the event is a grievance that lands in full.
    pub fn is_hard_shock(event_type: HappinessEventType, magnitude: Measure) -> (r: bool)
        ensures
            r == hard_shock(event_type, magnitude),
    {
        match event_type {
            HappinessEventType::SalaryShock => true,
            HappinessEventType::RoleMismatch => magnitude.is_at_most(-6),
            _ => false,
        }
    }

    /// Whether the event may be scaled down to fit the budget.
    pub fn is_soft_shock(event_type: HappinessEventType, magnitude: Measure) -> (r: bool)
        ensures
            r == soft_shock(event_type, magnitude),
    {
        if TransferShockBudget::is_hard_shock(event_type, magnitude) {
            return false;
        }
        match event_type {
            HappinessEventType::AmbitionShock => true,
            HappinessEventType::RoleMismatch => true,
            HappinessEventType::FeelingIsolated => true,
            HappinessEventType::OverawedByEliteClub => true,
            HappinessEventType::RolePathBlockedAtEliteClub => true,
            HappinessEventType::DressingRoomStatusShock => true,
            HappinessEventType::TooGoodForLevel => true,
            HappinessEventType::StepDownEmbarrassment => true,
            HappinessEventType::TrainingStandardFrustration => true,
            HappinessEventType::FanExpectationBurden => true,
            HappinessEventType::MediaSpotlightPressure => true,
            HappinessEventType::LoanLevelMismatch => true,
            _ => false,
        }
    }

    /// The magnitudes of today's soft or hard load, in the order of the log.
    pub fn todays_load(happiness: &PlayerHappiness, soft: bool) -> (r: Vec<Measure>)
        ensures
            r@ == load(happiness@, soft),
    {
        let mut r: Vec<Measure> = Vec::new();
        let mut i: usize = 0;
        while i < happiness.recent_events.len()
            invariant
                i <= happiness.recent_events@.len(),
                happiness@.len() == happiness.recent_events@.len(),
                r@ == load(happiness@.take(i as int), soft),
            decreases happiness.recent_events@.len() - i,
        {
            let e = &happiness.recent_events[i];
            assert(happiness@[i as int] == e@);
            assert(happiness@.take(i + 1).drop_last() =~= happiness@.take(i as int));
            assert(happiness@.take(i + 1).last() == e@);
            if e.days_ago == 0 && !e.magnitude.is_at_least(0) {
                let counts = if soft {
                    TransferShockBudget::is_soft_shock(e.event_type, e.magnitude)
                } else {
                    TransferShockBudget::is_hard_shock(e.event_type, e.magnitude)
                };
                if counts {
                    r.push(e.magnitude);
                }
            }
            i = i + 1;
        }
        assert(happiness@.take(happiness@.len() as int) =~= happiness@);
        r
    }

    /// Whether the soft load fits into what the hard load left of the budget.
    pub fn is_within(soft_load: Measure, remaining: Measure) -> (r: bool)
        ensures
            r == (soft_load.ge(0) || soft_load.units() >= remaining.units()),
    {
        soft_load.is_at_least(0) || soft_load.at_least(&remaining)
    }

    /// Gives each event of today's soft load its scaled magnitude. Every other event keeps
    /// its own, a hard one before all.
    pub fn rescale(happiness: &mut PlayerHappiness, scaled: &Vec<Measure>)
        requires
            scaled@.len() == old(happiness)@.len(),
        ensures
            final(happiness).morale == old(happiness).morale,
            final(happiness)@.len() == old(happiness)@.len(),
            forall|i: int|
                0 <= i < old(happiness)@.len() ==> #[trigger] final(happiness)@[i]
                    == if in_soft_load(old(happiness)@[i]) {
                    EventView { magnitude: scaled@[i], ..old(happiness)@[i] }
                } else {
                    old(happiness)@[i]
                },
    {
        let mut i: usize = 0;
        while i < happiness.recent_events.len()
            invariant
                i <= happiness.recent_events@.len(),
                happiness.recent_events@.len() == old(happiness).recent_events@.len(),
                scaled@.len() == old(happiness).recent_events@.len(),
                happiness.morale == old(happiness).morale,
                forall|j: int|
                    i <= j < happiness.recent_events@.len() ==> happiness.recent_events@[j]
                        == old(happiness).recent_events@[j],
                forall|j: int|
                    0 <= j < i ==> (#[trigger] happiness.recent_events@[j])@ == if in_soft_load(
                        old(happiness).recent_events@[j]@,
                    ) {
                        EventView { magnitude: scaled@[j], ..old(happiness).recent_events@[j]@ }
                    } else {
                        old(happiness).recent_events@[j]@
                    },
            decreases happiness.recent_events@.len() - i,
        {
            let magnitude = happiness.recent_events[i].magnitude;
            if happiness.recent_events[i].days_ago == 0 && !magnitude.is_at_least(0)
                && TransferShockBudget::is_soft_shock(
                happiness.recent_events[i].event_type,
                magnitude,
            ) {
                happiness.recent_events[i].magnitude = scaled[i];
            }
            i = i + 1;
        }
    }
}

/// A loan is never a dream move nor a homecoming, and only a loan is a dream loan. A dream
/// needs a known club or league that is clearly smaller than the new one.
pub proof fn lemma_dreams(p: Player, s: PendingSigning, rules: ArrivalRules, x: ArrivalReadings)
    ensures
        s.is_loan ==> prestige(p, s, rules, x) is Ordinary || prestige(p, s, rules, x)
            is DreamLoan,
        !s.is_loan ==> !(prestige(p, s, rules, x) is DreamLoan),
        prestige(p, s, rules, x) is DreamMove || prestige(p, s, rules, x) is DreamLoan
            ==> is_step_up(s, x),
        s.source_club_reputation == 0 && s.source_league_reputation == 0 ==> !is_step_up(s, x),
{
}

/// A favourite club mutes the shock of a small club, and a permanent move there is a homecoming
/// unless it is a dream move.
pub proof fn lemma_favourite_club(
    p: Player,
    s: PendingSigning,
    code: Seq<char>,
    formation: Option<Seq<PositionSlot>>,
    rules: ArrivalRules,
    x: ArrivalReadings,
)
    ensures
        ({
            let f = arrival_facts(p, s, code, formation, rules, x);
            let favourite = p.favorite_clubs@.contains(s.destination_club_id);
            &&& favourite ==> !f.ambition_shock
            &&& favourite && !s.is_loan ==> f.prestige is DreamMove || f.prestige is Homecoming
            &&& f.prestige is Homecoming ==> favourite && !s.is_loan
        }),
{
}

/// A loan has its own wage: it brings neither a salary shock nor a boost.
pub proof fn lemma_loan_wages(
    p: Player,
    s: PendingSigning,
    code: Seq<char>,
    formation: Option<Seq<PositionSlot>>,
    rules: ArrivalRules,
    x: ArrivalReadings,
)
    requires
        s.is_loan,
    ensures
        !arrival_facts(p, s, code, formation, rules, x).salary_shock,
        !arrival_facts(p, s, code, formation, rules, x).salary_boost,
{
}

/// Whether `after` is `before` with events of today added.
pub open spec fn adds_today(before: Seq<EventView>, after: Seq<EventView>) -> bool {
    &&& before.is_prefix_of(after)
    &&& forall|i: int| before.len() <= i < after.len() ==> (#[trigger] after[i]).days_ago == 0
}

/// Adding events of today, and then more of them, is adding events of today.
proof fn lemma_adds_today(a: Seq<EventView>, b: Seq<EventView>, c: Seq<EventView>)
    requires
        adds_today(a, b),
        adds_today(b, c),
    ensures
        adds_today(a, c),
{
    assert forall|i: int| 0 <= i < a.len() implies a[i] == c[i] by {
        assert(a[i] == b[i]);
        assert(b[i] == c[i]);
    }
    assert(a =~= c.take(a.len() as int));
    assert forall|i: int| a.len() <= i < c.len() implies (#[trigger] c[i]).days_ago == 0 by {
        if i < b.len() {
            assert(b[i].days_ago == 0);
            assert(b[i] == c[i]);
        }
    }
}

/// The reactions to standing add three events of today at most.
proof fn lemma_standing_adds(log: Seq<EventView>, f: ArrivalFacts, m: ArrivalMagnitudes)
    ensures
        adds_today(log, log_standing(log, f, m)),
        log_standing(log, f, m).len() <= log.len() + 3,
{
}

/// The reactions to the contract add three events of today at most.
proof fn lemma_terms_add(
    log: Seq<EventView>,
    f: ArrivalFacts,
    m: ArrivalMagnitudes,
    ratio: Measure,
)
    ensures
        adds_today(log, log_terms(log, f, m, ratio)),
        log_terms(log, f, m, ratio).len() <= log.len() + 3,
{
}

/// The reactions to daily life add two events of today at most.
proof fn lemma_daily_life_adds(log: Seq<EventView>, f: ArrivalFacts, is_loan: bool)
    ensures
        adds_today(log, log_daily_life(log, f, is_loan)),
        log_daily_life(log, f, is_loan).len() <= log.len() + 2,
{
}

/// The fulfilled wishes add two events of today at most.
proof fn lemma_wishes_add(log: Seq<EventView>, f: ArrivalFacts, m: ArrivalMagnitudes)
    ensures
        adds_today(log, log_wishes(log, f, m)),
        log_wishes(log, f, m).len() <= log.len() + 2,
{
}

/// The first day leaves what is in the log as it is and adds events of today, ten at most.
pub proof fn lemma_first_day_only_adds(
    log: Seq<EventView>,
    f: ArrivalFacts,
    m: ArrivalMagnitudes,
    ratio: Measure,
    is_loan: bool,
)
    ensures
        adds_today(log, log_arrival(log, f, m, ratio, is_loan)),
        log_arrival(log, f, m, ratio, is_loan).len() <= log.len() + 10,
{
    let standing = log_standing(log, f, m);
    let terms = log_terms(standing, f, m, ratio);
    let daily = log_daily_life(terms, f, is_loan);
    lemma_standing_adds(log, f, m);
    lemma_terms_add(standing, f, m, ratio);
    lemma_daily_life_adds(terms, f, is_loan);
    lemma_wishes_add(daily, f, m);
    lemma_adds_today(log, standing, terms);
    lemma_adds_today(log, terms, daily);
    lemma_adds_today(log, daily, log_wishes(daily, f, m));
}

/// An event of a log is still there after events were added.
proof fn lemma_recent_stays(
    before: Seq<EventView>,
    after: Seq<EventView>,
    event_type: HappinessEventType,
    days: int,
)
    requires
        before.is_prefix_of(after),
    ensures
        crate::happiness::recent(before, event_type, days) ==> crate::happiness::recent(
            after,
            event_type,
            days,
        ),
{
    if crate::happiness::recent(before, event_type, days) {
        let i = choose|i: int|
            0 <= i < before.len() && (#[trigger] before[i]).event_type == event_type
                && before[i].days_ago <= days;
        assert(after[i] == before[i]);
    }
}

/// A homecoming is logged once: a player who comes home to his favourite club does not log the
/// fulfilled wish to return a second time.
pub proof fn lemma_one_homecoming(
    log: Seq<EventView>,
    f: ArrivalFacts,
    m: ArrivalMagnitudes,
    ratio: Measure,
    is_loan: bool,
)
    requires
        f.prestige is Homecoming,
    ensures
        log_arrival(log, f, m, ratio, is_loan) == log_arrival(
            log,
            ArrivalFacts { home_return: false, ..f },
            m,
            ratio,
            is_loan,
        ),
{
    let standing = log_standing(log, f, m);
    let terms = log_terms(standing, f, m, ratio);
    let daily = log_daily_life(terms, f, is_loan);
    let unmoved = ArrivalFacts { home_return: false, ..f };
    let satisfied = log_wishes(daily, unmoved, m);
    let shocked = push_if(
        log,
        f.ambition_shock,
        EventView::today(HappinessEventType::AmbitionShock, m.ambition_shock, None),
    );
    let home = EventView::today(
        HappinessEventType::HomeReturnOpportunity,
        m.homecoming,
        Some(
            wish_context(
                HappinessEventCause::SupporterIdentification,
                CareerDesireKind::FavoriteClubHomecoming,
                CareerDesireEvidence::HomeOrFavouriteLink,
            ),
        ),
    );
    crate::happiness::lemma_cooldown_blocks(shocked, home, 120);
    let proud = crate::happiness::log_with_cooldown(shocked, home, 120);
    assert(crate::happiness::recent(proud, HappinessEventType::HomeReturnOpportunity, 120));
    assert(adds_today(proud, standing));
    lemma_terms_add(standing, f, m, ratio);
    lemma_daily_life_adds(terms, f, is_loan);
    lemma_wishes_add(daily, unmoved, m);
    lemma_adds_today(proud, standing, terms);
    lemma_adds_today(proud, terms, daily);
    lemma_adds_today(proud, daily, satisfied);
    lemma_recent_stays(proud, satisfied, HappinessEventType::HomeReturnOpportunity, 120);
}

/// A continental season satisfies once: within the year a second qualification adds nothing.
pub proof fn lemma_satisfied_once(
    log: Seq<EventView>,
    kind: CareerDesireKind,
    magnitude: Measure,
    again: CareerDesireKind,
    magnitude_again: Measure,
)
    ensures
        ({
            let after = crate::happiness::log_with_cooldown(
                log,
                continental_event(kind, magnitude),
                365,
            );
            crate::happiness::log_with_cooldown(
                after,
                continental_event(again, magnitude_again),
                365,
            ) == after
        }),
{
    crate::happiness::lemma_cooldown_blocks(log, continental_event(kind, magnitude), 365);
}

/// To have no place in the side at all is a hard grievance, which the budget leaves alone; to
/// play out of position is a soft one. A wage cut is always hard.
pub proof fn lemma_no_place_is_hard(magnitude: Measure)
    ensures
        hard_shock(HappinessEventType::RoleMismatch, Measure::of_halves(-16)),
        soft_shock(HappinessEventType::RoleMismatch, Measure::of_halves(-8)),
        hard_shock(HappinessEventType::SalaryShock, magnitude),
        !soft_shock(HappinessEventType::SalaryShock, magnitude),
{
    vstd::arithmetic::power2::lemma2_to64();
    vstd::arithmetic::power2::lemma_pow2_adds(23, 129);
    vstd::arithmetic::power2::lemma_pow2_adds(3, 149);
    vstd::arithmetic::power2::lemma_pow2_adds(23, 128);
    vstd::arithmetic::power2::lemma_pow2_adds(2, 149);
    crate::measure::lemma_one_positive();
    let eight = Measure { key: -1090519040i32 };
    assert(2 * eight.units() == -16 * crate::measure::one());
    let four = Measure { key: -1082130432i32 };
    assert(2 * four.units() == -8 * crate::measure::one());
}

/// No event is both soft and hard, so the budget counts none twice.
pub proof fn lemma_loads_apart(e: EventView)
    ensures
        !(in_soft_load(e) && in_hard_load(e)),
{
}

proof fn lemma_tells_if(
    log: Seq<EventView>,
    holds: bool,
    e: EventView,
    event_type: HappinessEventType,
)
    ensures
        log.is_prefix_of(push_if(log, holds, e)),
        tells(log, push_if(log, holds, e), event_type) <==> holds && e.event_type == event_type,
        weighs(log, push_if(log, holds, e), e.event_type, e.magnitude),
{
    lemma_tells_one(log, e, event_type);
}

/// What the reactions to standing tell.
proof fn lemma_standing_tells(
    log: Seq<EventView>,
    f: ArrivalFacts,
    m: ArrivalMagnitudes,
    t: HappinessEventType,
)
    ensures
        ({
            let after = log_standing(log, f, m);
            &&& tells(log, after, t) <==> match t {
                HappinessEventType::AmbitionShock => f.ambition_shock,
                HappinessEventType::DreamMove => f.prestige is DreamMove,
                HappinessEventType::DreamLoanOpportunity => f.prestige is DreamLoan,
                HappinessEventType::HomeReturnOpportunity => f.prestige is Homecoming
                    && !crate::happiness::recent(log, t, 120),
                HappinessEventType::JoiningElite => f.joining_elite,
                _ => false,
            }
            &&& weighs(log, after, HappinessEventType::AmbitionShock, m.ambition_shock)
            &&& weighs(log, after, HappinessEventType::DreamMove, m.dream_move)
            &&& weighs(log, after, HappinessEventType::DreamLoanOpportunity, m.dream_loan)
            &&& weighs(log, after, HappinessEventType::HomeReturnOpportunity, m.homecoming)
            &&& weighs(log, after, HappinessEventType::JoiningElite, m.joining_elite)
        }),
{
    let shock = EventView::today(HappinessEventType::AmbitionShock, m.ambition_shock, None);
    let shocked = push_if(log, f.ambition_shock, shock);
    let quiet = ArrivalFacts { joining_elite: false, ..f };
    let proud = log_standing(log, quiet, m);
    let joined = EventView::today(HappinessEventType::JoiningElite, m.joining_elite, None);
    let after = log_standing(log, f, m);
    assert(after == push_if(proud, f.joining_elite, joined));
    let home = HappinessEventType::HomeReturnOpportunity;
    lemma_tells_if(log, f.ambition_shock, shock, t);
    lemma_tells_if(log, f.ambition_shock, shock, home);
    crate::happiness::lemma_recent_grows(log, shocked, home, 120);
    if proud.len() > shocked.len() {
        let e = proud.last();
        assert(proud =~= shocked.push(e));
        lemma_tells_one(shocked, e, t);
    } else {
        assert(proud == shocked);
        lemma_tells_one(shocked, shock, t);
    }
    lemma_tells_if(proud, f.joining_elite, joined, t);
    lemma_tells_both(log, shocked, proud, t);
    lemma_tells_both(log, proud, after, t);
}

/// What the reactions to the contract tell.
proof fn lemma_terms_tell(
    log: Seq<EventView>,
    f: ArrivalFacts,
    m: ArrivalMagnitudes,
    ratio: Measure,
    t: HappinessEventType,
)
    ensures
        ({
            let after = log_terms(log, f, m, ratio);
            &&& tells(log, after, t) <==> match t {
                HappinessEventType::SalaryShock => f.salary_shock,
                HappinessEventType::SalaryBoost => f.salary_boost,
                HappinessEventType::ShirtNumberPromotion => f.shirt_points > 0,
                _ => false,
            }
            &&& weighs(log, after, HappinessEventType::SalaryShock, m.salary_shock)
            &&& weighs(log, after, HappinessEventType::SalaryBoost, m.salary_boost)
            &&& weighs(
                log,
                after,
                HappinessEventType::ShirtNumberPromotion,
                Measure::of_halves(2 * f.shirt_points),
            )
        }),
{
    let cut = EventView::today(
        HappinessEventType::SalaryShock,
        m.salary_shock,
        Some(wage_context(ContractEventKind::SalaryShock, ratio)),
    );
    let raise = EventView::today(
        HappinessEventType::SalaryBoost,
        m.salary_boost,
        Some(wage_context(ContractEventKind::SalaryBoost, ratio)),
    );
    let shirt = EventView::today(
        HappinessEventType::ShirtNumberPromotion,
        Measure::of_halves(2 * f.shirt_points),
        None,
    );
    let a = push_if(log, f.salary_shock, cut);
    let b = push_if(a, f.salary_boost, raise);
    lemma_tells_if(log, f.salary_shock, cut, t);
    lemma_tells_if(a, f.salary_boost, raise, t);
    lemma_tells_if(b, f.shirt_points > 0, shirt, t);
    lemma_tells_both(log, a, b, t);
    lemma_tells_both(log, b, push_if(b, f.shirt_points > 0, shirt), t);
}

/// What the reactions to daily life tell.
proof fn lemma_daily_life_tells(
    log: Seq<EventView>,
    f: ArrivalFacts,
    is_loan: bool,
    t: HappinessEventType,
)
    ensures
        ({
            let after = log_daily_life(log, f, is_loan);
            &&& tells(log, after, t) <==> match t {
                HappinessEventType::FeelingIsolated => f.language_barrier,
                HappinessEventType::RoleMismatch => f.role == Some(RoleFit::SameGroup) || f.role
                    == Some(RoleFit::Nowhere),
                _ => false,
            }
            &&& weighs(
                log,
                after,
                HappinessEventType::FeelingIsolated,
                if is_loan {
                    Measure::of_halves(-6)
                } else {
                    Measure::of_halves(-10)
                },
            )
            &&& weighs(
                log,
                after,
                HappinessEventType::RoleMismatch,
                if f.role == Some(RoleFit::SameGroup) {
                    Measure::of_halves(-8)
                } else {
                    Measure::of_halves(-16)
                },
            )
        }),
{
    let lonely = EventView::today(
        HappinessEventType::FeelingIsolated,
        Measure::of_halves(
            if is_loan {
                -6
            } else {
                -10
            },
        ),
        Some(barrier_context()),
    );
    let misfit = EventView::today(
        HappinessEventType::RoleMismatch,
        Measure::of_halves(
            if f.role == Some(RoleFit::SameGroup) {
                -8
            } else {
                -16
            },
        ),
        Some(mismatch_context()),
    );
    let a = push_if(log, f.language_barrier, lonely);
    let out = f.role == Some(RoleFit::SameGroup) || f.role == Some(RoleFit::Nowhere);
    lemma_tells_if(log, f.language_barrier, lonely, t);
    lemma_tells_if(a, out, misfit, t);
    lemma_tells_both(log, a, push_if(a, out, misfit), t);
}

/// What the fulfilled wishes tell.
proof fn lemma_wishes_tell(
    log: Seq<EventView>,
    f: ArrivalFacts,
    m: ArrivalMagnitudes,
    t: HappinessEventType,
)
    ensures
        ({
            let after = log_wishes(log, f, m);
            &&& tells(log, after, t) <==> match t {
                HappinessEventType::ContinentalAmbitionSatisfied => f.continental is Some
                    && !crate::happiness::recent(log, t, 120),
                HappinessEventType::HomeReturnOpportunity => f.home_return
                    && !crate::happiness::recent(log, t, 120),
                _ => false,
            }
            &&& weighs(log, after, HappinessEventType::ContinentalAmbitionSatisfied, m.continental)
            &&& weighs(log, after, HappinessEventType::HomeReturnOpportunity, m.home_return)
        }),
{
    let home = HappinessEventType::HomeReturnOpportunity;
    let satisfied = log_wishes(log, ArrivalFacts { home_return: false, ..f }, m);
    let after = log_wishes(log, f, m);
    if f.continental is Some {
        let e = continental_event(f.continental->0, m.continental);
        lemma_tells_one(log, e, t);
        lemma_tells_one(log, e, home);
    }
    lemma_tells_one(log, continental_event(CareerDesireKind::CopaLibertadoresAmbition, m.continental), t);
    assert(log.is_prefix_of(satisfied));
    assert(!tells(log, satisfied, home));
    crate::happiness::lemma_recent_grows(log, satisfied, home, 120);
    if after.len() > satisfied.len() {
        assert(after =~= satisfied.push(after.last()));
        lemma_tells_one(satisfied, after.last(), t);
    } else {
        assert(after == satisfied);
    }
    lemma_tells_one(satisfied, satisfied.last(), t);
    lemma_tells_both(log, satisfied, after, t);
}

/// The log after a player took up a signing.
pub open spec fn first_day(
    p: Player,
    s: PendingSigning,
    code: Seq<char>,
    formation: Option<Seq<PositionSlot>>,
    rules: ArrivalRules,
    x: ArrivalReadings,
    m: ArrivalMagnitudes,
) -> Seq<EventView> {
    log_arrival(
        p.happiness@,
        arrival_facts(p, s, code, formation, rules, x),
        m,
        x.wage_ratio,
        s.is_loan,
    )
}

/// What a first day tells, by the facts.
proof fn lemma_first_day_tells(
    p: Player,
    s: PendingSigning,
    code: Seq<char>,
    formation: Option<Seq<PositionSlot>>,
    rules: ArrivalRules,
    x: ArrivalReadings,
    m: ArrivalMagnitudes,
    t: HappinessEventType,
)
    ensures
        ({
            let log = p.happiness@;
            let f = arrival_facts(p, s, code, formation, rules, x);
            let after = first_day(p, s, code, formation, rules, x, m);
            &&& tells(log, after, t) <==> match t {
                HappinessEventType::AmbitionShock => f.ambition_shock,
                HappinessEventType::DreamMove => f.prestige is DreamMove,
                HappinessEventType::DreamLoanOpportunity => f.prestige is DreamLoan,
                HappinessEventType::JoiningElite => f.joining_elite,
                HappinessEventType::SalaryShock => f.salary_shock,
                HappinessEventType::SalaryBoost => f.salary_boost,
                HappinessEventType::ShirtNumberPromotion => f.shirt_points > 0,
                HappinessEventType::FeelingIsolated => f.language_barrier,
                HappinessEventType::RoleMismatch => f.role == Some(RoleFit::SameGroup) || f.role
                    == Some(RoleFit::Nowhere),
                HappinessEventType::ContinentalAmbitionSatisfied => f.continental is Some
                    && !crate::happiness::recent(log, t, 120),
                HappinessEventType::HomeReturnOpportunity => (f.prestige is Homecoming
                    || f.home_return) && !crate::happiness::recent(log, t, 120),
                _ => false,
            }
            &&& t is AmbitionShock ==> weighs(log, after, t, m.ambition_shock)
            &&& t is DreamMove ==> weighs(log, after, t, m.dream_move)
            &&& t is DreamLoanOpportunity ==> weighs(log, after, t, m.dream_loan)
            &&& t is JoiningElite ==> weighs(log, after, t, m.joining_elite)
            &&& t is SalaryShock ==> weighs(log, after, t, m.salary_shock)
            &&& t is SalaryBoost ==> weighs(log, after, t, m.salary_boost)
            &&& t is ContinentalAmbitionSatisfied ==> weighs(log, after, t, m.continental)
            &&& t is HomeReturnOpportunity ==> weighs(
                log,
                after,
                t,
                if f.prestige is Homecoming {
                    m.homecoming
                } else {
                    m.home_return
                },
            )
            &&& t is ShirtNumberPromotion ==> weighs(
                log,
                after,
                t,
                Measure::of_halves(2 * f.shirt_points),
            )
            &&& t is FeelingIsolated ==> weighs(
                log,
                after,
                t,
                if s.is_loan {
                    Measure::of_halves(-6)
                } else {
                    Measure::of_halves(-10)
                },
            )
            &&& t is RoleMismatch ==> weighs(
                log,
                after,
                t,
                if f.role == Some(RoleFit::SameGroup) {
                    Measure::of_halves(-8)
                } else {
                    Measure::of_halves(-16)
                },
            )
        }),
{
    let log = p.happiness@;
    let f = arrival_facts(p, s, code, formation, rules, x);
    let a = log_standing(log, f, m);
    let b = log_terms(a, f, m, x.wage_ratio);
    let c = log_daily_life(b, f, s.is_loan);
    let d = log_wishes(c, f, m);
    lemma_standing_adds(log, f, m);
    lemma_terms_add(a, f, m, x.wage_ratio);
    lemma_daily_life_adds(b, f, s.is_loan);
    lemma_wishes_add(c, f, m);
    lemma_standing_tells(log, f, m, t);
    lemma_terms_tell(a, f, m, x.wage_ratio, t);
    lemma_daily_life_tells(b, f, s.is_loan, t);
    lemma_wishes_tell(c, f, m, t);
    lemma_adds_today(log, a, b);
    lemma_adds_today(log, b, c);
    lemma_tells_both(log, a, b, t);
    lemma_tells_both(log, b, c, t);
    lemma_tells_both(log, c, d, t);
    crate::happiness::lemma_recent_grows(log, c, t, 120);
}

/// A club that falls short of what the player's ambition asks for by more than the threshold is a
/// shock, and one that falls short by no more, or not at all, is none. Modest players and
/// favourite clubs know no such shock.
pub proof fn lemma_ambition_shock(
    p: Player,
    s: PendingSigning,
    code: Seq<char>,
    formation: Option<Seq<PositionSlot>>,
    rules: ArrivalRules,
    x: ArrivalReadings,
    m: ArrivalMagnitudes,
)
    ensures
        ({
            let after = first_day(p, s, code, formation, rules, x, m);
            let shock = tells(p.happiness@, after, HappinessEventType::AmbitionShock);
            &&& shock ==> x.ambition_gap.units() > rules.ambition_shock_threshold.units()
            &&& shock ==> p.attributes.ambition.units() > rules.ambition_shock_min_ambition.units()
            &&& shock ==> !p.favorite_clubs@.contains(s.destination_club_id)
            &&& x.ambition_gap.units() > rules.ambition_shock_threshold.units()
                && p.attributes.ambition.units() > rules.ambition_shock_min_ambition.units()
                && !p.favorite_clubs@.contains(s.destination_club_id) ==> shock
            &&& weighs(
                p.happiness@,
                after,
                HappinessEventType::AmbitionShock,
                m.ambition_shock,
            )
        }),
{
    lemma_first_day_tells(p, s, code, formation, rules, x, m, HappinessEventType::AmbitionShock);
}

/// The further a club falls short, the surer the shock: where a move is one, so is the same move
/// with a larger gap, whatever else is measured of it.
pub proof fn lemma_shock_grows_with_gap(
    p: Player,
    s: PendingSigning,
    code: Seq<char>,
    formation: Option<Seq<PositionSlot>>,
    rules: ArrivalRules,
    x: ArrivalReadings,
    y: ArrivalReadings,
    m: ArrivalMagnitudes,
)
    requires
        x.ambition_gap.units() <= y.ambition_gap.units(),
        tells(
            p.happiness@,
            first_day(p, s, code, formation, rules, x, m),
            HappinessEventType::AmbitionShock,
        ),
    ensures
        tells(
            p.happiness@,
            first_day(p, s, code, formation, rules, y, m),
            HappinessEventType::AmbitionShock,
        ),
{
    lemma_ambition_shock(p, s, code, formation, rules, x, m);
    lemma_ambition_shock(p, s, code, formation, rules, y, m);
}

/// A dream move is permanent, from a known place that is smaller by 2000 points of the club's
/// reputation or by 1500 of the league's, to a club above what the player dreams of and more than
/// 1000 above his own name. From 32 on it takes 2500, from 35 on an elite club as well.
pub proof fn lemma_dream_move(
    p: Player,
    s: PendingSigning,
    code: Seq<char>,
    formation: Option<Seq<PositionSlot>>,
    rules: ArrivalRules,
    x: ArrivalReadings,
    m: ArrivalMagnitudes,
)
    ensures
        ({
            let after = first_day(p, s, code, formation, rules, x, m);
            let name = p.player_attributes.world_reputation;
            let known = s.source_club_reputation > 0 || s.source_league_reputation > 0;
            let larger = x.club_points >= s.source_club_reputation + 2000 || x.league_reputation
                >= s.source_league_reputation + 1500;
            let one = crate::measure::one();
            &&& tells(p.happiness@, after, HappinessEventType::DreamMove) <==> {
                &&& !s.is_loan && known && larger
                &&& x.dream_surplus.units() >= rules.dream_move_threshold.units()
                &&& x.club_reputation.units() > (name + 1000) * one
                &&& x.age < 32 || x.club_reputation.units() >= (name + 2500) * one
                &&& x.age < 35 || x.club_reputation.units() >= rules.elite_club_reputation.units()
            }
            &&& weighs(p.happiness@, after, HappinessEventType::DreamMove, m.dream_move)
        }),
{
    lemma_first_day_tells(p, s, code, formation, rules, x, m, HappinessEventType::DreamMove);
}

/// A loan of a lifetime is a loan, below the age of 35, from a known place that is smaller by
/// 2000 points of the club's reputation or by 1500 of the league's, to an elite club more than
/// 1000 above the player's name.
pub proof fn lemma_dream_loan(
    p: Player,
    s: PendingSigning,
    code: Seq<char>,
    formation: Option<Seq<PositionSlot>>,
    rules: ArrivalRules,
    x: ArrivalReadings,
    m: ArrivalMagnitudes,
)
    ensures
        ({
            let after = first_day(p, s, code, formation, rules, x, m);
            let name = p.player_attributes.world_reputation;
            let known = s.source_club_reputation > 0 || s.source_league_reputation > 0;
            let larger = x.club_points >= s.source_club_reputation + 2000 || x.league_reputation
                >= s.source_league_reputation + 1500;
            &&& tells(p.happiness@, after, HappinessEventType::DreamLoanOpportunity) <==> {
                &&& s.is_loan && known && larger && x.age < 35
                &&& x.club_reputation.units() >= rules.elite_club_reputation.units()
                &&& x.club_reputation.units() > (name + 1000) * crate::measure::one()
            }
            &&& weighs(p.happiness@, after, HappinessEventType::DreamLoanOpportunity, m.dream_loan)
            &&& !(tells(p.happiness@, after, HappinessEventType::DreamLoanOpportunity) && tells(
                p.happiness@,
                after,
                HappinessEventType::DreamMove,
            ))
        }),
{
    let t = HappinessEventType::DreamLoanOpportunity;
    lemma_first_day_tells(p, s, code, formation, rules, x, m, t);
    lemma_first_day_tells(p, s, code, formation, rules, x, m, HappinessEventType::DreamMove);
}

/// A return is told of a permanent move to a favourite club that is no dream move, and of a move
/// home by a player who wished for it: to a favourite club, or to where he speaks the language
/// and has a mother tongue. It is told once in 120 days.
pub proof fn lemma_return(
    p: Player,
    s: PendingSigning,
    code: Seq<char>,
    formation: Option<Seq<PositionSlot>>,
    rules: ArrivalRules,
    x: ArrivalReadings,
    m: ArrivalMagnitudes,
)
    ensures
        ({
            let log = p.happiness@;
            let after = first_day(p, s, code, formation, rules, x, m);
            let t = HappinessEventType::HomeReturnOpportunity;
            let favourite = p.favorite_clubs@.contains(s.destination_club_id);
            let dream = tells(log, after, HappinessEventType::DreamMove);
            let native = exists|i: int|
                0 <= i < p.languages@.len() && (#[trigger] p.languages@[i]).is_native;
            let speaks = crate::player::speaks_local(p.languages@, code);
            let wished = s.had_return_home_desire && (favourite || speaks && native);
            &&& tells(log, after, t) <==> (wished || favourite && !s.is_loan && !dream)
                && !crate::happiness::recent(log, t, 120)
            &&& favourite && !s.is_loan && !dream ==> weighs(log, after, t, m.homecoming)
            &&& !(favourite && !s.is_loan && !dream) ==> weighs(log, after, t, m.home_return)
        }),
{
    let t = HappinessEventType::HomeReturnOpportunity;
    lemma_first_day_tells(p, s, code, formation, rules, x, m, t);
    lemma_first_day_tells(p, s, code, formation, rules, x, m, HappinessEventType::DreamMove);
}

/// Joining the elite is felt at an elite club that is far enough above the player.
pub proof fn lemma_joining_elite(
    p: Player,
    s: PendingSigning,
    code: Seq<char>,
    formation: Option<Seq<PositionSlot>>,
    rules: ArrivalRules,
    x: ArrivalReadings,
    m: ArrivalMagnitudes,
)
    ensures
        ({
            let after = first_day(p, s, code, formation, rules, x, m);
            &&& tells(p.happiness@, after, HappinessEventType::JoiningElite)
                <==> x.club_reputation.units() >= rules.elite_club_reputation.units()
                && x.club_lead.units() >= rules.elite_club_min_player_gap.units()
            &&& weighs(p.happiness@, after, HappinessEventType::JoiningElite, m.joining_elite)
        }),
{
    lemma_first_day_tells(p, s, code, formation, rules, x, m, HappinessEventType::JoiningElite);
}

/// A permanent move for less than the lower ratio of the old wage is a shock, one for the upper
/// ratio or more a boost. Without both wages, or on loan, it is neither; and where the lower ratio
/// is no higher than the upper one, no move is both.
pub proof fn lemma_wage_news(
    p: Player,
    s: PendingSigning,
    code: Seq<char>,
    formation: Option<Seq<PositionSlot>>,
    rules: ArrivalRules,
    x: ArrivalReadings,
    m: ArrivalMagnitudes,
)
    ensures
        ({
            let after = first_day(p, s, code, formation, rules, x, m);
            let shock = tells(p.happiness@, after, HappinessEventType::SalaryShock);
            let boost = tells(p.happiness@, after, HappinessEventType::SalaryBoost);
            let compared = !s.is_loan && p.contract is Some && s.previous_salary is Some
                && s.previous_salary->0 > 0;
            &&& shock <==> compared && x.wage_ratio.units() < rules.salary_shock_ratio.units()
            &&& boost <==> compared && x.wage_ratio.units() >= rules.salary_boost_ratio.units()
            &&& rules.salary_shock_ratio.units() <= rules.salary_boost_ratio.units() ==> !(shock
                && boost)
            &&& weighs(p.happiness@, after, HappinessEventType::SalaryShock, m.salary_shock)
            &&& weighs(p.happiness@, after, HappinessEventType::SalaryBoost, m.salary_boost)
        }),
{
    lemma_first_day_tells(p, s, code, formation, rules, x, m, HappinessEventType::SalaryShock);
    lemma_first_day_tells(p, s, code, formation, rules, x, m, HappinessEventType::SalaryBoost);
}

/// A number up to eleven on the shirt lifts by two points, an iconic one (7, 9 or 10) by twice as
/// much, and no other number does.
pub proof fn lemma_shirt_pride(
    p: Player,
    s: PendingSigning,
    code: Seq<char>,
    formation: Option<Seq<PositionSlot>>,
    rules: ArrivalRules,
    x: ArrivalReadings,
    m: ArrivalMagnitudes,
)
    ensures
        ({
            let after = first_day(p, s, code, formation, rules, x, m);
            let t = HappinessEventType::ShirtNumberPromotion;
            let number = if p.contract is Some {
                p.contract->0.shirt_number
            } else {
                None
            };
            let iconic = number is Some && (number->0 == 7 || number->0 == 9 || number->0 == 10);
            &&& tells(p.happiness@, after, t) <==> number is Some && 1 <= number->0 <= 11
            &&& forall|i: int|
                p.happiness@.len() <= i < after.len() && (#[trigger] after[i]).event_type == t
                    ==> after[i].magnitude.units() == (if iconic {
                    4int
                } else {
                    2
                }) * crate::measure::one()
        }),
{
    let t = HappinessEventType::ShirtNumberPromotion;
    lemma_first_day_tells(p, s, code, formation, rules, x, m, t);
    crate::measure::lemma_halves(8);
    crate::measure::lemma_halves(4);
}

/// The first day abroad is lonely exactly for who does not speak the language, by five points, or
/// three on loan.
pub proof fn lemma_lonely_first_day(
    p: Player,
    s: PendingSigning,
    code: Seq<char>,
    formation: Option<Seq<PositionSlot>>,
    rules: ArrivalRules,
    x: ArrivalReadings,
    m: ArrivalMagnitudes,
)
    ensures
        ({
            let after = first_day(p, s, code, formation, rules, x, m);
            let t = HappinessEventType::FeelingIsolated;
            &&& tells(p.happiness@, after, t) <==> !crate::player::speaks_local(
                p.languages@,
                code,
            )
            &&& forall|i: int|
                p.happiness@.len() <= i < after.len() && (#[trigger] after[i]).event_type == t
                    ==> after[i].magnitude.units() == if s.is_loan {
                    -3 * crate::measure::one()
                } else {
                    -5 * crate::measure::one()
                }
        }),
{
    let t = HappinessEventType::FeelingIsolated;
    lemma_first_day_tells(p, s, code, formation, rules, x, m, t);
    crate::measure::lemma_halves(-6);
    crate::measure::lemma_halves(-10);
}

/// A formation without the player's position is a grievance: of four points where another
/// position of his part of the pitch is in it, of twice as much where none is.
pub proof fn lemma_no_place_in_the_side(
    p: Player,
    s: PendingSigning,
    code: Seq<char>,
    formation: Option<Seq<PositionSlot>>,
    rules: ArrivalRules,
    x: ArrivalReadings,
    m: ArrivalMagnitudes,
)
    ensures
        ({
            let after = first_day(p, s, code, formation, rules, x, m);
            let t = HappinessEventType::RoleMismatch;
            let slots = formation->0;
            let natural = exists|i: int|
                0 <= i < slots.len() && (#[trigger] slots[i]).position == p.position.position;
            let close = exists|i: int|
                0 <= i < slots.len() && (#[trigger] slots[i]).group == p.position.group;
            &&& tells(p.happiness@, after, t) <==> formation is Some && !natural
            &&& forall|i: int|
                p.happiness@.len() <= i < after.len() && (#[trigger] after[i]).event_type == t
                    ==> after[i].magnitude.units() == -(if close {
                    4int
                } else {
                    8
                }) * crate::measure::one()
            &&& extremes(p, s, arrival_facts(p, s, code, formation, rules, x).role, x).no_tactical_role
                <==> formation is Some && !natural && !close
        }),
{
    let t = HappinessEventType::RoleMismatch;
    lemma_first_day_tells(p, s, code, formation, rules, x, m, t);
    crate::measure::lemma_halves(-8);
    crate::measure::lemma_halves(-16);
}

/// A continental wish comes true at a club of at least 0.55, once in 120 days, and a wish for
/// Europe not in a country that is barred from it. The wish for the Libertadores is the one named
/// where there are both.
pub proof fn lemma_continental_wish(
    p: Player,
    s: PendingSigning,
    code: Seq<char>,
    formation: Option<Seq<PositionSlot>>,
    rules: ArrivalRules,
    x: ArrivalReadings,
    m: ArrivalMagnitudes,
)
    ensures
        ({
            let log = p.happiness@;
            let after = first_day(p, s, code, formation, rules, x, m);
            let t = HappinessEventType::ContinentalAmbitionSatisfied;
            let kind = arrival_facts(p, s, code, formation, rules, x).continental;
            &&& tells(log, after, t) <==> (s.had_european_desire || s.had_libertadores_desire)
                && !x.club_share.lt_hundredths(55) && !(s.had_european_desire && x.uefa_suspended)
                && !crate::happiness::recent(log, t, 120)
            &&& weighs(log, after, t, m.continental)
            &&& kind is Some ==> (kind->0 is CopaLibertadoresAmbition
                <==> s.had_libertadores_desire) && (kind->0 is EuropeanCompetitionAmbition
                <==> !s.had_libertadores_desire)
        }),
{
    let t = HappinessEventType::ContinentalAmbitionSatisfied;
    lemma_first_day_tells(p, s, code, formation, rules, x, m, t);
}

/// A first day tells of nothing else.
pub proof fn lemma_first_day_tells_no_more(
    p: Player,
    s: PendingSigning,
    code: Seq<char>,
    formation: Option<Seq<PositionSlot>>,
    rules: ArrivalRules,
    x: ArrivalReadings,
    m: ArrivalMagnitudes,
    t: HappinessEventType,
)
    requires
        tells(p.happiness@, first_day(p, s, code, formation, rules, x, m), t),
    ensures
        t is AmbitionShock || t is DreamMove || t is DreamLoanOpportunity
            || t is HomeReturnOpportunity || t is JoiningElite || t is SalaryShock
            || t is SalaryBoost || t is ShirtNumberPromotion || t is FeelingIsolated
            || t is RoleMismatch || t is ContinentalAmbitionSatisfied,
{
    lemma_first_day_tells(p, s, code, formation, rules, x, m, t);
}

/// A heavy first day is realistic for who earns half of his old wage or less, comes down by 4000
/// points of his old club or 5000 of his own name, or is quarrelsome; and the budget for such a
/// day is the larger one exactly where one of the conditions holds.
pub proof fn lemma_heavy_first_days(
    p: Player,
    s: PendingSigning,
    role: Option<RoleFit>,
    x: ArrivalReadings,
)
    ensures
        ({
            let e = extremes(p, s, role, x);
            let one = crate::measure::one();
            &&& e.huge_salary_cut <==> p.contract is Some && s.previous_salary is Some
                && s.previous_salary->0 > 0 && 2 * x.wage_ratio.units() <= one
            &&& e.dramatic_step_down <==> x.club_points + 4000 <= s.source_club_reputation
                || x.club_points + 5000 <= p.player_attributes.world_reputation
            &&& e.high_controversy <==> p.attributes.controversy.units() >= 15 * one
            &&& e.some() <==> !(!e.huge_salary_cut && !e.no_tactical_role && !e.dramatic_step_down
                && !e.high_controversy)
        }),
{
}

/// A veteran feels less of a move: from 32 on six tenths of a dream move, seven tenths of a loan
/// of a lifetime or a homecoming, and nobody feels more for being older.
pub proof fn lemma_veterans_feel_less(kind: Prestige, age: int, older: int)
    requires
        age <= older,
    ensures
        age_percent(kind, older) <= age_percent(kind, age),
        older < 32 ==> age_percent(kind, older) == 100,
        32 <= age && kind is DreamMove ==> 10 * age_percent(kind, age) == 6 * age_percent(kind, 0),
        32 <= age && (kind is DreamLoan || kind is Homecoming) ==> 10 * age_percent(kind, age) == 7
            * age_percent(kind, 0),
        kind is Ordinary ==> age_percent(kind, age) == age_percent(kind, older),
{
}

/// A playing-time promise runs from the day of the move for its horizon, and goes with a move
/// exactly where the horizon is a day at least.
pub proof fn lemma_promise(now: Date, horizon_days: i64)
    ensures
        implied_promise(now, horizon_days) is Some <==> horizon_days >= 1,
        implied_promise(now, horizon_days) is Some ==> implied_promise(now, horizon_days)->0.made_on
            == now && implied_promise(now, horizon_days)->0.horizon_days == horizon_days,
{
}

/// What a season in a continental competition fulfils: the wish that was voiced within the last
/// 240 days, the one for the Libertadores before the one for Europe, and none that was not.
pub proof fn lemma_qualification(log: Seq<EventView>, kind: CareerDesireKind)
    ensures
        ({
            let wish = qualification_wish(log);
            let libertadores = exists|i: int|
                0 <= i < log.len() && (#[trigger] log[i]).event_type
                    is WantsCopaLibertadores && log[i].days_ago <= 240;
            let europe = exists|i: int|
                0 <= i < log.len() && (#[trigger] log[i]).event_type
                    is WantsEuropeanCompetition && log[i].days_ago <= 240;
            &&& wish is None <==> !libertadores && !europe
            &&& wish == Some(CareerDesireKind::CopaLibertadoresAmbition) <==> libertadores
            &&& wish == Some(CareerDesireKind::EuropeanCompetitionAmbition) <==> europe
                && !libertadores
        }),
{
}

/// The budget of a first day scales what is soft and today's and negative, and leaves what is
/// hard: every wage cut, and every missing place of six points or more.
pub proof fn lemma_what_the_budget_scales(e: EventView)
    ensures
        in_soft_load(e) || in_hard_load(e) ==> e.days_ago == 0 && e.magnitude.units() < 0,
        e.days_ago == 0 && e.magnitude.units() < 0 ==> {
            &&& e.event_type is SalaryShock ==> in_hard_load(e)
            &&& e.event_type is RoleMismatch ==> (in_hard_load(e) <==> e.magnitude.units() <= -6
                * crate::measure::one())
            &&& e.event_type is RoleMismatch ==> (in_soft_load(e) <==> !in_hard_load(e))
            &&& in_hard_load(e) ==> e.event_type is SalaryShock || e.event_type is RoleMismatch
            &&& e.event_type is AmbitionShock || e.event_type is FeelingIsolated || e.event_type
                is OverawedByEliteClub || e.event_type is RolePathBlockedAtEliteClub
                || e.event_type is DressingRoomStatusShock || e.event_type is TooGoodForLevel
                || e.event_type is StepDownEmbarrassment || e.event_type
                is TrainingStandardFrustration || e.event_type is FanExpectationBurden
                || e.event_type is MediaSpotlightPressure || e.event_type is LoanLevelMismatch
                <==> in_soft_load(e) && !(e.event_type is RoleMismatch)
        },
{
    crate::measure::lemma_one_positive();
}

/// What a first day may weigh: ten points, and 22 where a wage was halved, no role is left, the
/// step down is dramatic or the character quarrelsome. One condition is enough, and no condition
/// makes a day lighter.
pub proof fn lemma_budget_of_a_first_day(e: TransferShockExtremes)
    ensures
        ({
            let may = TransferShockBudget::standard().allowance(e);
            let calm = !e.huge_salary_cut && !e.no_tactical_role && !e.dramatic_step_down
                && !e.high_controversy;
            &&& may == -10 <==> calm
            &&& may == -22 <==> !calm
        }),
{
}

} // verus!
