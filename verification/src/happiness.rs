//! The log of happiness events that a player carries, and the questions that
//! other rules ask of it.

use crate::measure::Measure;
#[allow(unused_imports)]
use vstd::prelude::*;

verus! {

/// What happened to a player's mood.
#[derive(Clone, Copy, Debug, PartialEq, Eq, Structural)]
pub enum HappinessEventType {
    AdaptationBreakthrough,
    AgentStirsInterest,
    AmbitionShock,
    ColdShoulderOverRivalPast,
    ConflictWithTeammate,
    ContinentalAmbitionSatisfied,
    DreamLoanOpportunity,
    DreamMove,
    DressingRoomStatusShock,
    EliteTrainingLift,
    FanExpectationBurden,
    FeelingIsolated,
    HomeReturnOpportunity,
    InterestFromBiggerClub,
    JoiningElite,
    LoanLevelMismatch,
    ManagerCriticism,
    ManagerDiscipline,
    MatchDropped,
    MediaSpotlightPressure,
    OverawedByEliteClub,
    PoorTraining,
    ProvedLevelAfterMove,
    RoleMismatch,
    RolePathBlockedAtEliteClub,
    SalaryBoost,
    SalaryShock,
    SeniorMentorSupport,
    SettledIntoSquad,
    ShirtNumberPromotion,
    StepDownEmbarrassment,
    TeammateBonding,
    TooGoodForLevel,
    TopClubOpportunity,
    TrainingStandardFrustration,
    TransferRumour,
    TransferSpeculationDistracts,
    TrustedAfterStepUp,
    WantedByBiggerClub,
    WantsCopaLibertadores,
    WantsEuropeanCompetition,
    WantsReturnHome,
}

/// The root of an event.
#[derive(Clone, Copy, Debug, PartialEq, Eq, Structural)]
pub enum HappinessEventCause {
    AdaptationIsolation,
    DressingRoomLift,
    ManagerSupport,
    MediaPressure,
    Other,
    PositionalRivalry,
    ReputationAdmiration,
    ReputationTension,
    SupporterIdentification,
    TacticalDisagreement,
    TrainingFriction,
    TrainingPartnership,
}

/// Where an event plays out.
#[derive(Clone, Copy, Debug, PartialEq, Eq, Structural)]
pub enum HappinessEventScope {
    Boardroom,
    DressingRoom,
    MatchDay,
    Media,
    Personal,
    TrainingGround,
}

/// How severe an event is.
#[derive(Clone, Copy, Debug, PartialEq, Eq, Structural)]
pub enum HappinessEventSeverity {
    /// As severe as its magnitude says.
    ByMagnitude,
    /// Moderate, whatever its magnitude.
    Moderate,
}

/// A fact that supports an event.
#[derive(Clone, Copy, Debug, PartialEq, Eq, Structural)]
pub enum HappinessEventEvidence {
    AboveSquadStandard,
    BelowSquadStandard,
    BlockedByDepth,
    ExcellentPerformance,
    HighAmbition,
    HighFeePressure,
    HighProfessionalism,
    JoinedEliteClub,
    LanguageBarrier,
    LowPressurePersonality,
    ManagerTrust,
    MediaIncident,
    NewSigningStillSettling,
    NoInnerCircleYet,
    ReputationGap,
    SamePositionCompetition,
    SharedNationality,
    StrongExistingBond,
    TrainingLevelGap,
    TrainingStandardsMismatch,
}

/// What an event is likely to lead to.
#[derive(Clone, Copy, Debug, PartialEq, Eq, Structural)]
pub enum HappinessEventFollowUp {
    ContractRequestRisk,
    LikelyToSettle,
    ManagerInterventionRisk,
    ManagerTrustRising,
    PressureBuilding,
    SettlingInProgress,
    TrendImproving,
}

/// A wish about the further career.
#[derive(Clone, Copy, Debug, PartialEq, Eq, Structural)]
pub enum CareerDesireKind {
    CopaLibertadoresAmbition,
    EuropeanCompetitionAmbition,
    FavoriteClubHomecoming,
    ReturnHomeAfterPoorAdaptation,
}

/// A fact that supports a wish.
#[derive(Clone, Copy, Debug, PartialEq, Eq, Structural)]
pub enum CareerDesireEvidence {
    DifferentContinent,
    HighAmbition,
    HomeOrFavouriteLink,
    LowAdaptability,
    LowClubFit,
    NoCompatriotSupport,
    NoLocalLanguage,
    PoorAdaptationScore,
    RepeatedIsolation,
}

/// The wish behind an event.
#[derive(Debug)]
pub struct CareerDesire {
    pub kind: CareerDesireKind,
    pub evidence: Vec<CareerDesireEvidence>,
    pub days_at_club: Option<u32>,
    pub adaptation_score: Option<Measure>,
}

/// The content of a [`CareerDesire`].
#[verifier::ext_equal]
pub struct DesireView {
    pub kind: CareerDesireKind,
    pub evidence: Seq<CareerDesireEvidence>,
    pub days_at_club: Option<u32>,
    pub adaptation_score: Option<Measure>,
}

impl View for CareerDesire {
    type V = DesireView;

    open spec fn view(&self) -> DesireView {
        DesireView {
            kind: self.kind,
            evidence: self.evidence@,
            days_at_club: self.days_at_club,
            adaptation_score: self.adaptation_score,
        }
    }
}

impl DesireView {
    /// A wish with one piece of evidence.
    pub open spec fn of(kind: CareerDesireKind, e: CareerDesireEvidence) -> DesireView {
        DesireView { kind, evidence: seq![e], days_at_club: None, adaptation_score: None }
    }
}

impl CareerDesire {
    /// A wish with one piece of evidence.
    pub fn of(kind: CareerDesireKind, e: CareerDesireEvidence) -> (r: Self)
        ensures
            r@ == DesireView::of(kind, e),
    {
        let r = CareerDesire {
            kind,
            evidence: vec![e],
            days_at_club: None,
            adaptation_score: None,
        };
        assert(r@ =~= DesireView::of(kind, e));
        r
    }
}

/// How the settling goes.
#[derive(Clone, Copy, Debug, PartialEq, Eq, Structural)]
pub enum PersonalAdaptationKind {
    StillStrugglingToSettle,
    ReturnHomeAfterPoorAdaptation,
}

/// A note on how the settling goes.
#[derive(Clone, Copy, Debug, PartialEq, Eq, Structural)]
pub struct AdaptationNote {
    pub kind: PersonalAdaptationKind,
    pub days_at_club: u32,
    pub adaptability: Measure,
    pub speaks_local_language: bool,
}

/// What a player finds out about his place in the side.
#[derive(Clone, Copy, Debug, PartialEq, Eq, Structural)]
pub enum RoleStatusKind {
    NoNaturalRoleInFormation,
}

/// What a contract does to the mood.
#[derive(Clone, Copy, Debug, PartialEq, Eq, Structural)]
pub enum ContractEventKind {
    SalaryBoost,
    SalaryShock,
}

/// A fact that supports a contract's effect on the mood.
#[derive(Clone, Copy, Debug, PartialEq, Eq, Structural)]
pub enum ContractEventEvidence {
    OverpaidVsExpectation,
    SquadStatusDowngrade,
}

/// A note on the terms of a contract.
#[derive(Clone, Copy, Debug, PartialEq, Eq, Structural)]
pub struct ContractNote {
    pub kind: ContractEventKind,
    pub wage_vs_previous: Measure,
    pub evidence: ContractEventEvidence,
}

/// The explanation that goes with an event.
#[derive(Debug)]
pub struct HappinessEventContext {
    pub cause: HappinessEventCause,
    pub scope: HappinessEventScope,
    pub severity: HappinessEventSeverity,
    pub evidence: Vec<HappinessEventEvidence>,
    pub follow_up: Option<HappinessEventFollowUp>,
    pub career_desire: Option<CareerDesire>,
    pub adaptation: Option<AdaptationNote>,
    pub role_status: Option<RoleStatusKind>,
    pub contract: Option<ContractNote>,
}

/// The content of a [`HappinessEventContext`].
#[verifier::ext_equal]
pub struct ContextView {
    pub cause: HappinessEventCause,
    pub scope: HappinessEventScope,
    pub severity: HappinessEventSeverity,
    pub evidence: Seq<HappinessEventEvidence>,
    pub follow_up: Option<HappinessEventFollowUp>,
    pub career_desire: Option<DesireView>,
    pub adaptation: Option<AdaptationNote>,
    pub role_status: Option<RoleStatusKind>,
    pub contract: Option<ContractNote>,
}

impl View for HappinessEventContext {
    type V = ContextView;

    open spec fn view(&self) -> ContextView {
        ContextView {
            cause: self.cause,
            scope: self.scope,
            severity: self.severity,
            evidence: self.evidence@,
            follow_up: self.follow_up,
            career_desire: match self.career_desire {
                Some(d) => Some(d@),
                None => None,
            },
            adaptation: self.adaptation,
            role_status: self.role_status,
            contract: self.contract,
        }
    }
}

impl ContextView {
    /// A context without evidence or follow-up, as severe as the event's magnitude says.
    pub open spec fn bare(cause: HappinessEventCause, scope: HappinessEventScope) -> ContextView {
        ContextView {
            cause,
            scope,
            severity: HappinessEventSeverity::ByMagnitude,
            evidence: Seq::empty(),
            follow_up: None,
            career_desire: None,
            adaptation: None,
            role_status: None,
            contract: None,
        }
    }

    /// The context with one more piece of evidence.
    pub open spec fn evidence(self, e: HappinessEventEvidence) -> ContextView {
        ContextView { evidence: self.evidence.push(e), ..self }
    }

    /// The context with one more piece of evidence, if it holds.
    pub open spec fn evidence_if(self, holds: bool, e: HappinessEventEvidence) -> ContextView {
        if holds {
            self.evidence(e)
        } else {
            self
        }
    }

    /// The context with a severity of its own.
    pub open spec fn severity(self, severity: HappinessEventSeverity) -> ContextView {
        ContextView { severity, ..self }
    }

    /// The context with a follow-up.
    pub open spec fn follow_up(self, f: HappinessEventFollowUp) -> ContextView {
        ContextView { follow_up: Some(f), ..self }
    }

    /// The context with a wish.
    pub open spec fn desire(self, d: DesireView) -> ContextView {
        ContextView { career_desire: Some(d), ..self }
    }

    /// The context with a finding about the place in the side.
    pub open spec fn role(self, kind: RoleStatusKind) -> ContextView {
        ContextView { role_status: Some(kind), ..self }
    }

    /// The context with a note on the terms of a contract.
    pub open spec fn terms(self, n: ContractNote) -> ContextView {
        ContextView { contract: Some(n), ..self }
    }

    /// The context with a note on the settling.
    pub open spec fn note(self, n: AdaptationNote) -> ContextView {
        ContextView { adaptation: Some(n), ..self }
    }
}

impl HappinessEventContext {
    /// A context without evidence or follow-up, as severe as the event's magnitude says.
    pub fn new(cause: HappinessEventCause, scope: HappinessEventScope) -> (r: Self)
        ensures
            r@ == ContextView::bare(cause, scope),
    {
        HappinessEventContext {
            cause,
            scope,
            severity: HappinessEventSeverity::ByMagnitude,
            evidence: Vec::new(),
            follow_up: None,
            career_desire: None,
            adaptation: None,
            role_status: None,
            contract: None,
        }
    }

    /// Adds a piece of evidence.
    pub fn with_evidence(self, e: HappinessEventEvidence) -> (r: Self)
        ensures
            r@ == self@.evidence(e),
    {
        let mut r = self;
        r.evidence.push(e);
        r
    }

    /// Adds a piece of evidence, if it holds.
    pub fn with_evidence_if(self, holds: bool, e: HappinessEventEvidence) -> (r: Self)
        ensures
            r@ == self@.evidence_if(holds, e),
    {
        if holds {
            self.with_evidence(e)
        } else {
            self
        }
    }

    /// Sets the severity.
    pub fn with_severity(self, severity: HappinessEventSeverity) -> (r: Self)
        ensures
            r@ == self@.severity(severity),
    {
        let mut r = self;
        r.severity = severity;
        r
    }

    /// Sets the follow-up.
    pub fn with_follow_up(self, f: HappinessEventFollowUp) -> (r: Self)
        ensures
            r@ == self@.follow_up(f),
    {
        let mut r = self;
        r.follow_up = Some(f);
        r
    }

    /// Sets the wish.
    pub fn with_desire(self, d: CareerDesire) -> (r: Self)
        ensures
            r@ == self@.desire(d@),
    {
        let mut r = self;
        r.career_desire = Some(d);
        r
    }

    /// Sets the finding about the place in the side.
    pub fn with_role(self, kind: RoleStatusKind) -> (r: Self)
        ensures
            r@ == self@.role(kind),
    {
        let mut r = self;
        r.role_status = Some(kind);
        r
    }

    /// Sets the note on the terms of a contract.
    pub fn with_terms(self, n: ContractNote) -> (r: Self)
        ensures
            r@ == self@.terms(n),
    {
        let mut r = self;
        r.contract = Some(n);
        r
    }

    /// Sets the note on the settling.
    pub fn with_note(self, n: AdaptationNote) -> (r: Self)
        ensures
            r@ == self@.note(n),
    {
        let mut r = self;
        r.adaptation = Some(n);
        r
    }
}

impl Clone for CareerDesire {
    fn clone(&self) -> (r: Self)
        ensures
            r@ == self@,
    {
        let evidence = self.evidence.clone();
        assert(evidence@ =~= self.evidence@);
        CareerDesire {
            kind: self.kind,
            evidence,
            days_at_club: self.days_at_club,
            adaptation_score: self.adaptation_score,
        }
    }
}

impl Clone for HappinessEventContext {
    fn clone(&self) -> (r: Self)
        ensures
            r@ == self@,
    {
        let evidence = self.evidence.clone();
        assert(evidence@ =~= self.evidence@);
        let career_desire = match &self.career_desire {
            Some(d) => Some(d.clone()),
            None => None,
        };
        HappinessEventContext {
            cause: self.cause,
            scope: self.scope,
            severity: self.severity,
            evidence,
            follow_up: self.follow_up,
            career_desire,
            adaptation: self.adaptation,
            role_status: self.role_status,
            contract: self.contract,
        }
    }
}

/// One entry of the log.
#[derive(Debug)]
pub struct HappinessEvent {
    pub event_type: HappinessEventType,
    pub magnitude: Measure,
    pub days_ago: u16,
    pub partner_player_id: Option<u32>,
    pub context: Option<HappinessEventContext>,
}

/// The content of a [`HappinessEvent`].
pub struct EventView {
    pub event_type: HappinessEventType,
    pub magnitude: Measure,
    pub days_ago: u16,
    pub partner_player_id: Option<u32>,
    pub context: Option<ContextView>,
}

impl View for HappinessEvent {
    type V = EventView;

    open spec fn view(&self) -> EventView {
        EventView {
            event_type: self.event_type,
            magnitude: self.magnitude,
            days_ago: self.days_ago,
            partner_player_id: self.partner_player_id,
            context: match self.context {
                Some(c) => Some(c@),
                None => None,
            },
        }
    }
}

impl EventView {
    /// An event of today.
    pub open spec fn today(
        event_type: HappinessEventType,
        magnitude: Measure,
        context: Option<ContextView>,
    ) -> EventView {
        EventView { event_type, magnitude, days_ago: 0, partner_player_id: None, context }
    }

    /// The event with a teammate.
    pub open spec fn with_partner(self, partner: u32) -> EventView {
        EventView { partner_player_id: Some(partner), ..self }
    }
}

/// The mood of a player: an overall level and the events behind it, oldest first.
#[derive(Debug)]
pub struct PlayerHappiness {
    pub morale: Measure,
    pub recent_events: Vec<HappinessEvent>,
}

impl View for PlayerHappiness {
    type V = Seq<EventView>;

    open spec fn view(&self) -> Seq<EventView> {
        self.recent_events@.map_values(|e: HappinessEvent| e@)
    }
}

/// Whether the log holds an event of this type that is at most `days` old.
pub open spec fn recent(log: Seq<EventView>, event_type: HappinessEventType, days: int) -> bool {
    exists|i: int|
        0 <= i < log.len() && (#[trigger] log[i]).event_type == event_type && log[i].days_ago
            <= days
}

/// Whether the log holds an event of this type with the teammate `partner` that is at most
/// `days` old.
pub open spec fn recent_with(
    log: Seq<EventView>,
    event_type: HappinessEventType,
    partner: u32,
    days: int,
) -> bool {
    exists|i: int|
        0 <= i < log.len() && (#[trigger] log[i]).event_type == event_type
            && log[i].partner_player_id == Some(partner) && log[i].days_ago <= days
}

/// The log after an event came up that rests for `cooldown` days.
pub open spec fn log_with_cooldown(log: Seq<EventView>, e: EventView, cooldown: int) -> Seq<
    EventView,
> {
    if recent(log, e.event_type, cooldown) {
        log
    } else {
        log.push(e)
    }
}

impl PlayerHappiness {
    /// A mood with nothing in the log.
    pub fn new(morale: Measure) -> (r: Self)
        ensures
            r.morale == morale,
            r@ == Seq::<EventView>::empty(),
    {
        let r = PlayerHappiness { morale, recent_events: Vec::new() };
        assert(r@ =~= Seq::<EventView>::empty());
        r
    }

    /// Whether an event of this type happened within `days` days.
    pub fn has_recent_event(&self, event_type: HappinessEventType, days: u16) -> (r: bool)
        ensures
            r == recent(self@, event_type, days as int),
    {
        let mut i: usize = 0;
        while i < self.recent_events.len()
            invariant
                i <= self.recent_events@.len(),
                self@.len() == self.recent_events@.len(),
                forall|j: int|
                    0 <= j < i ==> !((#[trigger] self@[j]).event_type == event_type
                        && self@[j].days_ago <= days),
            decreases self.recent_events@.len() - i,
        {
            let e = &self.recent_events[i];
            assert(self@[i as int] == e@);
            if e.event_type == event_type && e.days_ago <= days {
                assert(self@[i as int].event_type == event_type);
                return true;
            }
            i = i + 1;
        }
        false
    }

    /// Whether an event of this type with this teammate happened within `days` days.
    pub fn has_recent_event_with(
        &self,
        event_type: HappinessEventType,
        partner: u32,
        days: u16,
    ) -> (r: bool)
        ensures
            r == recent_with(self@, event_type, partner, days as int),
    {
        let mut i: usize = 0;
        while i < self.recent_events.len()
            invariant
                i <= self.recent_events@.len(),
                self@.len() == self.recent_events@.len(),
                forall|j: int|
                    0 <= j < i ==> !((#[trigger] self@[j]).event_type == event_type
                        && self@[j].partner_player_id == Some(partner) && self@[j].days_ago
                        <= days),
            decreases self.recent_events@.len() - i,
        {
            let e = &self.recent_events[i];
            assert(self@[i as int] == e@);
            let same_partner = match e.partner_player_id {
                Some(p) => p == partner,
                None => false,
            };
            if e.event_type == event_type && same_partner && e.days_ago <= days {
                assert(self@[i as int].event_type == event_type);
                return true;
            }
            i = i + 1;
        }
        false
    }

    /// Adds an event to the log.
    fn log(&mut self, e: HappinessEvent)
        ensures
            final(self)@ == old(self)@.push(e@),
            final(self).morale == old(self).morale,
    {
        self.recent_events.push(e);
        assert(self@ =~= old(self)@.push(e@));
    }

    /// Logs an event of today without explanation.
    pub fn add_event(&mut self, event_type: HappinessEventType, magnitude: Measure)
        ensures
            final(self)@ == old(self)@.push(EventView::today(event_type, magnitude, None)),
            final(self).morale == old(self).morale,
    {
        self.log(
            HappinessEvent {
                event_type,
                magnitude,
                days_ago: 0,
                partner_player_id: None,
                context: None,
            },
        );
    }

    /// Logs an event of today.
    pub fn add_event_with_context(
        &mut self,
        event_type: HappinessEventType,
        magnitude: Measure,
        context: HappinessEventContext,
    )
        ensures
            final(self)@ == old(self)@.push(
                EventView::today(event_type, magnitude, Some(context@)),
            ),
            final(self).morale == old(self).morale,
    {
        self.log(
            HappinessEvent {
                event_type,
                magnitude,
                days_ago: 0,
                partner_player_id: None,
                context: Some(context),
            },
        );
    }

    /// Logs an event of today unless one of its type is at most `cooldown` days old. Returns
    /// whether it was logged.
    pub fn add_event_with_context_and_cooldown(
        &mut self,
        event_type: HappinessEventType,
        magnitude: Measure,
        context: HappinessEventContext,
        cooldown: u16,
    ) -> (r: bool)
        ensures
            r == !recent(old(self)@, event_type, cooldown as int),
            final(self)@ == log_with_cooldown(
                old(self)@,
                EventView::today(event_type, magnitude, Some(context@)),
                cooldown as int,
            ),
            final(self).morale == old(self).morale,
    {
        if self.has_recent_event(event_type, cooldown) {
            return false;
        }
        self.add_event_with_context(event_type, magnitude, context);
        true
    }

    /// Logs an event of today with a teammate, unless one of its type with the same teammate
    /// is at most `cooldown` days old. Returns whether it was logged.
    pub fn add_event_with_partner_context_and_cooldown(
        &mut self,
        event_type: HappinessEventType,
        magnitude: Measure,
        partner: u32,
        context: HappinessEventContext,
        cooldown: u16,
    ) -> (r: bool)
        ensures
            r == !recent_with(old(self)@, event_type, partner, cooldown as int),
            final(self)@ == if r {
                old(self)@.push(
                    EventView::today(event_type, magnitude, Some(context@)).with_partner(partner),
                )
            } else {
                old(self)@
            },
            final(self).morale == old(self).morale,
    {
        if self.has_recent_event_with(event_type, partner, cooldown) {
            return false;
        }
        self.log(
            HappinessEvent {
                event_type,
                magnitude,
                days_ago: 0,
                partner_player_id: Some(partner),
                context: Some(context),
            },
        );
        true
    }
}

/// An event of today is in the way of the next one of its type, and of the next one with the
/// same teammate: within any cooldown a second one is not logged.
pub proof fn lemma_cooldown_blocks(log: Seq<EventView>, logged: EventView, cooldown: int)
    requires
        logged.days_ago == 0,
        0 <= cooldown,
    ensures
        recent(log.push(logged), logged.event_type, cooldown),
        log_with_cooldown(log.push(logged), logged, cooldown) == log.push(logged),
        forall|partner: u32|
            logged.partner_player_id == Some(partner) ==> #[trigger] recent_with(
                log.push(logged),
                logged.event_type,
                partner,
                cooldown,
            ),
{
    let after = log.push(logged);
    assert(after[log.len() as int] == logged);
}

/// Logging with a cooldown never drops what is in the log, adds one event at most, and is done
/// once a day: doing it twice is doing it once.
pub proof fn lemma_cooldown_idempotent(log: Seq<EventView>, e: EventView, cooldown: int)
    requires
        e.days_ago == 0,
        0 <= cooldown,
    ensures
        log_with_cooldown(log_with_cooldown(log, e, cooldown), e, cooldown) == log_with_cooldown(
            log,
            e,
            cooldown,
        ),
        log.is_prefix_of(log_with_cooldown(log, e, cooldown)),
        log_with_cooldown(log, e, cooldown).len() <= log.len() + 1,
{
    lemma_cooldown_blocks(log, e, cooldown);
}

/// Whether a log that grew from `before` to `after` tells of an event of this type.
pub open spec fn tells(
    before: Seq<EventView>,
    after: Seq<EventView>,
    event_type: HappinessEventType,
) -> bool {
    exists|i: int| before.len() <= i < after.len() && (#[trigger] after[i]).event_type == event_type
}

/// Whether every event of this type that the log grew by has the given magnitude.
pub open spec fn weighs(
    before: Seq<EventView>,
    after: Seq<EventView>,
    event_type: HappinessEventType,
    magnitude: Measure,
) -> bool {
    forall|i: int|
        before.len() <= i < after.len() && (#[trigger] after[i]).event_type == event_type
            ==> after[i].magnitude == magnitude
}

/// What a log tells after it grew twice is what it told after each.
pub proof fn lemma_tells_both(
    a: Seq<EventView>,
    b: Seq<EventView>,
    c: Seq<EventView>,
    event_type: HappinessEventType,
)
    requires
        a.is_prefix_of(b),
        b.is_prefix_of(c),
    ensures
        a.is_prefix_of(c),
        tells(a, c, event_type) <==> tells(a, b, event_type) || tells(b, c, event_type),
        forall|v: Measure|
            weighs(a, b, event_type, v) && weighs(b, c, event_type, v) ==> #[trigger] weighs(
                a,
                c,
                event_type,
                v,
            ),
{
    assert(a =~= c.take(a.len() as int)) by {
        assert forall|i: int| 0 <= i < a.len() implies a[i] == c[i] by {
            assert(a[i] == b[i]);
            assert(b[i] == c[i]);
        }
    }
    assert forall|i: int| 0 <= i < b.len() implies b[i] == c[i] by {}
    if tells(a, b, event_type) {
        let i = choose|i: int|
            a.len() <= i < b.len() && (#[trigger] b[i]).event_type == event_type;
        assert(c[i].event_type == event_type);
    }
    if tells(b, c, event_type) {
        let i = choose|i: int|
            b.len() <= i < c.len() && (#[trigger] c[i]).event_type == event_type;
        assert(c[i].event_type == event_type);
    }
    if tells(a, c, event_type) {
        let i = choose|i: int|
            a.len() <= i < c.len() && (#[trigger] c[i]).event_type == event_type;
        if i < b.len() {
            assert(b[i].event_type == event_type);
        }
    }
    assert forall|v: Measure|
        weighs(a, b, event_type, v) && weighs(b, c, event_type, v) implies #[trigger] weighs(
        a,
        c,
        event_type,
        v,
    ) by {
        assert forall|i: int|
            a.len() <= i < c.len() && (#[trigger] c[i]).event_type
                == event_type implies c[i].magnitude == v by {
            if i < b.len() {
                assert(b[i] == c[i]);
            }
        }
    }
}

/// A log that grew by one event tells of it alone.
pub proof fn lemma_tells_one(log: Seq<EventView>, e: EventView, event_type: HappinessEventType)
    ensures
        log.is_prefix_of(log.push(e)),
        tells(log, log.push(e), event_type) <==> e.event_type == event_type,
        weighs(log, log.push(e), e.event_type, e.magnitude),
        !tells(log, log, event_type),
        log.is_prefix_of(log),
{
    assert(log.push(e)[log.len() as int] == e);
    assert(log =~= log.push(e).take(log.len() as int));
    assert(log =~= log.take(log.len() as int));
}

/// What a log holds of the last days after events of today were added is what it held and what
/// was added.
pub proof fn lemma_recent_grows(
    before: Seq<EventView>,
    after: Seq<EventView>,
    event_type: HappinessEventType,
    days: int,
)
    requires
        before.is_prefix_of(after),
        forall|i: int| before.len() <= i < after.len() ==> (#[trigger] after[i]).days_ago == 0,
        0 <= days,
    ensures
        recent(after, event_type, days) <==> recent(before, event_type, days) || tells(
            before,
            after,
            event_type,
        ),
{
    assert forall|i: int| 0 <= i < before.len() implies before[i] == after[i] by {}
    if recent(before, event_type, days) {
        let i = choose|i: int|
            0 <= i < before.len() && (#[trigger] before[i]).event_type == event_type
                && before[i].days_ago <= days;
        assert(after[i].event_type == event_type);
    }
    if tells(before, after, event_type) {
        let i = choose|i: int|
            before.len() <= i < after.len() && (#[trigger] after[i]).event_type == event_type;
        assert(after[i].days_ago <= days);
    }
    if recent(after, event_type, days) {
        let i = choose|i: int|
            0 <= i < after.len() && (#[trigger] after[i]).event_type == event_type
                && after[i].days_ago <= days;
        if i < before.len() {
            assert(before[i].event_type == event_type);
        }
    }
}

} // verus!
