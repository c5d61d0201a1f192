//! The weeks and months after a move: a player finds his place in the dressing
//! room, stays an outsider, or comes to want home.

use crate::adaptation::AdaptationSquadContext;
use crate::date::Date;
use crate::happiness::{
    AdaptationNote, CareerDesire, CareerDesireEvidence, CareerDesireKind, HappinessEvent,
    HappinessEventCause, HappinessEventContext, HappinessEventEvidence, HappinessEventFollowUp,
    HappinessEventScope, HappinessEventSeverity, HappinessEventType, PersonalAdaptationKind,
    PlayerHappiness,
};
#[allow(unused_imports)]
use crate::happiness::{lemma_tells_one, tells, ContextView, DesireView, EventView};
use crate::measure::Measure;
use crate::noise::{mix, slice_of, to_word};
use crate::player::Player;
#[allow(unused_imports)]
use vstd::prelude::*;

verus! {

/// The thresholds of settling in.
#[derive(Clone, Copy, Debug, PartialEq, Eq, Structural)]
pub struct IntegrationRules {
    pub integration_window_days: i64,
    pub early_isolation_max_weeks: i64,
    pub early_isolation_max_adaptability: Measure,
    pub settled_min_weeks: i64,
    pub settled_pull_threshold: Measure,
    pub chronic_isolation_suppress_threshold: Measure,
}

/// What bears on a player's wish to go home. A continent that is not known is zero.
#[derive(Clone, Copy, Debug, PartialEq, Eq, Structural)]
pub struct AdaptationFailureSignals {
    pub player_nationality_continent_id: u32,
    pub club_continent_id: u32,
    pub club_in_home_country: bool,
    pub destination_is_favourite: bool,
    pub same_language_or_nationality_teammates: u8,
    /// Zero where it was not computed.
    pub adaptation_score: Measure,
    pub club_fit: Measure,
}

/// The days since the last move, where they lie in the window of integration.
pub open spec fn integration_days(p: Player, now: Date, rules: IntegrationRules) -> Option<int> {
    match p.last_transfer_date {
        Some(d) => if 0 <= now.days - d.days <= rules.integration_window_days {
            Some(now.days - d.days)
        } else {
            None
        },
        None => None,
    }
}

/// How likely a lonely week is, in hundredths. It takes the first weeks and a foreign language.
/// A player who hardly adapts and has nobody to talk with is lonely in 35 weeks of a hundred;
/// one below the threshold always, but less often with one teammate to talk with, and less
/// again with more.
pub open spec fn isolation_percent(
    p: Player,
    weeks: int,
    speaks: bool,
    buddies: int,
    rules: IntegrationRules,
) -> int {
    if speaks || weeks >= rules.early_isolation_max_weeks {
        0
    } else if buddies == 0 && !p.attributes.adaptability.ge(8) {
        35
    } else if p.attributes.adaptability.clamped_units(0, 20)
        < rules.early_isolation_max_adaptability.units() {
        if buddies == 0 {
            100
        } else if buddies == 1 {
            60
        } else {
            30
        }
    } else {
        0
    }
}

/// The explanation of a lonely week.
pub open spec fn lonely_context(speaks: bool) -> ContextView {
    ContextView::bare(
        HappinessEventCause::AdaptationIsolation,
        HappinessEventScope::DressingRoom,
    ).evidence(HappinessEventEvidence::NoInnerCircleYet).evidence(
        HappinessEventEvidence::NewSigningStillSettling,
    ).follow_up(HappinessEventFollowUp::SettlingInProgress).evidence_if(
        !speaks,
        HappinessEventEvidence::LanguageBarrier,
    )
}

/// The explanation of a place found in the squad.
pub open spec fn settled_context() -> ContextView {
    ContextView::bare(
        HappinessEventCause::TrainingPartnership,
        HappinessEventScope::DressingRoom,
    ).evidence(HappinessEventEvidence::StrongExistingBond).follow_up(
        HappinessEventFollowUp::SettlingInProgress,
    )
}

/// The explanation of an outsider's month.
pub open spec fn outsider_context() -> ContextView {
    ContextView::bare(
        HappinessEventCause::AdaptationIsolation,
        HappinessEventScope::DressingRoom,
    ).evidence(HappinessEventEvidence::LanguageBarrier).evidence(
        HappinessEventEvidence::NoInnerCircleYet,
    ).follow_up(HappinessEventFollowUp::ManagerInterventionRisk)
}

/// Whether the day is the first of a month.
pub open spec fn first_of_month(day: Date) -> bool {
    exists|year: int, month: int|
        #[trigger] crate::date::valid_ymd(year, month, 1) && crate::date::day_number(
            year,
            month,
            1,
        ) == day.days
}

/// Whether a player who settled long ago, or never moved, feels an outsider this month.
pub open spec fn outsider_month(
    p: Player,
    now: Date,
    code: Seq<char>,
    rules: IntegrationRules,
    pull: Measure,
) -> bool {
    first_of_month(now) && !crate::player::speaks_local(p.languages@, code) && pull.units()
        <= rules.chronic_isolation_suppress_threshold.units()
}

/// The log after a week of integration.
pub open spec fn log_integration(
    p: Player,
    now: Date,
    code: Seq<char>,
    squad: AdaptationSquadContext,
    rules: IntegrationRules,
    pull: Measure,
    roll: Measure,
) -> Seq<EventView> {
    let log = p.happiness@;
    let speaks = crate::player::speaks_local(p.languages@, code);
    match integration_days(p, now, rules) {
        None => if outsider_month(p, now, code, rules, pull) {
            log.push(
                EventView::today(
                    HappinessEventType::FeelingIsolated,
                    Measure::of_halves(-3),
                    Some(outsider_context()),
                ),
            )
        } else {
            log
        },
        Some(days) => {
            let chance = isolation_percent(
                p,
                days / 7,
                speaks,
                squad.same_language_teammates as int,
                rules,
            );
            if chance > 0 && roll.lt_hundredths(chance) {
                log.push(
                    EventView::today(
                        HappinessEventType::FeelingIsolated,
                        Measure::of_halves(-4),
                        Some(lonely_context(speaks)),
                    ),
                )
            } else if days / 7 >= rules.settled_min_weeks && (speaks || pull.units()
                > rules.settled_pull_threshold.units()) {
                crate::happiness::log_with_cooldown(
                    log,
                    EventView::today(
                        HappinessEventType::SettledIntoSquad,
                        Measure::of_halves(2),
                        Some(settled_context()),
                    ),
                    365,
                )
            } else {
                log
            }
        },
    }
}

/// The word behind the roll of a player on a day.
pub open spec fn isolation_word_of(player_id: int, days: int) -> int {
    crate::noise::slice(
        crate::noise::mixed(crate::noise::word(days), player_id, 0x9E37_79B9_7F4A_7C15),
        0x2000,
    )
}

/// The word behind the roll of a player on a day; the same day gives the same word.
pub fn isolation_word(player_id: u32, day: Date) -> (r: u32)
    ensures
        r == isolation_word_of(player_id as int, day.days as int),
{
    let h: u64 = mix(to_word(day.days), player_id as u64, 0x9E37_79B9_7F4A_7C15);
    slice_of(h, 0x2000)
}

impl Player {
    /// How likely a lonely week is, in hundredths.
    fn isolation_chance(
        &self,
        weeks: i64,
        speaks: bool,
        buddies: u8,
        rules: &IntegrationRules,
    ) -> (r: u32)
        ensures
            r == isolation_percent(*self, weeks as int, speaks, buddies as int, *rules),
            r == 0 || crate::measure::is_tabled(r as int),
    {
        if speaks || weeks >= rules.early_isolation_max_weeks {
            return 0;
        }
        if buddies == 0 && !self.attributes.adaptability.is_at_least(8) {
            return 35;
        }
        if !self.attributes.adaptability.clamped(0, 20).at_least(
            &rules.early_isolation_max_adaptability,
        ) {
            if buddies == 0 {
                100
            } else if buddies == 1 {
                60
            } else {
                30
            }
        } else {
            0
        }
    }

    /// A week of integration in a squad of which nothing is known.
    pub fn process_integration(
        &mut self,
        now: Date,
        country_code: &str,
        rules: &IntegrationRules,
        pull: Measure,
        roll: Measure,
    )
        requires
            now.wf(),
        ensures
            final(self).happiness@ == log_integration(
                *old(self),
                now,
                country_code@,
                AdaptationSquadContext::unknown(),
                *rules,
                pull,
                roll,
            ),
            final(self).happiness.morale == old(self).happiness.morale,
            *final(self) == (Player { happiness: final(self).happiness, ..*old(self) }),
    {
        let squad = AdaptationSquadContext::default();
        self.process_integration_with_squad(now, country_code, &squad, rules, pull, roll);
    }

    /// A week of integration. In the window after a move the player is lonely or finds his
    /// place; later, or where he never moved, he may feel an outsider once a month. `pull` is
    /// how much of a scale from 0 to 1 his character draws him to the others; `roll` is the
    /// chance of the day.
    pub fn process_integration_with_squad(
        &mut self,
        now: Date,
        country_code: &str,
        squad: &AdaptationSquadContext,
        rules: &IntegrationRules,
        pull: Measure,
        roll: Measure,
    )
        requires
            now.wf(),
        ensures
            final(self).happiness@ == log_integration(
                *old(self),
                now,
                country_code@,
                *squad,
                *rules,
                pull,
                roll,
            ),
            final(self).happiness.morale == old(self).happiness.morale,
            *final(self) == (Player { happiness: final(self).happiness, ..*old(self) }),
    {
        let days: i64 = match self.days_since_transfer(now) {
            Some(d) => if 0 <= d && d <= rules.integration_window_days {
                d
            } else {
                -1
            },
            None => -1,
        };
        if days < 0 {
            self.process_chronic_language_isolation(now, country_code, rules, pull);
            return ;
        }
        let weeks: i64 = days / 7;
        let speaks = self.speaks_local_language(country_code);
        let chance: u32 = self.isolation_chance(
            weeks,
            speaks,
            squad.same_language_teammates,
            rules,
        );
        if chance > 0 && roll.is_below_hundredths(chance) {
            let context = HappinessEventContext::new(
                HappinessEventCause::AdaptationIsolation,
                HappinessEventScope::DressingRoom,
            ).with_evidence(HappinessEventEvidence::NoInnerCircleYet).with_evidence(
                HappinessEventEvidence::NewSigningStillSettling,
            ).with_follow_up(HappinessEventFollowUp::SettlingInProgress).with_evidence_if(
                !speaks,
                HappinessEventEvidence::LanguageBarrier,
            );
            self.happiness.add_event_with_context(
                HappinessEventType::FeelingIsolated,
                Measure::halves(-4),
                context,
            );
            return ;
        }
        if weeks >= rules.settled_min_weeks && (speaks || !rules.settled_pull_threshold.at_least(
            &pull,
        )) {
            let context = HappinessEventContext::new(
                HappinessEventCause::TrainingPartnership,
                HappinessEventScope::DressingRoom,
            ).with_evidence(HappinessEventEvidence::StrongExistingBond).with_follow_up(
                HappinessEventFollowUp::SettlingInProgress,
            );
            self.happiness.add_event_with_context_and_cooldown(
                HappinessEventType::SettledIntoSquad,
                Measure::halves(2),
                context,
                365,
            );
        }
    }

    /// A player who never picked up the language feels an outsider on the first of each month,
    /// unless his character carries him over it.
    fn process_chronic_language_isolation(
        &mut self,
        now: Date,
        country_code: &str,
        rules: &IntegrationRules,
        pull: Measure,
    )
        requires
            now.wf(),
        ensures
            final(self).happiness@ == if outsider_month(
                *old(self),
                now,
                country_code@,
                *rules,
                pull,
            ) {
                old(self).happiness@.push(
                    EventView::today(
                        HappinessEventType::FeelingIsolated,
                        Measure::of_halves(-3),
                        Some(outsider_context()),
                    ),
                )
            } else {
                old(self).happiness@
            },
            final(self).happiness.morale == old(self).happiness.morale,
            *final(self) == (Player { happiness: final(self).happiness, ..*old(self) }),
    {
        if !now.is_first_of_month() {
            return ;
        }
        if self.speaks_local_language(country_code) {
            return ;
        }
        if !rules.chronic_isolation_suppress_threshold.at_least(&pull) {
            return ;
        }
        let context = HappinessEventContext::new(
            HappinessEventCause::AdaptationIsolation,
            HappinessEventScope::DressingRoom,
        ).with_evidence(HappinessEventEvidence::LanguageBarrier).with_evidence(
            HappinessEventEvidence::NoInnerCircleYet,
        ).with_follow_up(HappinessEventFollowUp::ManagerInterventionRisk);
        self.happiness.add_event_with_context(
            HappinessEventType::FeelingIsolated,
            Measure::halves(-3),
            context,
        );
    }
}

/// Whether the event is a note that goes with a wish to return, not a new lonely day.
pub open spec fn is_companion(e: EventView) -> bool {
    e.context is Some && e.context->0.adaptation is Some && (
    e.context->0.adaptation->0.kind is StillStrugglingToSettle
        || e.context->0.adaptation->0.kind is ReturnHomeAfterPoorAdaptation)
}

/// Whether the event is a lonely day of the last ninety.
pub open spec fn is_lonely_day(e: EventView) -> bool {
    e.event_type is FeelingIsolated && e.days_ago <= 90 && !is_companion(e)
}

/// The lonely days of the last ninety.
pub open spec fn lonely_days(log: Seq<EventView>) -> nat
    decreases log.len(),
{
    if log.len() == 0 {
        0
    } else if is_lonely_day(log.last()) {
        lonely_days(log.drop_last()) + 1
    } else {
        lonely_days(log.drop_last())
    }
}

/// What speaks for a failed adaptation.
#[derive(Clone, Copy, Debug, PartialEq, Eq, Structural)]
pub struct FailureFacts {
    pub different_continent: bool,
    pub no_local_language: bool,
    pub low_adaptability: bool,
    pub no_company: bool,
    pub repeated_isolation: bool,
    pub low_club_fit: bool,
    pub poor_adaptation: bool,
    pub low_morale: bool,
    pub professional: bool,
    pub loyal: bool,
}

/// What speaks for a failed adaptation. Two lonely days or more are repeated isolation.
pub open spec fn failure_facts(
    p: Player,
    code: Seq<char>,
    x: AdaptationFailureSignals,
) -> FailureFacts {
    FailureFacts {
        different_continent: x.club_continent_id != 0 && x.player_nationality_continent_id != 0
            && x.club_continent_id != x.player_nationality_continent_id,
        no_local_language: !crate::player::speaks_local(p.languages@, code),
        low_adaptability: p.attributes.adaptability.le(8),
        no_company: x.same_language_or_nationality_teammates == 0,
        repeated_isolation: lonely_days(p.happiness@) >= 2,
        low_club_fit: x.club_fit.le(-3),
        poor_adaptation: !x.adaptation_score.le(0) && !x.adaptation_score.ge(40),
        low_morale: !p.happiness.morale.ge(35),
        professional: p.attributes.professionalism.ge(16),
        loyal: p.attributes.loyalty.ge(16),
    }
}

/// A weight that counts only where the fact holds.
pub open spec fn weigh(holds: bool, weight: int) -> int {
    if holds {
        weight
    } else {
        0
    }
}

impl FailureFacts {
    /// The weight of the facts, in halves. Professionalism and loyalty buy patience.
    pub open spec fn weight(self) -> int {
        weigh(self.different_continent, 4) + weigh(self.no_local_language, 3) + weigh(
            self.low_adaptability,
            3,
        ) + weigh(self.no_company, 2) + weigh(self.repeated_isolation, 3) + weigh(
            self.low_club_fit,
            2,
        ) + weigh(self.poor_adaptation, 4) + weigh(self.low_morale, 2) - weigh(
            self.professional,
            2,
        ) - weigh(self.loyal, 2)
    }

    /// The evidence that the facts give.
    pub open spec fn evidence(self) -> Seq<CareerDesireEvidence> {
        let a = noted(
            Seq::empty(),
            self.different_continent,
            CareerDesireEvidence::DifferentContinent,
        );
        let b = noted(a, self.no_local_language, CareerDesireEvidence::NoLocalLanguage);
        let c = noted(b, self.low_adaptability, CareerDesireEvidence::LowAdaptability);
        let d = noted(c, self.no_company, CareerDesireEvidence::NoCompatriotSupport);
        let e = noted(d, self.poor_adaptation, CareerDesireEvidence::PoorAdaptationScore);
        let f = noted(e, self.repeated_isolation, CareerDesireEvidence::RepeatedIsolation);
        noted(f, self.low_club_fit, CareerDesireEvidence::LowClubFit)
    }
}

/// The list with one more piece of evidence, if it holds.
pub open spec fn noted(
    list: Seq<CareerDesireEvidence>,
    holds: bool,
    e: CareerDesireEvidence,
) -> Seq<CareerDesireEvidence> {
    if holds {
        list.push(e)
    } else {
        list
    }
}

/// Whether the facts outweigh the player's patience. At a favourite club it takes a poor
/// adaptation and a morale of twenty at most, and two points more.
pub open spec fn gives_up(p: Player, f: FailureFacts, x: AdaptationFailureSignals) -> bool {
    if x.destination_is_favourite {
        f.poor_adaptation && p.happiness.morale.le(20) && f.weight() - 4 >= 10
    } else {
        f.weight() >= 10
    }
}

/// Whether the player comes to want home: not before sixty days, not twice in sixty days, and
/// never in his own country.
pub open spec fn wants_home(
    p: Player,
    now: Date,
    code: Seq<char>,
    x: AdaptationFailureSignals,
) -> bool {
    &&& p.last_transfer_date is Some
    &&& now.days - p.last_transfer_date->0.days >= 60
    &&& !crate::happiness::recent(p.happiness@, HappinessEventType::WantsReturnHome, 60)
    &&& !x.club_in_home_country
    &&& gives_up(p, failure_facts(p, code, x), x)
}

/// The event of a wish to return home.
pub open spec fn return_home_event(
    p: Player,
    now: Date,
    code: Seq<char>,
    x: AdaptationFailureSignals,
    magnitude: Measure,
) -> EventView {
    EventView::today(
        HappinessEventType::WantsReturnHome,
        magnitude,
        Some(
            ContextView::bare(
                HappinessEventCause::AdaptationIsolation,
                HappinessEventScope::Personal,
            ).desire(
                DesireView {
                    kind: CareerDesireKind::ReturnHomeAfterPoorAdaptation,
                    evidence: failure_facts(p, code, x).evidence(),
                    days_at_club: Some((now.days - p.last_transfer_date->0.days) as u32),
                    adaptation_score: if !x.adaptation_score.le(0) {
                        Some(x.adaptation_score)
                    } else {
                        None
                    },
                },
            ).follow_up(HappinessEventFollowUp::ContractRequestRisk),
        ),
    )
}

/// The note that goes with a wish to return home.
pub open spec fn companion_event(p: Player, now: Date, code: Seq<char>) -> EventView {
    EventView::today(
        HappinessEventType::FeelingIsolated,
        Measure::of_halves(-2),
        Some(
            ContextView::bare(
                HappinessEventCause::AdaptationIsolation,
                HappinessEventScope::DressingRoom,
            ).note(
                AdaptationNote {
                    kind: PersonalAdaptationKind::StillStrugglingToSettle,
                    days_at_club: (now.days - p.last_transfer_date->0.days) as u32,
                    adaptability: p.attributes.adaptability,
                    speaks_local_language: crate::player::speaks_local(p.languages@, code),
                },
            ).severity(HappinessEventSeverity::Moderate),
        ),
    )
}

/// Adds a piece of evidence, if it holds.
fn note_if(list: &mut Vec<CareerDesireEvidence>, holds: bool, e: CareerDesireEvidence)
    ensures
        final(list)@ == noted(old(list)@, holds, e),
{
    if holds {
        list.push(e);
    }
}

/// A weight that counts only where the fact holds.
fn weight_if(holds: bool, weight: i32) -> (r: i32)
    ensures
        r == weigh(holds, weight as int),
{
    if holds {
        weight
    } else {
        0
    }
}

impl FailureFacts {
    /// The weight of the facts, in halves.
    pub fn total(&self) -> (r: i32)
        ensures
            r == self.weight(),
            -4 <= r <= 23,
    {
        weight_if(self.different_continent, 4) + weight_if(self.no_local_language, 3) + weight_if(
            self.low_adaptability,
            3,
        ) + weight_if(self.no_company, 2) + weight_if(self.repeated_isolation, 3) + weight_if(
            self.low_club_fit,
            2,
        ) + weight_if(self.poor_adaptation, 4) + weight_if(self.low_morale, 2) - weight_if(
            self.professional,
            2,
        ) - weight_if(self.loyal, 2)
    }

    /// The evidence that the facts give.
    pub fn collect(&self) -> (r: Vec<CareerDesireEvidence>)
        ensures
            r@ == self.evidence(),
    {
        let mut r: Vec<CareerDesireEvidence> = Vec::new();
        note_if(&mut r, self.different_continent, CareerDesireEvidence::DifferentContinent);
        note_if(&mut r, self.no_local_language, CareerDesireEvidence::NoLocalLanguage);
        note_if(&mut r, self.low_adaptability, CareerDesireEvidence::LowAdaptability);
        note_if(&mut r, self.no_company, CareerDesireEvidence::NoCompatriotSupport);
        note_if(&mut r, self.poor_adaptation, CareerDesireEvidence::PoorAdaptationScore);
        note_if(&mut r, self.repeated_isolation, CareerDesireEvidence::RepeatedIsolation);
        note_if(&mut r, self.low_club_fit, CareerDesireEvidence::LowClubFit);
        r
    }
}

/// Whether the event is a lonely day of the last ninety.
fn counts_as_lonely(e: &HappinessEvent) -> (r: bool)
    ensures
        r == is_lonely_day(e@),
{
    let companion = match &e.context {
        Some(c) => match c.adaptation {
            Some(n) => match n.kind {
                PersonalAdaptationKind::StillStrugglingToSettle => true,
                PersonalAdaptationKind::ReturnHomeAfterPoorAdaptation => true,
            },
            None => false,
        },
        None => false,
    };
    let isolated = match e.event_type {
        HappinessEventType::FeelingIsolated => true,
        _ => false,
    };
    isolated && e.days_ago <= 90 && !companion
}

/// Whether the lonely days of the last ninety are two or more.
fn is_isolated_repeatedly(happiness: &PlayerHappiness) -> (r: bool)
    ensures
        r == (lonely_days(happiness@) >= 2),
{
    let mut count: usize = 0;
    let mut i: usize = 0;
    while i < happiness.recent_events.len()
        invariant
            i <= happiness.recent_events@.len(),
            happiness@.len() == happiness.recent_events@.len(),
            count <= i,
            count == lonely_days(happiness@.take(i as int)),
        decreases happiness.recent_events@.len() - i,
    {
        assert(happiness@[i as int] == happiness.recent_events@[i as int]@);
        assert(happiness@.take(i + 1).drop_last() =~= happiness@.take(i as int));
        assert(happiness@.take(i + 1).last() == happiness@[i as int]);
        if counts_as_lonely(&happiness.recent_events[i]) {
            count = count + 1;
        }
        i = i + 1;
    }
    assert(happiness@.take(happiness@.len() as int) =~= happiness@);
    count >= 2
}

impl Player {
    /// What speaks for a failed adaptation.
    pub fn adaptation_failure_facts(&self, country_code: &str, x: &AdaptationFailureSignals) -> (r:
        FailureFacts)
        ensures
            r == failure_facts(*self, country_code@, *x),
    {
        FailureFacts {
            different_continent: x.club_continent_id != 0 && x.player_nationality_continent_id
                != 0 && x.club_continent_id != x.player_nationality_continent_id,
            no_local_language: !self.speaks_local_language(country_code),
            low_adaptability: self.attributes.adaptability.is_at_most(8),
            no_company: x.same_language_or_nationality_teammates == 0,
            repeated_isolation: is_isolated_repeatedly(&self.happiness),
            low_club_fit: x.club_fit.is_at_most(-3),
            poor_adaptation: !x.adaptation_score.is_at_most(0)
                && !x.adaptation_score.is_at_least(40),
            low_morale: !self.happiness.morale.is_at_least(35),
            professional: self.attributes.professionalism.is_at_least(16),
            loyal: self.attributes.loyalty.is_at_least(16),
        }
    }

    /// Logs the wish to return home, with the note that goes with it, where the adaptation has
    /// failed. Returns whether it has.
    pub fn process_chronic_adaptation_failure(
        &mut self,
        now: Date,
        country_code: &str,
        x: &AdaptationFailureSignals,
        magnitude: Measure,
    ) -> (r: bool)
        ensures
            r == wants_home(*old(self), now, country_code@, *x),
            final(self).happiness@ == if r {
                crate::happiness::log_with_cooldown(
                    old(self).happiness@.push(
                        return_home_event(*old(self), now, country_code@, *x, magnitude),
                    ),
                    companion_event(*old(self), now, country_code@),
                    30,
                )
            } else {
                old(self).happiness@
            },
            final(self).happiness.morale == old(self).happiness.morale,
            *final(self) == (Player { happiness: final(self).happiness, ..*old(self) }),
    {
        let days: i64 = match self.days_since_transfer(now) {
            Some(d) => d,
            None => {
                return false;
            },
        };
        if days < 60 {
            return false;
        }
        if self.happiness.has_recent_event(HappinessEventType::WantsReturnHome, 60) {
            return false;
        }
        if x.club_in_home_country {
            return false;
        }
        let facts = self.adaptation_failure_facts(country_code, x);
        let mut weight: i32 = facts.total();
        if x.destination_is_favourite {
            if !facts.poor_adaptation || !self.happiness.morale.is_at_most(20) {
                return false;
            }
            weight = weight - 4;
        }
        if weight < 10 {
            return false;
        }
        let days_at_club: u32 = days as u32;
        let desire = CareerDesire {
            kind: CareerDesireKind::ReturnHomeAfterPoorAdaptation,
            evidence: facts.collect(),
            days_at_club: Some(days_at_club),
            adaptation_score: if !x.adaptation_score.is_at_most(0) {
                Some(x.adaptation_score)
            } else {
                None
            },
        };
        let context = HappinessEventContext::new(
            HappinessEventCause::AdaptationIsolation,
            HappinessEventScope::Personal,
        ).with_desire(desire).with_follow_up(HappinessEventFollowUp::ContractRequestRisk);
        self.happiness.add_event_with_context(
            HappinessEventType::WantsReturnHome,
            magnitude,
            context,
        );
        let companion = HappinessEventContext::new(
            HappinessEventCause::AdaptationIsolation,
            HappinessEventScope::DressingRoom,
        ).with_note(
            AdaptationNote {
                kind: PersonalAdaptationKind::StillStrugglingToSettle,
                days_at_club,
                adaptability: self.attributes.adaptability,
                speaks_local_language: !facts.no_local_language,
            },
        ).with_severity(HappinessEventSeverity::Moderate);
        self.happiness.add_event_with_context_and_cooldown(
            HappinessEventType::FeelingIsolated,
            Measure::halves(-2),
            companion,
            30,
        );
        true
    }
}

/// The wish to return home does not feed itself: neither it nor the note that goes with it
/// counts as a lonely day.
pub proof fn lemma_wish_does_not_feed_itself(
    p: Player,
    now: Date,
    code: Seq<char>,
    x: AdaptationFailureSignals,
    magnitude: Measure,
)
    ensures
        lonely_days(
            crate::happiness::log_with_cooldown(
                p.happiness@.push(return_home_event(p, now, code, x, magnitude)),
                companion_event(p, now, code),
                30,
            ),
        ) == lonely_days(p.happiness@),
{
    let log = p.happiness@;
    let wish = log.push(return_home_event(p, now, code, x, magnitude));
    let noted = wish.push(companion_event(p, now, code));
    assert(wish.drop_last() =~= log);
    assert(!is_lonely_day(wish.last()));
    assert(lonely_days(wish) == lonely_days(log));
    assert(noted.drop_last() =~= wish);
    assert(is_companion(noted.last()));
    assert(lonely_days(noted) == lonely_days(wish));
}

/// Once voiced, the wish to return home rests for sixty days: as long as the log holds it, it
/// is not voiced again.
pub proof fn lemma_wish_rests(
    p: Player,
    after: Player,
    now: Date,
    later: Date,
    code: Seq<char>,
    x: AdaptationFailureSignals,
    magnitude: Measure,
)
    requires
        after.happiness@ == crate::happiness::log_with_cooldown(
            p.happiness@.push(return_home_event(p, now, code, x, magnitude)),
            companion_event(p, now, code),
            30,
        ),
    ensures
        !wants_home(after, later, code, x),
{
    let i = p.happiness@.len() as int;
    assert(after.happiness@[i] == return_home_event(p, now, code, x, magnitude));
}

/// At home nobody wants home, in the first sixty days nobody gives up, and a player who never
/// moved does not either. Half of what can go wrong is not enough: it takes five points.
pub proof fn lemma_patience(p: Player, now: Date, code: Seq<char>, x: AdaptationFailureSignals)
    ensures
        x.club_in_home_country ==> !wants_home(p, now, code, x),
        p.last_transfer_date is None ==> !wants_home(p, now, code, x),
        p.last_transfer_date is Some && now.days - p.last_transfer_date->0.days < 60
            ==> !wants_home(p, now, code, x),
        wants_home(p, now, code, x) ==> failure_facts(p, code, x).weight() >= 10,
        wants_home(p, now, code, x) && x.destination_is_favourite ==> failure_facts(
            p,
            code,
            x,
        ).poor_adaptation && failure_facts(p, code, x).weight() >= 14,
        wants_home(p, now, code, x) ==> failure_facts(p, code, x).evidence().len() >= 2,
{
    let f = failure_facts(p, code, x);
    if wants_home(p, now, code, x) {
        lemma_weight_needs_evidence(f);
    }
}

/// Facts that outweigh patience give two pieces of evidence at least.
proof fn lemma_weight_needs_evidence(f: FailureFacts)
    requires
        f.weight() >= 10,
    ensures
        f.evidence().len() >= 2,
{
    assert(f.evidence().len() == weigh(f.different_continent, 1) + weigh(f.no_local_language, 1)
        + weigh(f.low_adaptability, 1) + weigh(f.no_company, 1) + weigh(f.poor_adaptation, 1)
        + weigh(f.repeated_isolation, 1) + weigh(f.low_club_fit, 1));
}

/// Company helps: with the language or a later week nobody is lonely, and more teammates to
/// talk with never make a lonely week more likely. Nothing is said of a player who hardly adapts
/// and has nobody to talk with: his chance is one of its own.
pub proof fn lemma_company_helps(
    p: Player,
    weeks: int,
    speaks: bool,
    buddies: int,
    more: int,
    rules: IntegrationRules,
)
    requires
        0 <= buddies <= more,
        buddies == 0 ==> p.attributes.adaptability.ge(8),
    ensures
        speaks ==> isolation_percent(p, weeks, speaks, buddies, rules) == 0,
        weeks >= rules.early_isolation_max_weeks ==> isolation_percent(
            p,
            weeks,
            speaks,
            buddies,
            rules,
        ) == 0,
        isolation_percent(p, weeks, speaks, more, rules) <= isolation_percent(
            p,
            weeks,
            speaks,
            buddies,
            rules,
        ),
        0 <= isolation_percent(p, weeks, speaks, buddies, rules) <= 100,
{
}

/// When a week abroad is lonely. In the window after a move it takes the first weeks, a foreign
/// language and a roll below the chance: a third and a bit for who hardly adapts and has nobody to
/// talk with; below the threshold else a certainty without company, six tenths with one to talk
/// with, three with more. It weighs two points. Outside the window only the first of a month is
/// lonely, by a point and a half, for who does not speak the language and is not drawn to others.
pub proof fn lemma_lonely_weeks(
    p: Player,
    now: Date,
    code: Seq<char>,
    squad: AdaptationSquadContext,
    rules: IntegrationRules,
    pull: Measure,
    roll: Measure,
)
    ensures
        ({
            let log = p.happiness@;
            let after = log_integration(p, now, code, squad, rules, pull, roll);
            let t = HappinessEventType::FeelingIsolated;
            let lonely = tells(log, after, t);
            let speaks = crate::player::speaks_local(p.languages@, code);
            let days = now.days - p.last_transfer_date->0.days;
            let inside = p.last_transfer_date is Some && 0 <= days
                <= rules.integration_window_days;
            let early = days / 7 < rules.early_isolation_max_weeks;
            let one = crate::measure::one();
            let adapt = p.attributes.adaptability;
            let hopeless = squad.same_language_teammates == 0 && adapt.units() < 8 * one;
            let slow = adapt.clamped_units(0, 20) < rules.early_isolation_max_adaptability.units();
            &&& inside && lonely ==> early && !speaks && (hopeless || slow)
            &&& inside && early && !speaks && hopeless ==> (lonely <==> roll.lt_hundredths(35))
            &&& inside && early && !speaks && !hopeless && slow ==> {
                &&& squad.same_language_teammates == 0 ==> (lonely <==> roll.lt_hundredths(100))
                &&& squad.same_language_teammates == 1 ==> (lonely <==> roll.lt_hundredths(60))
                &&& squad.same_language_teammates >= 2 ==> (lonely <==> roll.lt_hundredths(30))
            }
            &&& !inside ==> (lonely <==> first_of_month(now) && !speaks && pull.units()
                <= rules.chronic_isolation_suppress_threshold.units())
            &&& forall|i: int|
                log.len() <= i < after.len() && (#[trigger] after[i]).event_type == t ==> 2
                    * after[i].magnitude.units() == if inside {
                    -4 * one
                } else {
                    -3 * one
                }
        }),
{
    let log = p.happiness@;
    let after = log_integration(p, now, code, squad, rules, pull, roll);
    let t = HappinessEventType::FeelingIsolated;
    crate::measure::lemma_halves(-4);
    crate::measure::lemma_halves(-3);
    if after.len() > log.len() {
        assert(after =~= log.push(after.last()));
        lemma_tells_one(log, after.last(), t);
    } else {
        assert(after == log);
    }
}

/// When a player has found his place: in the window after a move, from the given week on, if he
/// speaks the language or is drawn to the others, in a week that is not lonely, and once a year.
/// It lifts by one point.
pub proof fn lemma_place_in_the_squad(
    p: Player,
    now: Date,
    code: Seq<char>,
    squad: AdaptationSquadContext,
    rules: IntegrationRules,
    pull: Measure,
    roll: Measure,
)
    ensures
        ({
            let log = p.happiness@;
            let after = log_integration(p, now, code, squad, rules, pull, roll);
            let t = HappinessEventType::SettledIntoSquad;
            let speaks = crate::player::speaks_local(p.languages@, code);
            let days = now.days - p.last_transfer_date->0.days;
            &&& tells(log, after, t) <==> {
                &&& p.last_transfer_date is Some && 0 <= days <= rules.integration_window_days
                &&& days / 7 >= rules.settled_min_weeks
                &&& speaks || pull.units() > rules.settled_pull_threshold.units()
                &&& !tells(log, after, HappinessEventType::FeelingIsolated)
                &&& !crate::happiness::recent(log, t, 365)
            }
            &&& forall|i: int|
                log.len() <= i < after.len() && (#[trigger] after[i]).event_type == t
                    ==> after[i].magnitude.units() == crate::measure::one()
            &&& after.len() <= log.len() + 1
            &&& forall|u: HappinessEventType| #[trigger]
                tells(log, after, u) ==> u is SettledIntoSquad || u is FeelingIsolated
        }),
{
    let log = p.happiness@;
    let after = log_integration(p, now, code, squad, rules, pull, roll);
    crate::measure::lemma_halves(2);
    if after.len() > log.len() {
        assert(after =~= log.push(after.last()));
        lemma_tells_one(log, after.last(), HappinessEventType::SettledIntoSquad);
        lemma_tells_one(log, after.last(), HappinessEventType::FeelingIsolated);
        assert forall|u: HappinessEventType| #[trigger] tells(log, after, u) implies u
            is SettledIntoSquad || u is FeelingIsolated by {
            lemma_tells_one(log, after.last(), u);
        }
    } else {
        assert(after == log);
    }
}

/// What each thing weighs that goes wrong, in halves of a point: another continent or a poor
/// adaptation two points; a foreign language, a stiff character or repeated loneliness a point and
/// a half; no company, a bad fit or a low mood one. A professional or loyal player bears one point
/// more.
pub proof fn lemma_what_homesickness_weighs(f: FailureFacts)
    ensures
        !f.different_continent ==> (FailureFacts { different_continent: true, ..f }).weight() == f.weight() + 4,
        !f.poor_adaptation ==> (FailureFacts { poor_adaptation: true, ..f }).weight() == f.weight() + 4,
        !f.no_local_language ==> (FailureFacts { no_local_language: true, ..f }).weight() == f.weight() + 3,
        !f.low_adaptability ==> (FailureFacts { low_adaptability: true, ..f }).weight() == f.weight() + 3,
        !f.repeated_isolation ==> (FailureFacts { repeated_isolation: true, ..f }).weight() == f.weight() + 3,
        !f.no_company ==> (FailureFacts { no_company: true, ..f }).weight() == f.weight() + 2,
        !f.low_club_fit ==> (FailureFacts { low_club_fit: true, ..f }).weight() == f.weight() + 2,
        !f.low_morale ==> (FailureFacts { low_morale: true, ..f }).weight() == f.weight() + 2,
        !f.professional ==> (FailureFacts { professional: true, ..f }).weight() == f.weight() - 2,
        !f.loyal ==> (FailureFacts { loyal: true, ..f }).weight() == f.weight() - 2,
        !f.different_continent && !f.poor_adaptation && !f.no_local_language && !f.low_adaptability
            && !f.repeated_isolation && !f.no_company && !f.low_club_fit && !f.low_morale
            && !f.professional && !f.loyal ==> f.weight() == 0,
{
    lemma_weight_of_different_continent(f);
    lemma_weight_of_poor_adaptation(f);
    lemma_weight_of_no_local_language(f);
    lemma_weight_of_low_adaptability(f);
    lemma_weight_of_repeated_isolation(f);
    lemma_weight_of_no_company(f);
    lemma_weight_of_low_club_fit(f);
    lemma_weight_of_low_morale(f);
    lemma_weight_of_professional(f);
    lemma_weight_of_loyal(f);
    lemma_weight_of_nothing(f);
}

proof fn lemma_weight_of_different_continent(f: FailureFacts)
    ensures
        !f.different_continent ==> (FailureFacts { different_continent: true, ..f }).weight() == f.weight() + 4,
{
}

proof fn lemma_weight_of_poor_adaptation(f: FailureFacts)
    ensures
        !f.poor_adaptation ==> (FailureFacts { poor_adaptation: true, ..f }).weight() == f.weight() + 4,
{
}

proof fn lemma_weight_of_no_local_language(f: FailureFacts)
    ensures
        !f.no_local_language ==> (FailureFacts { no_local_language: true, ..f }).weight() == f.weight() + 3,
{
}

proof fn lemma_weight_of_low_adaptability(f: FailureFacts)
    ensures
        !f.low_adaptability ==> (FailureFacts { low_adaptability: true, ..f }).weight() == f.weight() + 3,
{
}

proof fn lemma_weight_of_repeated_isolation(f: FailureFacts)
    ensures
        !f.repeated_isolation ==> (FailureFacts { repeated_isolation: true, ..f }).weight() == f.weight() + 3,
{
}

proof fn lemma_weight_of_no_company(f: FailureFacts)
    ensures
        !f.no_company ==> (FailureFacts { no_company: true, ..f }).weight() == f.weight() + 2,
{
}

proof fn lemma_weight_of_low_club_fit(f: FailureFacts)
    ensures
        !f.low_club_fit ==> (FailureFacts { low_club_fit: true, ..f }).weight() == f.weight() + 2,
{
}

proof fn lemma_weight_of_low_morale(f: FailureFacts)
    ensures
        !f.low_morale ==> (FailureFacts { low_morale: true, ..f }).weight() == f.weight() + 2,
{
}

proof fn lemma_weight_of_professional(f: FailureFacts)
    ensures
        !f.professional ==> (FailureFacts { professional: true, ..f }).weight() == f.weight() - 2,
{
}

proof fn lemma_weight_of_loyal(f: FailureFacts)
    ensures
        !f.loyal ==> (FailureFacts { loyal: true, ..f }).weight() == f.weight() - 2,
{
}

proof fn lemma_weight_of_nothing(f: FailureFacts)
    ensures
        !f.different_continent && !f.poor_adaptation && !f.no_local_language && !f.low_adaptability
            && !f.repeated_isolation && !f.no_company && !f.low_club_fit && !f.low_morale
            && !f.professional && !f.loyal ==> f.weight() == 0,
{
}

/// What goes wrong, and when: each thing by what is measured of it.
pub proof fn lemma_what_goes_wrong(p: Player, code: Seq<char>, x: AdaptationFailureSignals)
    ensures
        ({
            let f = failure_facts(p, code, x);
            let one = crate::measure::one();
            let (home, club) = (x.player_nationality_continent_id, x.club_continent_id);
            &&& f.different_continent <==> home > 0 && club > 0 && home != club
            &&& f.no_local_language <==> !crate::player::speaks_local(p.languages@, code)
            &&& f.low_adaptability <==> p.attributes.adaptability.units() <= 8 * one
            &&& f.no_company <==> x.same_language_or_nationality_teammates == 0
            &&& f.repeated_isolation <==> lonely_days(p.happiness@) > 1
            &&& f.low_club_fit <==> x.club_fit.units() <= -3 * one
            &&& f.poor_adaptation <==> 0 < x.adaptation_score.units() < 40 * one
            &&& f.low_morale <==> p.happiness.morale.units() < 35 * one
            &&& f.professional <==> p.attributes.professionalism.units() >= 16 * one
            &&& f.loyal <==> p.attributes.loyalty.units() >= 16 * one
        }),
{
    assert(0 * crate::measure::one() == 0);
}

/// When a player comes to want home: away from home, from the sixtieth day after a move, with no
/// such wish in the last sixty days, and with five points against the club. At a favourite club it
/// takes seven, a poor adaptation among them, and a mood of twenty at most.
pub proof fn lemma_when_a_player_wants_home(
    p: Player,
    now: Date,
    code: Seq<char>,
    x: AdaptationFailureSignals,
)
    ensures
        ({
            let f = failure_facts(p, code, x);
            let days = now.days - p.last_transfer_date->0.days;
            let free = p.last_transfer_date is Some && days >= 60 && !x.club_in_home_country
                && !crate::happiness::recent(p.happiness@, HappinessEventType::WantsReturnHome, 60);
            let one = crate::measure::one();
            &&& wants_home(p, now, code, x) ==> free
            &&& free && !x.destination_is_favourite ==> (wants_home(p, now, code, x) <==> f.weight()
                >= 2 * 5)
            &&& free && x.destination_is_favourite ==> (wants_home(p, now, code, x) <==> f.weight()
                >= 2 * 7 && f.poor_adaptation && p.happiness.morale.units() <= 20 * one)
        }),
{
}

/// How lonely days are counted: one of the last ninety counts once, a note that goes with a wish
/// to return never does, and nothing else counts.
pub proof fn lemma_lonely_days_are_counted(log: Seq<EventView>, e: EventView)
    ensures
        ({
            let note = e.context is Some && e.context->0.adaptation is Some;
            &&& lonely_days(Seq::empty()) == 0
            &&& e.event_type is FeelingIsolated && e.days_ago <= 90 && !note ==> lonely_days(
                log.push(e),
            ) == lonely_days(log) + 1
            &&& !(e.event_type is FeelingIsolated) || e.days_ago > 90 || note ==> lonely_days(
                log.push(e),
            ) == lonely_days(log)
        }),
{
    assert(log.push(e).drop_last() =~= log);
}

proof fn lemma_noted_holds(
    list: Seq<CareerDesireEvidence>,
    holds: bool,
    e: CareerDesireEvidence,
    x: CareerDesireEvidence,
)
    ensures
        noted(list, holds, e).contains(x) <==> list.contains(x) || (holds && x == e),
{
    let after = noted(list, holds, e);
    if list.contains(x) {
        let i = choose|i: int| 0 <= i < list.len() && list[i] == x;
        assert(after[i] == x);
    }
    if holds {
        assert(after[list.len() as int] == e);
    }
    if after.contains(x) {
        let i = choose|i: int| 0 <= i < after.len() && after[i] == x;
        if i < list.len() {
            assert(list[i] == x);
        }
    }
}

/// A wish to return names as evidence what went wrong, each thing exactly where it did; mood,
/// professionalism and loyalty count but are not named. It comes with how long the player has been
/// there, and with a note of one point of loneliness that is moderate by definition.
pub proof fn lemma_wish_is_explained(
    p: Player,
    now: Date,
    code: Seq<char>,
    x: AdaptationFailureSignals,
    magnitude: Measure,
    e: CareerDesireEvidence,
)
    requires
        p.last_transfer_date is Some,
        0 <= now.days - p.last_transfer_date->0.days,
    ensures
        ({
            let f = failure_facts(p, code, x);
            let wish = return_home_event(p, now, code, x, magnitude);
            let desire = wish.context->0.career_desire->0;
            let note = companion_event(p, now, code);
            &&& desire.evidence.contains(e) <==> match e {
                CareerDesireEvidence::DifferentContinent => f.different_continent,
                CareerDesireEvidence::NoLocalLanguage => f.no_local_language,
                CareerDesireEvidence::LowAdaptability => f.low_adaptability,
                CareerDesireEvidence::NoCompatriotSupport => f.no_company,
                CareerDesireEvidence::PoorAdaptationScore => f.poor_adaptation,
                CareerDesireEvidence::RepeatedIsolation => f.repeated_isolation,
                CareerDesireEvidence::LowClubFit => f.low_club_fit,
                _ => false,
            }
            &&& wish.event_type is WantsReturnHome && wish.days_ago == 0 && wish.magnitude
                == magnitude
            &&& desire.kind is ReturnHomeAfterPoorAdaptation
            &&& desire.days_at_club is Some && desire.days_at_club->0 == now.days
                - p.last_transfer_date->0.days
            &&& desire.adaptation_score is Some <==> x.adaptation_score.units() > 0
            &&& note.event_type is FeelingIsolated && note.days_ago == 0 && note.magnitude.units()
                == -crate::measure::one()
            &&& note.context->0.severity is Moderate
        }),
{
    let f = failure_facts(p, code, x);
    let s = Seq::<CareerDesireEvidence>::empty();
    let a = noted(s, f.different_continent, CareerDesireEvidence::DifferentContinent);
    let b = noted(a, f.no_local_language, CareerDesireEvidence::NoLocalLanguage);
    let c = noted(b, f.low_adaptability, CareerDesireEvidence::LowAdaptability);
    let d = noted(c, f.no_company, CareerDesireEvidence::NoCompatriotSupport);
    let g = noted(d, f.poor_adaptation, CareerDesireEvidence::PoorAdaptationScore);
    let h = noted(g, f.repeated_isolation, CareerDesireEvidence::RepeatedIsolation);
    lemma_noted_holds(s, f.different_continent, CareerDesireEvidence::DifferentContinent, e);
    lemma_noted_holds(a, f.no_local_language, CareerDesireEvidence::NoLocalLanguage, e);
    lemma_noted_holds(b, f.low_adaptability, CareerDesireEvidence::LowAdaptability, e);
    lemma_noted_holds(c, f.no_company, CareerDesireEvidence::NoCompatriotSupport, e);
    lemma_noted_holds(d, f.poor_adaptation, CareerDesireEvidence::PoorAdaptationScore, e);
    lemma_noted_holds(g, f.repeated_isolation, CareerDesireEvidence::RepeatedIsolation, e);
    lemma_noted_holds(h, f.low_club_fit, CareerDesireEvidence::LowClubFit, e);
    crate::measure::lemma_halves(-2);
    assert(0 * crate::measure::one() == 0);
}

} // verus!
