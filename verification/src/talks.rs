//! A contract talk from its start to its end.
//!
//! A talk asks the rest of the club questions, one at a time: whether a stalemate is final,
//! whether the talk has to wait, what the player is worth, how long a contract both sides would
//! sign. Each answer moves it to its next phase, and names what is to be done.

use crate::club::{
    cap_to_budget, make_proposal, offered_salary, prepare_offer,
    process_player_contract_interaction, settle_years, ContractSignals, ContractStep, OfferStep,
    OfferValuation, PlayerContractAsk, PlayerContractProposal, RenewalLabels,
    UnresolvedSalaryTrigger, ValuationInputs,
};
use crate::date::Date;
use crate::player::Player;
#[allow(unused_imports)]
use vstd::prelude::*;

verus! {

/// Where a talk stands.
#[derive(Clone, Copy, Debug, PartialEq, Eq, Structural)]
pub enum TalkPhase {
    /// The talk is over.
    Closed,
    /// It is asked whether the stalemate is final.
    Stalemate,
    /// It is asked whether the talk has to wait.
    Deferral,
    /// It is asked what the player is worth.
    Valuation { inputs: ValuationInputs },
    /// It is asked how long the contract is to be.
    Length { salary: u32, valuation: OfferValuation },
}

/// What the player is worth, what he demands and what the club can pay.
#[derive(Clone, Copy, Debug, PartialEq, Eq, Structural)]
pub struct Worth {
    /// What the staff take the player to be worth.
    pub target: u32,
    /// What he is worth, and to whom.
    pub valuation: OfferValuation,
    /// Whether meeting his demand would end the stalemate.
    pub improve: bool,
    /// Zero where there is no budget.
    pub wage_budget: u32,
    pub wage_bill: u32,
}

/// How long a contract both sides would sign, and with whose help.
#[derive(Clone, Copy, Debug, PartialEq, Eq, Structural)]
pub struct Terms {
    pub compromise: u8,
    /// The shortest contract that the player signs.
    pub minimum: u8,
    pub negotiation_skill: u8,
    pub age: u8,
    pub loyalty_bonus: u32,
}

/// An answer.
#[derive(Clone, Copy, Debug, PartialEq, Eq, Structural)]
pub enum TalkEvent {
    Final(bool),
    Waits(bool),
    Valued(Worth),
    Agreed(Terms),
}

/// What is to be done next.
#[derive(Clone, Copy, Debug, PartialEq, Eq, Structural)]
pub enum TalkAction {
    Nothing,
    AskStalemate,
    /// Ask whether the talk has to wait for the club that holds the contract.
    AskDeferral { contract_club_id: u32 },
    AskWorth { inputs: ValuationInputs },
    AskLength { salary: u32 },
    /// Send the offer and record it.
    Propose(PlayerContractProposal),
    /// Part with the player, where the club lets him go.
    Part(UnresolvedSalaryTrigger),
}

/// How a talk begins.
pub open spec fn opening(step: ContractStep) -> (TalkPhase, TalkAction) {
    match step {
        ContractStep::Nothing => (TalkPhase::Closed, TalkAction::Nothing),
        ContractStep::AssessStalemate => (TalkPhase::Stalemate, TalkAction::AskStalemate),
        ContractStep::Negotiate { contract_club_id } => (
            TalkPhase::Deferral,
            TalkAction::AskDeferral { contract_club_id },
        ),
    }
}

/// The decision on an offer, once the talk does not have to wait.
pub open spec fn offer_step(
    player: Option<Player>,
    signals: ContractSignals,
    today: Date,
) -> OfferStep {
    match player {
        None => OfferStep::Nothing,
        Some(p) => if !p.is_on_loan && signals.want_improve_contract
            && crate::club::valuation_inputs(p, today).squad_status is NotNeeded {
            OfferStep::Unresolved
        } else {
            OfferStep::Evaluate(crate::club::valuation_inputs(p, today))
        },
    }
}

/// Whether the player is at his own club and asked for more.
pub open spec fn raise_at_home(player: Option<Player>, signals: ContractSignals) -> bool {
    signals.want_improve_contract && !(player is Some && player->0.is_on_loan)
}

/// The salary that a demand asks for.
pub open spec fn demanded(ask: Option<PlayerContractAsk>) -> Option<u32> {
    match ask {
        Some(a) => Some(a.desired_salary),
        None => None,
    }
}

/// The salary before the budget is looked at.
pub open spec fn wished_salary(
    player: Option<Player>,
    signals: ContractSignals,
    ask: Option<PlayerContractAsk>,
    inputs: ValuationInputs,
    w: Worth,
) -> int {
    crate::club::converged_salary(
        crate::club::opening_salary(
            inputs.current_salary,
            w.target,
            w.valuation.expected_wage,
            raise_at_home(player, signals),
        ),
        demanded(ask),
        w.improve,
    )
}

/// Whether every sum in the salary stays in range.
pub open spec fn in_bounds(
    player: Option<Player>,
    signals: ContractSignals,
    ask: Option<PlayerContractAsk>,
    inputs: ValuationInputs,
    w: Worth,
) -> bool {
    let opening = crate::club::opening_salary(
        inputs.current_salary,
        w.target,
        w.valuation.expected_wage,
        raise_at_home(player, signals),
    );
    &&& inputs.current_salary + inputs.current_salary / 20 <= u32::MAX
    &&& inputs.current_salary < u32::MAX
    &&& ask is Some && ask->0.desired_salary > opening && !w.improve ==> opening
        + ask->0.desired_salary <= u32::MAX
    &&& w.wage_budget > 0 ==> w.wage_bill + wished_salary(player, signals, ask, inputs, w)
        - inputs.current_salary <= u32::MAX
}

/// Tells whether every sum in the salary stays in range.
pub fn sums_stay_in_range(
    player: Option<&Player>,
    signals: ContractSignals,
    ask: Option<PlayerContractAsk>,
    inputs: ValuationInputs,
    w: Worth,
) -> (r: bool)
    ensures
        r == in_bounds(seen(player), signals, ask, inputs, w),
{
    let on_loan = match player {
        Some(p) => p.is_on_loan,
        None => false,
    };
    let limit: u64 = u32::MAX as u64;
    let current: u64 = inputs.current_salary as u64;
    if current + current / 20 > limit || current >= limit {
        return false;
    }
    let mut wage: u64 = w.target as u64;
    if current + current / 20 > wage {
        wage = current + current / 20;
    }
    if current + 1 > wage {
        wage = current + 1;
    }
    if signals.want_improve_contract && !on_loan && w.valuation.expected_wage as u64 > wage {
        wage = w.valuation.expected_wage as u64;
    }
    match ask {
        Some(a) => {
            let desired: u64 = a.desired_salary as u64;
            if desired > wage {
                if !w.improve && wage + desired > limit {
                    return false;
                }
                wage = if w.improve {
                    desired
                } else {
                    (wage + desired) / 2
                };
            }
        },
        None => {},
    }
    w.wage_budget == 0 || w.wage_bill as u64 + wage - current <= limit
}

/// How an answer moves a talk. An answer to another question changes nothing.
pub open spec fn next(
    player: Option<Player>,
    signals: ContractSignals,
    ask: Option<PlayerContractAsk>,
    today: Date,
    phase: TalkPhase,
    event: TalkEvent,
) -> (TalkPhase, TalkAction) {
    match (phase, event) {
        (TalkPhase::Stalemate, TalkEvent::Final(holds)) => (
            TalkPhase::Closed,
            if holds {
                TalkAction::Part(UnresolvedSalaryTrigger::FailedRenewal)
            } else {
                TalkAction::Nothing
            },
        ),
        (TalkPhase::Deferral, TalkEvent::Waits(waits)) => if waits {
            (TalkPhase::Closed, TalkAction::Nothing)
        } else {
            match offer_step(player, signals, today) {
                OfferStep::Nothing => (TalkPhase::Closed, TalkAction::Nothing),
                OfferStep::Unresolved => (
                    TalkPhase::Closed,
                    TalkAction::Part(UnresolvedSalaryTrigger::NotNeededWantsRaise),
                ),
                OfferStep::Evaluate(inputs) => (
                    TalkPhase::Valuation { inputs },
                    TalkAction::AskWorth { inputs },
                ),
            }
        },
        (TalkPhase::Valuation { inputs }, TalkEvent::Valued(w)) => {
            match crate::club::affordable_salary(
                wished_salary(player, signals, ask, inputs, w) as u32,
                inputs.current_salary,
                w.wage_budget,
                w.wage_bill,
                raise_at_home(player, signals),
            ) {
                Some(salary) => (
                    TalkPhase::Length { salary, valuation: w.valuation },
                    TalkAction::AskLength { salary },
                ),
                None => (TalkPhase::Closed, TalkAction::Nothing),
            }
        },
        (TalkPhase::Length { salary, valuation }, TalkEvent::Agreed(t)) => (
            TalkPhase::Closed,
            TalkAction::Propose(
                crate::club::proposal(
                    salary,
                    crate::club::offered_years(t.compromise, t.minimum, ask) as u8,
                    t.negotiation_skill,
                    t.age,
                    t.loyalty_bonus,
                    ask,
                    valuation,
                ),
            ),
        ),
        _ => (phase, TalkAction::Nothing),
    }
}

/// The player, where there is one, as a value.
pub open spec fn seen(player: Option<&Player>) -> Option<Player> {
    match player {
        Some(p) => Some(*p),
        None => None,
    }
}

/// Begins a talk about what a player brought up.
pub fn open_talk(
    player: Option<&Player>,
    signals: ContractSignals,
    club_id: u32,
    labels: &RenewalLabels,
    today: Date,
) -> (r: (TalkPhase, TalkAction))
    ensures
        r == opening(
            crate::club::contract_step(seen(player), signals, club_id, labels@, today),
        ),
{
    match process_player_contract_interaction(player, signals, club_id, labels, today) {
        ContractStep::Nothing => (TalkPhase::Closed, TalkAction::Nothing),
        ContractStep::AssessStalemate => (TalkPhase::Stalemate, TalkAction::AskStalemate),
        ContractStep::Negotiate { contract_club_id } => (
            TalkPhase::Deferral,
            TalkAction::AskDeferral { contract_club_id },
        ),
    }
}

/// Moves a talk on by an answer.
pub fn advance(
    player: Option<&Player>,
    signals: ContractSignals,
    ask: Option<PlayerContractAsk>,
    today: Date,
    phase: TalkPhase,
    event: TalkEvent,
) -> (r: (TalkPhase, TalkAction))
    requires
        (phase is Valuation && event is Valued) ==> in_bounds(
            seen(player),
            signals,
            ask,
            phase->inputs,
            event->Valued_0,
        ),
    ensures
        r == next(seen(player), signals, ask, today, phase, event),
{
    match (phase, event) {
        (TalkPhase::Stalemate, TalkEvent::Final(holds)) => (
            TalkPhase::Closed,
            if holds {
                TalkAction::Part(UnresolvedSalaryTrigger::FailedRenewal)
            } else {
                TalkAction::Nothing
            },
        ),
        (TalkPhase::Deferral, TalkEvent::Waits(waits)) => {
            if waits {
                return (TalkPhase::Closed, TalkAction::Nothing);
            }
            match prepare_offer(player, signals, today) {
                OfferStep::Nothing => (TalkPhase::Closed, TalkAction::Nothing),
                OfferStep::Unresolved => (
                    TalkPhase::Closed,
                    TalkAction::Part(UnresolvedSalaryTrigger::NotNeededWantsRaise),
                ),
                OfferStep::Evaluate(inputs) => (
                    TalkPhase::Valuation { inputs },
                    TalkAction::AskWorth { inputs },
                ),
            }
        },
        (TalkPhase::Valuation { inputs }, TalkEvent::Valued(w)) => {
            let on_loan = match player {
                Some(p) => p.is_on_loan,
                None => false,
            };
            let at_home = signals.want_improve_contract && !on_loan;
            let desired = match ask {
                Some(a) => Some(a.desired_salary),
                None => None,
            };
            let wished: u32 = offered_salary(
                inputs.current_salary,
                w.target,
                w.valuation.expected_wage,
                at_home,
                desired,
                w.improve,
            );
            match cap_to_budget(
                wished,
                inputs.current_salary,
                w.wage_budget,
                w.wage_bill,
                at_home,
            ) {
                Some(salary) => (
                    TalkPhase::Length { salary, valuation: w.valuation },
                    TalkAction::AskLength { salary },
                ),
                None => (TalkPhase::Closed, TalkAction::Nothing),
            }
        },
        (TalkPhase::Length { salary, valuation }, TalkEvent::Agreed(t)) => {
            let years: u8 = settle_years(t.compromise, t.minimum, ask);
            (
                TalkPhase::Closed,
                TalkAction::Propose(
                    make_proposal(
                        salary,
                        years,
                        t.negotiation_skill,
                        t.age,
                        t.loyalty_bonus,
                        ask,
                        valuation,
                    ),
                ),
            )
        },
        _ => (phase, TalkAction::Nothing),
    }
}

/// How many answers a talk still needs.
pub open spec fn answers_left(phase: TalkPhase) -> nat {
    match phase {
        TalkPhase::Closed => 0,
        TalkPhase::Stalemate => 1,
        TalkPhase::Length { .. } => 1,
        TalkPhase::Valuation { .. } => 2,
        TalkPhase::Deferral => 3,
    }
}

/// Whether the answer is one to the question that the phase asks.
pub open spec fn answers(phase: TalkPhase, event: TalkEvent) -> bool {
    match phase {
        TalkPhase::Closed => false,
        TalkPhase::Stalemate => event is Final,
        TalkPhase::Deferral => event is Waits,
        TalkPhase::Valuation { .. } => event is Valued,
        TalkPhase::Length { .. } => event is Agreed,
    }
}

/// A talk ends: it starts with three answers to go at most, every answer to its question takes
/// at least one off, and an answer to another question changes nothing.
pub proof fn lemma_talks_end(
    step: ContractStep,
    player: Option<Player>,
    signals: ContractSignals,
    ask: Option<PlayerContractAsk>,
    today: Date,
    phase: TalkPhase,
    event: TalkEvent,
)
    ensures
        answers_left(opening(step).0) <= 3,
        answers(phase, event) ==> answers_left(next(player, signals, ask, today, phase, event).0)
            < answers_left(phase),
        !answers(phase, event) ==> next(player, signals, ask, today, phase, event) == (
            phase,
            TalkAction::Nothing,
        ),
{
}

/// A talk makes one offer or parts once, and is over with either: neither comes with a question
/// still open.
pub proof fn lemma_one_outcome(
    player: Option<Player>,
    signals: ContractSignals,
    ask: Option<PlayerContractAsk>,
    today: Date,
    phase: TalkPhase,
    event: TalkEvent,
)
    ensures
        ({
            let (after, action) = next(player, signals, ask, today, phase, event);
            action is Propose || action is Part ==> after is Closed && !(phase is Closed)
        }),
{
}

/// A club never parts with a player it has on loan: his refusal leaves the talk closed from the
/// start, and his wishes never lead to a parting.
pub proof fn lemma_loaned_player_stays(
    p: Player,
    signals: ContractSignals,
    club_id: u32,
    labels: crate::club::LabelsView,
    ask: Option<PlayerContractAsk>,
    today: Date,
    event: TalkEvent,
)
    requires
        p.is_on_loan,
    ensures
        !(opening(crate::club::contract_step(Some(p), signals, club_id, labels, today)).0
            is Stalemate),
        !(next(Some(p), signals, ask, today, TalkPhase::Deferral, event).1 is Part),
{
}

/// What a talk does as its answers come in, one action for each.
pub open spec fn actions(
    player: Option<Player>,
    signals: ContractSignals,
    ask: Option<PlayerContractAsk>,
    today: Date,
    phase: TalkPhase,
    events: Seq<TalkEvent>,
) -> Seq<TalkAction>
    decreases events.len(),
{
    if events.len() == 0 {
        Seq::empty()
    } else {
        let (after, action) = next(player, signals, ask, today, phase, events[0]);
        seq![action] + actions(player, signals, ask, today, after, events.drop_first())
    }
}

/// The offers among some actions: each of them is sent to the player and recorded.
pub open spec fn offers(actions: Seq<TalkAction>) -> Seq<PlayerContractProposal>
    decreases actions.len(),
{
    if actions.len() == 0 {
        Seq::empty()
    } else {
        let rest = offers(actions.drop_first());
        match actions[0] {
            TalkAction::Propose(offer) => seq![offer] + rest,
            _ => rest,
        }
    }
}

/// A talk makes at most one offer, whatever the answers are, and none once it is closed.
pub proof fn lemma_at_most_one_offer(
    player: Option<Player>,
    signals: ContractSignals,
    ask: Option<PlayerContractAsk>,
    today: Date,
    phase: TalkPhase,
    events: Seq<TalkEvent>,
)
    ensures
        offers(actions(player, signals, ask, today, phase, events)).len() <= 1,
        phase is Closed ==> offers(actions(player, signals, ask, today, phase, events)).len() == 0,
    decreases events.len(),
{
    if events.len() > 0 {
        let (after, action) = next(player, signals, ask, today, phase, events[0]);
        let rest = actions(player, signals, ask, today, after, events.drop_first());
        lemma_at_most_one_offer(player, signals, ask, today, after, events.drop_first());
        assert((seq![action] + rest).drop_first() =~= rest);
    }
}

/// Three answers lead to three actions, each from the phase that the one before it led to.
proof fn lemma_three_answers(
    player: Option<Player>,
    signals: ContractSignals,
    ask: Option<PlayerContractAsk>,
    today: Date,
    phase: TalkPhase,
    e: TalkEvent,
    f: TalkEvent,
    g: TalkEvent,
)
    ensures
        ({
            let first = next(player, signals, ask, today, phase, e);
            let second = next(player, signals, ask, today, first.0, f);
            let third = next(player, signals, ask, today, second.0, g);
            actions(player, signals, ask, today, phase, seq![e, f, g]) == seq![
                first.1,
                second.1,
                third.1,
            ]
        }),
{
    let first = next(player, signals, ask, today, phase, e);
    let second = next(player, signals, ask, today, first.0, f);
    let third = next(player, signals, ask, today, second.0, g);
    assert(seq![e, f, g].drop_first() =~= seq![f, g]);
    assert(seq![f, g].drop_first() =~= seq![g]);
    assert(seq![g].drop_first() =~= Seq::<TalkEvent>::empty());
    assert(actions(player, signals, ask, today, third.0, Seq::empty()) =~= Seq::empty());
    assert(actions(player, signals, ask, today, second.0, seq![g]) =~= seq![third.1]);
    assert(actions(player, signals, ask, today, first.0, seq![f, g]) =~= seq![second.1, third.1]);
    assert(actions(player, signals, ask, today, phase, seq![e, f, g]) =~= seq![
        first.1,
        second.1,
        third.1,
    ]);
}

proof fn lemma_offer_comes_last(a: TalkAction, b: TalkAction, c: TalkAction, d: TalkAction)
    requires
        !(a is Propose) && !(b is Propose) && !(c is Propose) && d is Propose,
    ensures
        offers(seq![a, b, c, d]) == seq![d->Propose_0],
{
    assert(seq![a, b, c, d].drop_first() =~= seq![b, c, d]);
    assert(seq![b, c, d].drop_first() =~= seq![c, d]);
    assert(seq![c, d].drop_first() =~= seq![d]);
    assert(seq![d].drop_first() =~= Seq::<TalkAction>::empty());
    assert(offers(Seq::<TalkAction>::empty()) =~= Seq::empty());
    assert(offers(seq![d]) =~= seq![d->Propose_0]);
    assert(offers(seq![c, d]) == offers(seq![d]));
    assert(offers(seq![b, c, d]) == offers(seq![c, d]));
    assert(offers(seq![a, b, c, d]) == offers(seq![b, c, d]));
}

/// The salary that a valued talk goes on with.
proof fn lemma_salary_is_named(
    player: Option<Player>,
    signals: ContractSignals,
    ask: Option<PlayerContractAsk>,
    today: Date,
    inputs: ValuationInputs,
    w: Worth,
)
    requires
        in_bounds(player, signals, ask, inputs, w),
        !(raise_at_home(player, signals) && 0 < w.wage_budget <= w.wage_bill),
    ensures
        ({
            let (after, action) = next(
                player,
                signals,
                ask,
                today,
                TalkPhase::Valuation { inputs },
                TalkEvent::Valued(w),
            );
            let salary = after->salary;
            &&& after == TalkPhase::Length { salary, valuation: w.valuation }
            &&& action == TalkAction::AskLength { salary }
            &&& salary >= inputs.current_salary
            &&& w.wage_budget > 0 ==> w.wage_bill + (salary - inputs.current_salary)
                <= crate::club::greater(w.wage_budget as int, w.wage_bill as int)
        }),
{
    let wished = wished_salary(player, signals, ask, inputs, w);
    assert(inputs.current_salary < wished <= u32::MAX);
    crate::club::lemma_offer_within_budget(
        wished as u32,
        inputs.current_salary,
        w.wage_budget,
        w.wage_bill,
        raise_at_home(player, signals),
    );
}

/// A talk that does not have to wait ends in one offer, unless the club wants to part with the
/// player, or he asked for a raise and its wage budget is used up. The offer pays at least what
/// he earns now; it goes over the wage budget only where the wages do already, and then adds
/// nothing to them; it is for a year at least. One row in the register records it, under
/// the day of the talk and the label of an offer.
pub proof fn lemma_offer_is_made(
    p: Player,
    signals: ContractSignals,
    club_id: u32,
    labels: crate::club::LabelsView,
    ask: Option<PlayerContractAsk>,
    today: Date,
    w: Worth,
    t: Terms,
    words: spec_fn(PlayerContractProposal) -> Seq<char>,
)
    requires
        crate::club::contract_step(Some(p), signals, club_id, labels, today) is Negotiate,
        offer_step(Some(p), signals, today) is Evaluate,
        in_bounds(
            Some(p),
            signals,
            ask,
            crate::club::valuation_inputs(p, today),
            w,
        ),
        !(raise_at_home(Some(p), signals) && 0 < w.wage_budget <= w.wage_bill),
    ensures
        ({
            let current = crate::club::valuation_inputs(p, today).current_salary;
            let step = crate::club::contract_step(Some(p), signals, club_id, labels, today);
            let events = seq![TalkEvent::Waits(false), TalkEvent::Valued(w), TalkEvent::Agreed(t)];
            let done = seq![opening(step).1] + actions(
                Some(p),
                signals,
                ask,
                today,
                opening(step).0,
                events,
            );
            let offer = offers(done)[0];
            let rows = offers(done).map_values(
                |o: PlayerContractProposal| crate::club::offer_row(labels, today, words(o)),
            );
            &&& offers(done).len() == 1
            &&& offer.salary >= current
            &&& w.wage_budget > 0 ==> w.wage_bill + (offer.salary - current)
                <= crate::club::greater(w.wage_budget as int, w.wage_bill as int)
            &&& offer.years >= 1
            &&& offer.valuation_expected_wage == Some(w.valuation.expected_wage)
            &&& rows.len() == 1
            &&& rows[0].date == today && rows[0].decision == labels.offered
        }),
{
    let step = crate::club::contract_step(Some(p), signals, club_id, labels, today);
    let inputs = crate::club::valuation_inputs(p, today);
    let (e, f, g) = (TalkEvent::Waits(false), TalkEvent::Valued(w), TalkEvent::Agreed(t));
    let first = next(Some(p), signals, ask, today, TalkPhase::Deferral, e);
    assert(first == (TalkPhase::Valuation { inputs }, TalkAction::AskWorth { inputs }));
    lemma_salary_is_named(Some(p), signals, ask, today, inputs, w);
    let second = next(Some(p), signals, ask, today, first.0, f);
    let third = next(Some(p), signals, ask, today, second.0, g);
    lemma_three_answers(Some(p), signals, ask, today, TalkPhase::Deferral, e, f, g);
    lemma_offer_comes_last(opening(step).1, first.1, second.1, third.1);
    assert(seq![opening(step).1] + seq![first.1, second.1, third.1] =~= seq![
        opening(step).1,
        first.1,
        second.1,
        third.1,
    ]);
}

/// An offer pays at least what the player earns now, and keeps to the wage budget where it pays
/// more.
pub proof fn lemma_offer_is_sound(
    player: Option<Player>,
    signals: ContractSignals,
    ask: Option<PlayerContractAsk>,
    today: Date,
    inputs: ValuationInputs,
    w: Worth,
)
    requires
        in_bounds(player, signals, ask, inputs, w),
    ensures
        ({
            let (after, _) = next(
                player,
                signals,
                ask,
                today,
                TalkPhase::Valuation { inputs },
                TalkEvent::Valued(w),
            );
            after is Length ==> {
                let salary = after->salary;
                &&& salary >= inputs.current_salary
                &&& w.wage_budget > 0 && salary > inputs.current_salary ==> w.wage_bill + (salary
                    - inputs.current_salary) <= w.wage_budget
            }
        }),
{
    let wished = wished_salary(player, signals, ask, inputs, w);
    assert(wished > inputs.current_salary);
    assert(wished <= u32::MAX);
}

/// How a talk goes on. It opens with a question where there is one to ask; a final stalemate, and a
/// raise for a player who is not needed at his own club, lead to a parting; a talk that waits ends
/// there; every other goes on to what the player is worth.
pub proof fn lemma_how_a_talk_goes_on(
    p: Player,
    signals: ContractSignals,
    ask: Option<PlayerContractAsk>,
    today: Date,
    step: ContractStep,
    holds: bool,
)
    ensures
        ({
            let (closed, nothing) = (TalkPhase::Closed, TalkAction::Nothing);
            let unwanted = !p.is_on_loan && signals.want_improve_contract && p.contract is Some
                && p.contract->0.squad_status is NotNeeded;
            let final_word = next(
                Some(p),
                signals,
                ask,
                today,
                TalkPhase::Stalemate,
                TalkEvent::Final(holds),
            );
            let go_on = next(
                Some(p),
                signals,
                ask,
                today,
                TalkPhase::Deferral,
                TalkEvent::Waits(false),
            );
            let wait = next(
                Some(p),
                signals,
                ask,
                today,
                TalkPhase::Deferral,
                TalkEvent::Waits(true),
            );
            &&& step is Nothing <==> opening(step).0 is Closed
            &&& step is AssessStalemate <==> opening(step).1 is AskStalemate
            &&& step is Negotiate <==> opening(step).1 is AskDeferral
            &&& step is Negotiate ==> opening(step).1->contract_club_id == step->contract_club_id
            &&& holds ==> final_word == (
                closed,
                TalkAction::Part(UnresolvedSalaryTrigger::FailedRenewal),
            )
            &&& !holds ==> final_word == (closed, nothing)
            &&& wait == (closed, nothing)
            &&& unwanted ==> go_on == (
                closed,
                TalkAction::Part(UnresolvedSalaryTrigger::NotNeededWantsRaise),
            )
            &&& !unwanted ==> go_on.0 is Valuation && go_on.1 is AskWorth
        }),
{
}

/// What a talk hands on: the salary that was named and the valuation behind it reach the offer as
/// they were, and the length is the one that was settled.
pub proof fn lemma_what_a_talk_hands_on(
    player: Option<Player>,
    signals: ContractSignals,
    ask: Option<PlayerContractAsk>,
    today: Date,
    salary: u32,
    valuation: OfferValuation,
    t: Terms,
)
    ensures
        ({
            let (after, action) = next(
                player,
                signals,
                ask,
                today,
                TalkPhase::Length { salary, valuation },
                TalkEvent::Agreed(t),
            );
            &&& after is Closed && action is Propose
            &&& action->Propose_0.salary == salary
            &&& action->Propose_0.valuation_expected_wage == Some(valuation.expected_wage)
            &&& action->Propose_0.years >= 1 && action->Propose_0.years >= t.minimum
            &&& action->Propose_0.negotiation_skill == t.negotiation_skill
        }),
{
}

/// A raise is asked for at home where the player wants more and is not out on loan; and what he
/// demands is what he named.
pub proof fn lemma_raises_at_home(player: Option<Player>, signals: ContractSignals)
    ensures
        player is Some && player->0.is_on_loan ==> !raise_at_home(player, signals),
        !signals.want_improve_contract ==> !raise_at_home(player, signals),
        signals.want_improve_contract && (player is None || !player->0.is_on_loan)
            ==> raise_at_home(player, signals),
        demanded(None) is None,
        forall|a: PlayerContractAsk| #[trigger] demanded(Some(a)) == Some(a.desired_salary),
{
}

} // verus!
