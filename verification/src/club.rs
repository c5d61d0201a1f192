//! A club's day: the order in which its results are worked off, and the
//! contract talks with its players.
//!
//! Talks alternate between decisions, which are made here, and questions that
//! only the rest of the club can answer: how far a stalemate has gone, what a
//! player is worth, what the wage bill is.

use crate::date::Date;
#[allow(unused_imports)]
use crate::decisions::DecisionView;
use crate::decisions::PlayerDecisionHistory;
use crate::measure::Measure;
use crate::player::{FreeAgentReleaseReason, Player, PlayerSquadStatus};
use crate::status::PlayerStatusType;
#[allow(unused_imports)]
use vstd::prelude::*;

verus! {

/// What a player's own day brought up about his contract.
#[derive(Clone, Copy, Debug, PartialEq, Eq, Structural)]
pub struct ContractSignals {
    pub contract_rejected: bool,
    pub no_contract: bool,
    pub want_improve_contract: bool,
    pub want_extend_contract: bool,
}

impl ContractSignals {
    /// Whether anything came up.
    pub open spec fn any(self) -> bool {
        self.contract_rejected || self.no_contract || self.want_improve_contract
            || self.want_extend_contract
    }

    /// Whether the player wants to talk.
    pub open spec fn wants_talks(self) -> bool {
        self.no_contract || self.want_improve_contract || self.want_extend_contract
    }
}

/// The result of a player's day.
#[derive(Clone, Copy, Debug, PartialEq, Eq, Structural)]
pub struct PlayerResult {
    pub player_id: u32,
    pub contract: ContractSignals,
}

impl PlayerResult {
    /// Whether anything came up about the contract.
    pub fn has_contract_actions(&self) -> (r: bool)
        ensures
            r == self.contract.any(),
    {
        self.contract.contract_rejected || self.contract.no_contract
            || self.contract.want_improve_contract || self.contract.want_extend_contract
    }
}

/// The result of a team's day.
#[derive(Debug)]
pub struct TeamResult {
    pub players: Vec<PlayerResult>,
}

/// The result of a club's day. The parts that are only handed on are of any type.
#[derive(Debug)]
pub struct ClubResult<F, B, A, T, P> {
    pub club_id: u32,
    pub finance: F,
    pub teams: Vec<TeamResult>,
    pub board: B,
    pub academy: A,
    pub academy_transfers: Vec<T>,
    /// Academy players who grew too old for it.
    pub academy_released_players: Vec<P>,
}

/// One step of working off a club's day.
#[derive(Clone, Copy, Debug, PartialEq, Eq, Structural)]
pub enum ClubStep {
    Finance,
    /// Talk to the player at this place of this team's results.
    Contract { team: usize, player: usize },
    /// Work off the team at this place.
    Team { team: usize },
    Board,
    Academy,
}

/// The talks of the first `n` players of a team.
pub open spec fn talks(players: Seq<PlayerResult>, team: int, n: int) -> Seq<ClubStep>
    decreases n,
{
    if n <= 0 {
        Seq::empty()
    } else if players[n - 1].contract.any() {
        talks(players, team, n - 1).push(
            ClubStep::Contract { team: team as usize, player: (n - 1) as usize },
        )
    } else {
        talks(players, team, n - 1)
    }
}

/// The steps of the first `n` teams: each team's talks, then the team.
pub open spec fn team_steps(teams: Seq<TeamResult>, n: int) -> Seq<ClubStep>
    decreases n,
{
    if n <= 0 {
        Seq::empty()
    } else {
        (team_steps(teams, n - 1) + talks(
            teams[n - 1].players@,
            n - 1,
            teams[n - 1].players@.len() as int,
        )).push(ClubStep::Team { team: (n - 1) as usize })
    }
}

impl<F, B, A, T, P> ClubResult<F, B, A, T, P> {
    /// A result without academy moves.
    pub fn new(club_id: u32, finance: F, teams: Vec<TeamResult>, board: B, academy: A) -> (r: Self)
        ensures
            r.club_id == club_id,
            r.finance == finance,
            r.teams == teams,
            r.board == board,
            r.academy == academy,
            r.academy_transfers@ == Seq::<T>::empty(),
            r.academy_released_players@ == Seq::<P>::empty(),
    {
        ClubResult {
            club_id,
            finance,
            teams,
            board,
            academy,
            academy_transfers: Vec::new(),
            academy_released_players: Vec::new(),
        }
    }

    /// The order in which the day is worked off: the finances, then each team after the talks
    /// with its players, then the board, then the academy.
    pub fn process(&self) -> (r: Vec<ClubStep>)
        ensures
            r@ == seq![ClubStep::Finance] + team_steps(self.teams@, self.teams@.len() as int)
                + seq![ClubStep::Board, ClubStep::Academy],
    {
        let mut steps: Vec<ClubStep> = Vec::new();
        steps.push(ClubStep::Finance);
        let mut of_teams = self.process_teams();
        steps.append(&mut of_teams);
        steps.push(ClubStep::Board);
        steps.push(ClubStep::Academy);
        assert(steps@ =~= seq![ClubStep::Finance] + team_steps(
            self.teams@,
            self.teams@.len() as int,
        ) + seq![ClubStep::Board, ClubStep::Academy]);
        steps
    }

    /// The steps of the teams.
    fn process_teams(&self) -> (r: Vec<ClubStep>)
        ensures
            r@ == team_steps(self.teams@, self.teams@.len() as int),
    {
        let mut steps: Vec<ClubStep> = Vec::new();
        let mut i: usize = 0;
        while i < self.teams.len()
            invariant
                i <= self.teams@.len(),
                steps@ == team_steps(self.teams@, i as int),
            decreases self.teams@.len() - i,
        {
            let players = &self.teams[i].players;
            let ghost before = steps@;
            let mut j: usize = 0;
            assert(before + talks(players@, i as int, 0) =~= before);
            while j < players.len()
                invariant
                    j <= players@.len(),
                    steps@ == before + talks(players@, i as int, j as int),
                decreases players@.len() - j,
            {
                if players[j].has_contract_actions() {
                    steps.push(ClubStep::Contract { team: i, player: j });
                }
                j = j + 1;
                assert(steps@ =~= before + talks(players@, i as int, j as int));
            }
            steps.push(ClubStep::Team { team: i });
            i = i + 1;
        }
        steps
    }
}

/// The words under which the register records renewal talks.
#[derive(Debug)]
pub struct RenewalLabels {
    pub offered: String,
    pub rejected: String,
}

/// The content of [`RenewalLabels`].
pub struct LabelsView {
    pub offered: Seq<char>,
    pub rejected: Seq<char>,
}

impl View for RenewalLabels {
    type V = LabelsView;

    open spec fn view(&self) -> LabelsView {
        LabelsView { offered: self.offered@, rejected: self.rejected@ }
    }
}

/// For how many days the club waits after an offer.
pub const OFFER_COOLDOWN_DAYS: i64 = 60;

/// For how many days the club waits after a refusal.
pub const REJECT_COOLDOWN_DAYS: i64 = 120;

/// How many offers the club makes in a year.
pub const MAX_ATTEMPTS_PER_YEAR: usize = 3;

/// Whether `i` is the place of the last renewal entry.
pub open spec fn last_renewal_at(
    history: Seq<DecisionView>,
    labels: LabelsView,
    i: int,
) -> bool {
    &&& 0 <= i < history.len()
    &&& history[i].decision == labels.offered || history[i].decision == labels.rejected
    &&& forall|j: int|
        i < j < history.len() ==> (#[trigger] history[j]).decision != labels.offered
            && history[j].decision != labels.rejected
}

/// Whether the club still waits after its last offer or the last refusal.
pub open spec fn waiting(
    history: Seq<DecisionView>,
    labels: LabelsView,
    today: Date,
) -> bool {
    exists|i: int|
        #[trigger] last_renewal_at(history, labels, i) && today.days - history[i].date.days < if
        history[i].decision == labels.rejected {
            REJECT_COOLDOWN_DAYS
        } else {
            OFFER_COOLDOWN_DAYS
        }
}

/// Whether an entry is an offer of the last year.
pub open spec fn recent_offer(
    d: DecisionView,
    labels: LabelsView,
    today: Date,
) -> bool {
    d.decision == labels.offered && today.days - d.date.days < 365
}

/// How many offers the club made in the last year.
pub open spec fn offers_in_year(
    history: Seq<DecisionView>,
    labels: LabelsView,
    today: Date,
) -> int
    decreases history.len(),
{
    if history.len() == 0 {
        0
    } else {
        offers_in_year(history.drop_last(), labels, today) + if recent_offer(
            history.last(),
            labels,
            today,
        ) {
            1int
        } else {
            0
        }
    }
}

/// Whether the club makes no offer today.
pub open spec fn talks_closed(
    history: Seq<DecisionView>,
    labels: LabelsView,
    today: Date,
) -> bool {
    waiting(history, labels, today) || offers_in_year(history, labels, today)
        >= MAX_ATTEMPTS_PER_YEAR
}

fn is_waiting(history: &PlayerDecisionHistory, labels: &RenewalLabels, today: Date) -> (r: bool)
    ensures
        r == waiting(history@, labels@, today),
{
    let mut i: usize = history.items.len();
    while i > 0
        invariant
            i <= history.items@.len(),
            history@.len() == history.items@.len(),
            forall|j: int|
                i <= j < history@.len() ==> (#[trigger] history@[j]).decision != labels@.offered
                    && history@[j].decision != labels@.rejected,
        decreases i,
    {
        i = i - 1;
        let d = &history.items[i];
        assert(history@[i as int] == d@);
        let rejected = d.decision == labels.rejected;
        if rejected || d.decision == labels.offered {
            let cooldown: i64 = if rejected {
                REJECT_COOLDOWN_DAYS
            } else {
                OFFER_COOLDOWN_DAYS
            };
            assert(last_renewal_at(history@, labels@, i as int));
            assert forall|k: int| #[trigger]
                last_renewal_at(history@, labels@, k) implies k == i by {
                if k < i {
                    assert(history@[i as int].decision == labels@.offered
                        || history@[i as int].decision == labels@.rejected);
                }
            }
            return today.days_since(d.date) < cooldown;
        }
    }
    false
}

fn count_offers(history: &PlayerDecisionHistory, labels: &RenewalLabels, today: Date) -> (r: usize)
    ensures
        r == offers_in_year(history@, labels@, today),
{
    let mut count: usize = 0;
    let mut i: usize = 0;
    assert(history@.take(0) =~= Seq::empty());
    while i < history.items.len()
        invariant
            i <= history.items@.len(),
            history@.len() == history.items@.len(),
            count <= i,
            count == offers_in_year(history@.take(i as int), labels@, today),
        decreases history.items@.len() - i,
    {
        let d = &history.items[i];
        assert(history@.take(i + 1).drop_last() =~= history@.take(i as int));
        assert(history@.take(i + 1).last() == d@);
        if d.decision == labels.offered && today.days_since(d.date) < 365 {
            count = count + 1;
        }
        i = i + 1;
    }
    assert(history@.take(i as int) =~= history@);
    count
}

/// The first decision in a talk.
#[derive(Clone, Copy, Debug, PartialEq, Eq, Structural)]
pub enum ContractStep {
    /// Nothing happens today.
    Nothing,
    /// The player refused an offer: if the stalemate has gone far enough, his salary is a
    /// question that cannot be resolved.
    AssessStalemate,
    /// The club with this id works on an offer.
    Negotiate { contract_club_id: u32 },
}

/// The first decision in a talk.
pub open spec fn contract_step(
    player: Option<Player>,
    signals: ContractSignals,
    club_id: u32,
    labels: LabelsView,
    today: Date,
) -> ContractStep {
    let on_loan = player is Some && player->0.is_on_loan;
    if signals.contract_rejected {
        if on_loan {
            ContractStep::Nothing
        } else {
            ContractStep::AssessStalemate
        }
    } else if player is Some && talks_closed(player->0.decision_history@, labels, today) {
        ContractStep::Nothing
    } else if !signals.wants_talks() || (on_loan && !signals.want_extend_contract) {
        ContractStep::Nothing
    } else if on_loan {
        match player->0.loan_from_club_id {
            Some(id) => ContractStep::Negotiate { contract_club_id: id },
            None => ContractStep::Nothing,
        }
    } else {
        ContractStep::Negotiate { contract_club_id: club_id }
    }
}

/// Decides what a club does about what its player brought up. A loaned player's contract is his
/// parent club's business.
pub fn process_player_contract_interaction(
    player: Option<&Player>,
    signals: ContractSignals,
    club_id: u32,
    labels: &RenewalLabels,
    today: Date,
) -> (r: ContractStep)
    ensures
        r == contract_step(
            match player {
                Some(p) => Some(*p),
                None => None,
            },
            signals,
            club_id,
            labels@,
            today,
        ),
{
    let on_loan = match player {
        Some(p) => p.is_on_loan,
        None => false,
    };
    if signals.contract_rejected {
        if on_loan {
            return ContractStep::Nothing;
        }
        return ContractStep::AssessStalemate;
    }
    match player {
        Some(p) => {
            if is_waiting(&p.decision_history, labels, today) || count_offers(
                &p.decision_history,
                labels,
                today,
            ) >= MAX_ATTEMPTS_PER_YEAR {
                return ContractStep::Nothing;
            }
        },
        None => {},
    }
    if !(signals.no_contract || signals.want_improve_contract || signals.want_extend_contract) {
        return ContractStep::Nothing;
    }
    if on_loan && !signals.want_extend_contract {
        return ContractStep::Nothing;
    }
    if on_loan {
        match player {
            Some(p) => match p.loan_from_club_id {
                Some(id) => ContractStep::Negotiate { contract_club_id: id },
                None => ContractStep::Nothing,
            },
            None => ContractStep::Nothing,
        }
    } else {
        ContractStep::Negotiate { contract_club_id: club_id }
    }
}

/// The member of staff who leads a talk.
#[derive(Clone, Copy, Debug, PartialEq, Eq, Structural)]
pub struct RenewalStaff {
    pub is_active: bool,
    pub man_management: u8,
    pub judging_player_ability: u8,
}

/// How well a club negotiates and how well it judges a player: what its staff can do, three
/// points each where the one in charge is not at work, five where nobody is in charge.
pub open spec fn skills_of(staff: Option<RenewalStaff>) -> (u8, u8) {
    match staff {
        Some(s) => if s.is_active {
            (s.man_management, s.judging_player_ability)
        } else {
            (3, 3)
        },
        None => (5, 5),
    }
}

/// How well a club negotiates and how well it judges a player.
pub fn negotiation_skills(staff: Option<RenewalStaff>) -> (r: (u8, u8))
    ensures
        r == skills_of(staff),
{
    match staff {
        Some(s) => if s.is_active {
            (s.man_management, s.judging_player_ability)
        } else {
            (3, 3)
        },
        None => (5, 5),
    }
}

/// What the valuation of a player starts from.
#[derive(Clone, Copy, Debug, PartialEq, Eq, Structural)]
pub struct ValuationInputs {
    pub current_salary: u32,
    pub squad_status: PlayerSquadStatus,
    pub months_remaining: i64,
    pub has_market_interest: bool,
}

/// The second decision in a talk.
#[derive(Clone, Copy, Debug, PartialEq, Eq, Structural)]
pub enum OfferStep {
    /// There is nobody to talk to.
    Nothing,
    /// The club does not need the player and will not pay him more.
    Unresolved,
    /// The player is valued.
    Evaluate(ValuationInputs),
}

/// Whether another club has shown interest in the player.
pub open spec fn has_interest(p: Player) -> bool {
    let s = p.statuses.statuses@;
    crate::status::holds(s, PlayerStatusType::Wnt) || crate::status::holds(
        s,
        PlayerStatusType::Enq,
    ) || crate::status::holds(s, PlayerStatusType::Bid)
}

/// What the valuation of a player starts from.
pub open spec fn valuation_inputs(p: Player, today: Date) -> ValuationInputs {
    match p.contract {
        Some(c) => ValuationInputs {
            current_salary: c.salary,
            squad_status: c.squad_status,
            months_remaining: if c.expiration.days <= today.days {
                0
            } else {
                ((c.expiration.days - today.days) / 30) as i64
            },
            has_market_interest: has_interest(p),
        },
        None => ValuationInputs {
            current_salary: 0,
            squad_status: PlayerSquadStatus::FirstTeamRegular,
            months_remaining: 0,
            has_market_interest: has_interest(p),
        },
    }
}

fn market_interest(p: &Player) -> (r: bool)
    ensures
        r == has_interest(*p),
{
    p.statuses.has(PlayerStatusType::Wnt) || p.statuses.has(PlayerStatusType::Enq)
        || p.statuses.has(PlayerStatusType::Bid)
}

/// Decides whether a player gets an offer, and what it starts from.
pub fn prepare_offer(player: Option<&Player>, signals: ContractSignals, today: Date) -> (r:
    OfferStep)
    ensures
        r == match player {
            None => OfferStep::Nothing,
            Some(p) => if !p.is_on_loan && signals.want_improve_contract && valuation_inputs(
                *p,
                today,
            ).squad_status is NotNeeded {
                OfferStep::Unresolved
            } else {
                OfferStep::Evaluate(valuation_inputs(*p, today))
            },
        },
{
    let p = match player {
        Some(p) => p,
        None => {
            return OfferStep::Nothing;
        },
    };
    let (current_salary, squad_status, months_remaining): (u32, PlayerSquadStatus, i64) =
        match p.contract {
        Some(c) => {
            let days: i64 = c.expiration.days_since(today);
            (
                c.salary,
                c.squad_status,
                if days <= 0 {
                    0
                } else {
                    days / 30
                },
            )
        },
        None => (0, PlayerSquadStatus::FirstTeamRegular, 0),
    };
    if !p.is_on_loan && signals.want_improve_contract && matches!(
        squad_status,
        PlayerSquadStatus::NotNeeded
    ) {
        return OfferStep::Unresolved;
    }
    OfferStep::Evaluate(
        ValuationInputs {
            current_salary,
            squad_status,
            months_remaining,
            has_market_interest: market_interest(p),
        },
    )
}

/// The greater of two numbers.
pub open spec fn greater(a: int, b: int) -> int {
    if a >= b {
        a
    } else {
        b
    }
}

/// The salary that an offer starts with: the target, but more than the player has now; and what
/// he is worth, where he asked for more himself.
pub open spec fn opening_salary(
    current: u32,
    target: u32,
    expected: u32,
    asked_for_more: bool,
) -> int {
    let floor = greater(greater(target as int, current + current / 20), current + 1);
    if asked_for_more {
        greater(floor, expected as int)
    } else {
        floor
    }
}

/// The salary after the player's own demand is heard: met in full where the club wants to
/// improve its offer, halfway where it does not.
pub open spec fn converged_salary(opening: int, ask: Option<u32>, improve: bool) -> int {
    if ask is Some && ask->0 > opening {
        if improve {
            ask->0 as int
        } else {
            (opening + ask->0) / 2
        }
    } else {
        opening
    }
}

/// The salary to offer before the wage budget is looked at. `improve` says whether the club
/// wants to improve its offer; it counts where the player demands more than the opening.
pub fn offered_salary(
    current: u32,
    target: u32,
    expected: u32,
    asked_for_more: bool,
    ask: Option<u32>,
    improve: bool,
) -> (r: u32)
    requires
        current + current / 20 <= u32::MAX,
        current < u32::MAX,
        ask is Some && ask->0 > opening_salary(current, target, expected, asked_for_more)
            && !improve ==> opening_salary(current, target, expected, asked_for_more) + ask->0
            <= u32::MAX,
    ensures
        r == converged_salary(
            opening_salary(current, target, expected, asked_for_more),
            ask,
            improve,
        ),
        r > current,
{
    let mut opening: u32 = target;
    let raised: u32 = current + current / 20;
    if raised > opening {
        opening = raised;
    }
    if current + 1 > opening {
        opening = current + 1;
    }
    if asked_for_more && expected > opening {
        opening = expected;
    }
    match ask {
        Some(desired) => if desired > opening {
            if improve {
                desired
            } else {
                (opening + desired) / 2
            }
        } else {
            opening
        },
        None => opening,
    }
}

/// What the wage budget leaves of an offer; `None` where a raise was asked for and there is no
/// room for one. A budget of zero is no budget.
pub open spec fn affordable_salary(
    offered: u32,
    current: u32,
    wage_budget: u32,
    wage_bill: u32,
    raise_at_home: bool,
) -> Option<u32> {
    let increase = if offered > current {
        offered - current
    } else {
        0
    };
    if wage_budget > 0 && wage_bill + increase > wage_budget {
        let room = if wage_budget > wage_bill {
            wage_budget - wage_bill
        } else {
            0
        };
        if room == 0 && raise_at_home {
            None
        } else {
            Some((current + room) as u32)
        }
    } else {
        Some(offered)
    }
}

/// Cuts an offer to the wage budget.
pub fn cap_to_budget(
    offered: u32,
    current: u32,
    wage_budget: u32,
    wage_bill: u32,
    raise_at_home: bool,
) -> (r: Option<u32>)
    requires
        wage_budget > 0 && offered > current ==> wage_bill + (offered - current) <= u32::MAX,
    ensures
        r == affordable_salary(offered, current, wage_budget, wage_bill, raise_at_home),
{
    let increase: u32 = offered.saturating_sub(current);
    if wage_budget > 0 && wage_bill + increase > wage_budget {
        let room: u32 = wage_budget.saturating_sub(wage_bill);
        if room == 0 && raise_at_home {
            return None;
        }
        Some(current + room)
    } else {
        Some(offered)
    }
}

/// The lengths that the two sides want, in half years.
#[derive(Clone, Copy, Debug, PartialEq, Eq, Structural)]
pub struct YearsWanted {
    pub player_halves: i32,
    pub club_halves: i32,
}

/// The length that the player wants, in half years.
pub open spec fn player_halves(p: Player, age: u8, rising: bool) -> int {
    let rep = p.player_attributes.current_reputation;
    let ability = p.player_attributes.current_ability;
    6 + (if rep > 7000 {
        4int
    } else if rep > 4000 {
        2
    } else {
        0
    }) + (if ability > 150 {
        2int
    } else if ability > 120 {
        1
    } else {
        0
    }) + (if age < 24 && rising {
        2int
    } else {
        0
    }) + (if !p.attributes.ambition.le(15) {
        2int
    } else if !p.attributes.ambition.le(10) {
        1
    } else {
        0
    }) - (if !p.attributes.loyalty.ge(5) {
        2int
    } else if !p.attributes.loyalty.ge(10) {
        1
    } else {
        0
    }) + (if has_interest(p) {
        2int
    } else {
        0
    }) - (if age >= 34 {
        4int
    } else if age >= 32 {
        2
    } else if age >= 30 {
        1
    } else {
        0
    })
}

/// The length that the club wants, in half years.
pub open spec fn club_halves(ability: u8, age: u8) -> int {
    (if age >= 34 {
        2int
    } else if age >= 32 {
        3
    } else if age >= 30 {
        4
    } else {
        6
    }) + (if age < 22 && ability > 80 {
        4int
    } else if age < 24 {
        2
    } else {
        0
    }) + (if ability > 150 {
        3int
    } else if ability > 120 {
        2
    } else {
        0
    }) - (if ability < 70 {
        2int
    } else {
        0
    })
}

/// The length that the player wants, in half years.
fn years_for_player(p: &Player, age: u8, rising: bool) -> (r: i32)
    ensures
        r == player_halves(*p, age, rising),
{
    let rep: i16 = p.player_attributes.current_reputation;
    let ability: u8 = p.player_attributes.current_ability;
    let standing: i32 = if rep > 7000 {
        4
    } else if rep > 4000 {
        2
    } else {
        0
    };
    let quality: i32 = if ability > 150 {
        2
    } else if ability > 120 {
        1
    } else {
        0
    };
    let promise: i32 = if age < 24 && rising {
        2
    } else {
        0
    };
    let ambition: i32 = if !p.attributes.ambition.is_at_most(15) {
        2
    } else if !p.attributes.ambition.is_at_most(10) {
        1
    } else {
        0
    };
    let restless: i32 = if !p.attributes.loyalty.is_at_least(5) {
        2
    } else if !p.attributes.loyalty.is_at_least(10) {
        1
    } else {
        0
    };
    let interest: i32 = if market_interest(p) {
        2
    } else {
        0
    };
    let late: i32 = if age >= 34 {
        4
    } else if age >= 32 {
        2
    } else if age >= 30 {
        1
    } else {
        0
    };
    6 + standing + quality + promise + ambition - restless + interest - late
}

/// The length that the club wants, in half years.
fn years_for_club(ability: u8, age: u8) -> (r: i32)
    ensures
        r == club_halves(ability, age),
{
    let base: i32 = if age >= 34 {
        2
    } else if age >= 32 {
        3
    } else if age >= 30 {
        4
    } else {
        6
    };
    let youth: i32 = if age < 22 && ability > 80 {
        4
    } else if age < 24 {
        2
    } else {
        0
    };
    let quality: i32 = if ability > 150 {
        3
    } else if ability > 120 {
        2
    } else {
        0
    };
    let fringe: i32 = if ability < 70 {
        2
    } else {
        0
    };
    base + youth + quality - fringe
}

/// The lengths that the two sides want. `rising` says whether the player is seen to have a
/// ceiling well above what he can do now.
pub fn negotiate_contract_years(p: &Player, age: u8, rising: bool) -> (r: YearsWanted)
    ensures
        r.player_halves == player_halves(*p, age, rising),
        r.club_halves == club_halves(p.player_attributes.current_ability, age),
{
    YearsWanted {
        player_halves: years_for_player(p, age, rising),
        club_halves: years_for_club(p.player_attributes.current_ability, age),
    }
}

/// The demands a player made when he refused the last offer.
#[derive(Clone, Copy, Debug, PartialEq, Eq, Structural)]
pub struct PlayerContractAsk {
    pub desired_salary: u32,
    pub desired_years: u8,
    /// Whether the length was what he refused.
    pub refused_for_length: bool,
    pub demanded_release_clause: Option<u32>,
    pub demanded_status: Option<PlayerSquadStatus>,
    /// Whether the demanded standing is above the one he has.
    pub demanded_status_is_higher: bool,
    pub demanded_signing_bonus: Option<u32>,
}

/// The length of an offer: the compromise, between one and five years, but no less than the
/// player accepts, nor than he asked for where the length was what he refused.
pub open spec fn offered_years(compromise: u8, minimum: u8, ask: Option<PlayerContractAsk>) -> int {
    let base = if compromise < 1 {
        1int
    } else if compromise > 5 {
        5
    } else {
        compromise as int
    };
    let lifted = greater(base, minimum as int);
    if ask is Some && ask->0.refused_for_length {
        greater(lifted, ask->0.desired_years as int)
    } else {
        lifted
    }
}

/// The length of an offer.
pub fn settle_years(compromise: u8, minimum: u8, ask: Option<PlayerContractAsk>) -> (r: u8)
    ensures
        r == offered_years(compromise, minimum, ask),
{
    let mut years: u8 = if compromise < 1 {
        1
    } else if compromise > 5 {
        5
    } else {
        compromise
    };
    if minimum > years {
        years = minimum;
    }
    match ask {
        Some(a) => if a.refused_for_length && a.desired_years > years {
            years = a.desired_years;
        },
        None => {},
    }
    years
}

/// The valuation that an offer is built from, by which the player is to judge it.
#[derive(Clone, Copy, Debug, PartialEq, Eq, Structural)]
pub struct OfferValuation {
    pub club_reputation: Measure,
    pub league_reputation: u16,
    pub expected_wage: u32,
    pub min_acceptable: u32,
}

/// The standing of a club and its league: what is known of it, else the middle of either scale.
pub open spec fn standing_of(
    club_reputation: Option<Measure>,
    league_reputation: Option<u16>,
) -> (Measure, u16) {
    (
        match club_reputation {
            Some(score) => score,
            None => Measure::of_halves(1),
        },
        match league_reputation {
            Some(reputation) => reputation,
            None => 5000,
        },
    )
}

/// The standing of a club and its league. A club without a first team counts as average, and so
/// does one without a league.
pub fn club_standing(club_reputation: Option<Measure>, league_reputation: Option<u16>) -> (r: (
    Measure,
    u16,
))
    ensures
        r == standing_of(club_reputation, league_reputation),
{
    let club = match club_reputation {
        Some(score) => score,
        None => Measure::halves(1),
    };
    let league: u16 = match league_reputation {
        Some(reputation) => reputation,
        None => 5000,
    };
    (club, league)
}

/// An offer to a player.
#[derive(Clone, Copy, Debug, PartialEq, Eq, Structural)]
pub struct PlayerContractProposal {
    pub salary: u32,
    pub years: u8,
    pub negotiation_skill: u8,
    pub signing_bonus: u32,
    pub loyalty_bonus: u32,
    pub release_clause: Option<u32>,
    pub squad_status_promise: Option<PlayerSquadStatus>,
    pub valuation_club_reputation: Option<Measure>,
    pub valuation_league_reputation: Option<u16>,
    pub valuation_expected_wage: Option<u32>,
    pub valuation_min_acceptable: Option<u32>,
}

/// The offer that a club puts on the table. A player of thirty or more gets the loyalty bonus;
/// demands beyond salary and length are met as far as they were made; and the valuation goes with
/// the offer.
pub open spec fn proposal(
    salary: u32,
    years: u8,
    negotiation_skill: u8,
    age: u8,
    loyalty_bonus: u32,
    ask: Option<PlayerContractAsk>,
    valuation: OfferValuation,
) -> PlayerContractProposal {
    PlayerContractProposal {
        salary,
        years,
        negotiation_skill,
        signing_bonus: match ask {
            Some(a) => match a.demanded_signing_bonus {
                Some(b) => b,
                None => 0,
            },
            None => 0,
        },
        loyalty_bonus: if age >= 30 {
            loyalty_bonus
        } else {
            0
        },
        release_clause: match ask {
            Some(a) => a.demanded_release_clause,
            None => None,
        },
        squad_status_promise: match ask {
            Some(a) => if a.demanded_status_is_higher {
                a.demanded_status
            } else {
                None
            },
            None => None,
        },
        valuation_club_reputation: Some(valuation.club_reputation),
        valuation_league_reputation: Some(valuation.league_reputation),
        valuation_expected_wage: Some(valuation.expected_wage),
        valuation_min_acceptable: Some(valuation.min_acceptable),
    }
}

/// The offer that a club puts on the table.
pub fn make_proposal(
    salary: u32,
    years: u8,
    negotiation_skill: u8,
    age: u8,
    loyalty_bonus: u32,
    ask: Option<PlayerContractAsk>,
    valuation: OfferValuation,
) -> (r: PlayerContractProposal)
    ensures
        r == proposal(salary, years, negotiation_skill, age, loyalty_bonus, ask, valuation),
{
    let mut offer = PlayerContractProposal {
        salary,
        years,
        negotiation_skill,
        signing_bonus: 0,
        loyalty_bonus: if age >= 30 {
            loyalty_bonus
        } else {
            0
        },
        release_clause: None,
        squad_status_promise: None,
        valuation_club_reputation: Some(valuation.club_reputation),
        valuation_league_reputation: Some(valuation.league_reputation),
        valuation_expected_wage: Some(valuation.expected_wage),
        valuation_min_acceptable: Some(valuation.min_acceptable),
    };
    match ask {
        Some(a) => {
            offer.release_clause = a.demanded_release_clause;
            if a.demanded_status_is_higher {
                offer.squad_status_promise = a.demanded_status;
            }
            match a.demanded_signing_bonus {
                Some(b) => {
                    offer.signing_bonus = b;
                },
                None => {},
            }
        },
        None => {},
    }
    offer
}

/// The row of an offer in the register, under the words `terms`.
pub open spec fn offer_row(labels: LabelsView, date: Date, terms: Seq<char>) -> DecisionView {
    DecisionView {
        date,
        movement: terms,
        decision: labels.offered,
        decided_by: Seq::<char>::empty(),
    }
}

/// Records an offer in the player's register, under the words `terms`.
pub fn record_offer(player: &mut Player, labels: &RenewalLabels, date: Date, terms: String)
    ensures
        final(player).decision_history@ == old(player).decision_history@.push(
            offer_row(labels@, date, terms@),
        ),
        *final(player) == (Player {
            decision_history: final(player).decision_history,
            ..*old(player)
        }),
{
    player.decision_history.add(date, terms, labels.offered.clone(), String::new());
}

/// Why a salary question cannot be resolved.
#[derive(Clone, Copy, Debug, PartialEq, Eq, Structural)]
pub enum UnresolvedSalaryTrigger {
    /// The player refused too often.
    FailedRenewal,
    /// The player wants more, and the club does not need him.
    NotNeededWantsRaise,
}

impl UnresolvedSalaryTrigger {
    /// The reason for which the player is listed.
    pub open spec fn list_reason_spec(self) -> Seq<char> {
        match self {
            UnresolvedSalaryTrigger::FailedRenewal => "dec_reason_contract_stalemate"@,
            UnresolvedSalaryTrigger::NotNeededWantsRaise => "dec_reason_surplus_squad"@,
        }
    }

    /// The reason for which the player is released.
    pub open spec fn release_reason_spec(self) -> FreeAgentReleaseReason {
        match self {
            UnresolvedSalaryTrigger::FailedRenewal => FreeAgentReleaseReason::FailedRenewalRelease,
            UnresolvedSalaryTrigger::NotNeededWantsRaise => {
                FreeAgentReleaseReason::SurplusFreeRelease
            },
        }
    }

    /// The reason for which the player is listed.
    pub fn list_reason(self) -> (r: &'static str)
        ensures
            r@ == self.list_reason_spec(),
    {
        match self {
            UnresolvedSalaryTrigger::FailedRenewal => "dec_reason_contract_stalemate",
            UnresolvedSalaryTrigger::NotNeededWantsRaise => "dec_reason_surplus_squad",
        }
    }

    /// The reason for which the player is released.
    pub fn release_reason(self) -> (r: FreeAgentReleaseReason)
        ensures
            r == self.release_reason_spec(),
    {
        match self {
            UnresolvedSalaryTrigger::FailedRenewal => FreeAgentReleaseReason::FailedRenewalRelease,
            UnresolvedSalaryTrigger::NotNeededWantsRaise => {
                FreeAgentReleaseReason::SurplusFreeRelease
            },
        }
    }
}

/// How a club parts with a player.
#[derive(Clone, Copy, Debug, PartialEq, Eq, Structural)]
pub enum UnresolvedSalaryDecision {
    TransferList,
    FreeTransfer,
}

/// Whether a club lets a player go over an unresolved salary. It never does so where he is
/// listed already, is the manager's personal choice or is on loan; it keeps trying where he is
/// important or loyal and not far below the squad, and where he is close to its level and not
/// old.
pub open spec fn lets_go(p: Player, squad_average: u8, age: u8, is_key: bool) -> bool {
    let s = p.statuses.statuses@;
    let ability = p.player_attributes.current_ability;
    &&& !crate::status::holds(s, PlayerStatusType::Lst)
    &&& !crate::status::holds(s, PlayerStatusType::Frt)
    &&& !p.is_force_match_selection
    &&& !p.is_on_loan
    &&& !(is_key && ability >= squad_average - 10)
    &&& !(!p.attributes.loyalty.le(14) && ability >= squad_average - 10)
    &&& !(ability >= squad_average - 15 && age < 35)
}

/// Decides whether a club lets a player go over an unresolved salary.
pub fn handle_unresolved_salary(
    p: &Player,
    squad_average: u8,
    age: u8,
    formally_key: bool,
    protected_asset: bool,
) -> (r: bool)
    ensures
        r == lets_go(*p, squad_average, age, formally_key || protected_asset),
{
    if p.statuses.has(PlayerStatusType::Lst) || p.statuses.has(PlayerStatusType::Frt) {
        return false;
    }
    if p.is_force_match_selection {
        return false;
    }
    if p.is_on_loan {
        return false;
    }
    let ability: i16 = p.player_attributes.current_ability as i16;
    let average: i16 = squad_average as i16;
    let is_key = formally_key || protected_asset;
    if is_key && ability >= average - 10 {
        return false;
    }
    if !p.attributes.loyalty.is_at_most(14) && ability >= average - 10 {
        return false;
    }
    if ability >= average - 15 && age < 35 {
        return false;
    }
    true
}

/// Who signs for a decision: the coach, or the board where there is none.
pub open spec fn signatory(coach_name: Seq<char>) -> Seq<char> {
    if coach_name.len() == 0 {
        "dec_decided_board"@
    } else {
        coach_name
    }
}

/// Parts with a player. A release ends his contract; a listing is noted in it. Returns whether
/// he goes on the market. `release_words` is the register's text for a release.
pub fn part_with(
    player: &mut Player,
    decision: UnresolvedSalaryDecision,
    trigger: UnresolvedSalaryTrigger,
    date: Date,
    coach_name: &str,
    release_words: &str,
) -> (listed: bool)
    ensures
        listed == (decision is TransferList),
        ({
            let flag = if decision is TransferList {
                PlayerStatusType::Lst
            } else {
                PlayerStatusType::Frt
            };
            let before = old(player).statuses.statuses@;
            final(player).statuses.statuses@ == if crate::status::holds(before, flag) {
                before
            } else {
                before.push((crate::status::StatusData { start_date: date, status: flag }))
            }
        }),
        old(player).statuses.wf() ==> final(player).statuses.wf(),
        final(player).contract == match decision {
            UnresolvedSalaryDecision::FreeTransfer => None,
            UnresolvedSalaryDecision::TransferList => match old(player).contract {
                Some(c) => Some(
                    (crate::player::PlayerClubContract { is_transfer_listed: true, ..c }),
                ),
                None => None,
            },
        },
        final(player).release_reason == match decision {
            UnresolvedSalaryDecision::FreeTransfer => Some(trigger.release_reason_spec()),
            UnresolvedSalaryDecision::TransferList => old(player).release_reason,
        },
        final(player).decision_history@ == old(player).decision_history@.push(
            (DecisionView {
                date,
                movement: match decision {
                    UnresolvedSalaryDecision::FreeTransfer => "dec_free_transfer_listed"@,
                    UnresolvedSalaryDecision::TransferList => "dec_transfer_listed"@,
                },
                decision: match decision {
                    UnresolvedSalaryDecision::FreeTransfer => release_words@,
                    UnresolvedSalaryDecision::TransferList => trigger.list_reason_spec(),
                },
                decided_by: signatory(coach_name@),
            }),
        ),
        *final(player) == (Player {
            statuses: final(player).statuses,
            contract: final(player).contract,
            release_reason: final(player).release_reason,
            decision_history: final(player).decision_history,
            ..*old(player)
        }),
{
    let decided_by: String = if coach_name.unicode_len() == 0 {
        "dec_decided_board".to_owned()
    } else {
        coach_name.to_owned()
    };
    match decision {
        UnresolvedSalaryDecision::FreeTransfer => {
            player.statuses.add(date, PlayerStatusType::Frt);
            player.contract = None;
            player.release_reason = Some(trigger.release_reason());
            player.decision_history.add(
                date,
                "dec_free_transfer_listed".to_owned(),
                release_words.to_owned(),
                decided_by,
            );
            false
        },
        UnresolvedSalaryDecision::TransferList => {
            player.statuses.add(date, PlayerStatusType::Lst);
            player.contract = match player.contract {
                Some(c) => {
                    let mut listed = c;
                    listed.is_transfer_listed = true;
                    Some(listed)
                },
                None => None,
            };
            player.decision_history.add(
                date,
                "dec_transfer_listed".to_owned(),
                trigger.list_reason().to_owned(),
                decided_by,
            );
            true
        },
    }
}

/// The sum of some wages.
pub open spec fn total(wages: Seq<u32>) -> int
    decreases wages.len(),
{
    if wages.len() == 0 {
        0
    } else {
        total(wages.drop_last()) + wages.last()
    }
}

proof fn lemma_total_prefix(wages: Seq<u32>, n: int)
    requires
        0 <= n <= wages.len(),
    ensures
        0 <= total(wages.take(n)) <= total(wages),
    decreases wages.len(),
{
    if n < wages.len() {
        lemma_total_prefix(wages.drop_last(), n);
        assert(wages.drop_last().take(n) =~= wages.take(n));
    } else {
        assert(wages.take(n) =~= wages);
        if wages.len() > 0 {
            lemma_total_prefix(wages.drop_last(), n - 1);
        }
    }
}

/// What a wage budget leaves beside the wages of the teams.
pub open spec fn headroom(budget: Option<u32>, wages: Seq<u32>) -> Option<u32> {
    match budget {
        Some(b) => Some(
            if b > total(wages) {
                (b - total(wages)) as u32
            } else {
                0
            },
        ),
        None => None,
    }
}

/// The wages that a club can still add, given its budget and what each team earns; `None`
/// where it has no budget.
pub fn wage_budget_headroom(budget: Option<u32>, team_wages: &Vec<u32>) -> (r: Option<u32>)
    requires
        budget is Some ==> total(team_wages@) <= u32::MAX,
    ensures
        r == headroom(budget, team_wages@),
{
    let b: u32 = match budget {
        Some(b) => b,
        None => {
            return None;
        },
    };
    let mut sum: u32 = 0;
    let mut i: usize = 0;
    assert(team_wages@.take(0) =~= Seq::empty());
    while i < team_wages.len()
        invariant
            i <= team_wages@.len(),
            sum == total(team_wages@.take(i as int)),
            total(team_wages@) <= u32::MAX,
        decreases team_wages@.len() - i,
    {
        proof {
            lemma_total_prefix(team_wages@, i + 1);
            assert(team_wages@.take(i + 1).drop_last() =~= team_wages@.take(i as int));
        }
        sum = sum + team_wages[i];
        i = i + 1;
    }
    assert(team_wages@.take(i as int) =~= team_wages@);
    Some(b.saturating_sub(sum))
}

/// Whether the player is at this place of the squads, and at no earlier one.
pub open spec fn found_at(squads: Seq<Vec<u32>>, player_id: u32, team: int, place: int) -> bool {
    &&& 0 <= team < squads.len()
    &&& 0 <= place < squads[team]@.len()
    &&& squads[team]@[place] == player_id
    &&& forall|t: int| 0 <= t < team ==> !(#[trigger] squads[t])@.contains(player_id)
    &&& forall|k: int| 0 <= k < place ==> squads[team]@[k] != player_id
}

/// Where a message for a player goes: the first place in the squads that is his.
pub fn deliver_message(squads: &Vec<Vec<u32>>, player_id: u32) -> (r: Option<(usize, usize)>)
    ensures
        match r {
            Some(at) => found_at(squads@, player_id, at.0 as int, at.1 as int),
            None => forall|t: int|
                0 <= t < squads@.len() ==> !(#[trigger] squads@[t])@.contains(player_id),
        },
{
    let mut t: usize = 0;
    while t < squads.len()
        invariant
            t <= squads@.len(),
            forall|u: int| 0 <= u < t ==> !(#[trigger] squads@[u])@.contains(player_id),
        decreases squads@.len() - t,
    {
        let squad = &squads[t];
        let mut k: usize = 0;
        while k < squad.len()
            invariant
                k <= squad@.len(),
                t < squads@.len(),
                squad == squads@[t as int],
                forall|u: int| 0 <= u < t ==> !(#[trigger] squads@[u])@.contains(player_id),
                forall|m: int| 0 <= m < k ==> squad@[m] != player_id,
            decreases squad@.len() - k,
        {
            if squad[k] == player_id {
                return Some((t, k));
            }
            k = k + 1;
        }
        t = t + 1;
    }
    None
}

/// An offer is followed by at least sixty days without another one.
pub proof fn lemma_offer_starts_wait(
    history: Seq<DecisionView>,
    entry: DecisionView,
    labels: LabelsView,
    today: Date,
)
    requires
        entry.decision == labels.offered || entry.decision == labels.rejected,
        today.days - entry.date.days < OFFER_COOLDOWN_DAYS,
    ensures
        talks_closed(history.push(entry), labels, today),
{
    assert(last_renewal_at(history.push(entry), labels, history.len() as int));
}

/// A refusal is followed by at least a hundred and twenty days without an offer.
pub proof fn lemma_refusal_starts_longer_wait(
    history: Seq<DecisionView>,
    entry: DecisionView,
    labels: LabelsView,
    today: Date,
)
    requires
        entry.decision == labels.rejected,
        today.days - entry.date.days < REJECT_COOLDOWN_DAYS,
    ensures
        talks_closed(history.push(entry), labels, today),
{
    assert(last_renewal_at(history.push(entry), labels, history.len() as int));
}

/// After three offers in a year the club makes no fourth one in it, whatever else happens.
pub proof fn lemma_three_offers_a_year(
    history: Seq<DecisionView>,
    entry: DecisionView,
    labels: LabelsView,
    today: Date,
)
    requires
        offers_in_year(history, labels, today) >= MAX_ATTEMPTS_PER_YEAR,
    ensures
        talks_closed(history, labels, today),
        talks_closed(history.push(entry), labels, today),
{
    assert(history.push(entry).drop_last() =~= history);
}

/// A club without business in a loaned player's contract does nothing about it: a refusal and
/// a wish for more are not its own affair.
pub proof fn lemma_loaned_player_is_left_alone(
    p: Player,
    signals: ContractSignals,
    club_id: u32,
    labels: LabelsView,
    today: Date,
    average: u8,
    age: u8,
    is_key: bool,
)
    requires
        p.is_on_loan,
    ensures
        signals.contract_rejected || !signals.want_extend_contract ==> contract_step(
            Some(p),
            signals,
            club_id,
            labels,
            today,
        ) is Nothing,
        !lets_go(p, average, age, is_key),
{
}

/// Neither the manager's personal choice nor a player who is listed already is let go, and a
/// player whom the club has parted with is not parted with again.
pub proof fn lemma_no_second_listing(
    p: Player,
    date: Date,
    flag: PlayerStatusType,
    q: Player,
    average: u8,
    age: u8,
    is_key: bool,
)
    requires
        flag is Lst || flag is Frt,
        q.statuses.statuses@ == if crate::status::holds(p.statuses.statuses@, flag) {
            p.statuses.statuses@
        } else {
            p.statuses.statuses@.push(crate::status::StatusData { start_date: date, status: flag })
        },
    ensures
        !lets_go(q, average, age, is_key),
        p.is_force_match_selection ==> !lets_go(p, average, age, is_key),
{
    if !crate::status::holds(p.statuses.statuses@, flag) {
        let s = q.statuses.statuses@;
        assert(s[s.len() - 1].status == flag);
    }
}

/// An offer never takes money away and never breaks the budget: it is at least what the player
/// has, and the wage bill stays within the budget or where it was.
pub proof fn lemma_offer_within_budget(
    offered: u32,
    current: u32,
    wage_budget: u32,
    wage_bill: u32,
    raise_at_home: bool,
)
    requires
        offered >= current,
    ensures
        match affordable_salary(offered, current, wage_budget, wage_bill, raise_at_home) {
            Some(s) => {
                &&& current <= s <= offered
                &&& wage_budget > 0 ==> wage_bill + (s - current) <= greater(
                    wage_budget as int,
                    wage_bill as int,
                )
            },
            None => raise_at_home && wage_budget > 0 && wage_bill >= wage_budget,
        },
{
}

/// An offer lies between what the club opens with and what the player demands.
pub proof fn lemma_offer_converges(opening: int, ask: u32, improve: bool)
    requires
        opening >= 0,
    ensures
        opening <= converged_salary(opening, Some(ask), improve) <= greater(opening, ask as int),
        improve ==> converged_salary(opening, Some(ask), improve) == greater(opening, ask as int),
{
}

/// Nobody wants a longer contract for being older: with everything else fixed, neither the
/// player nor the club does.
pub proof fn lemma_years_fall_with_age(p: Player, ability: u8, age: u8, older: u8, rising: bool)
    requires
        age <= older,
    ensures
        player_halves(p, older, rising) <= player_halves(p, age, rising),
        club_halves(ability, older) <= club_halves(ability, age),
{
}

/// What age costs a player: in his best years, from 24 to 29, nothing; half a year from 30 on, a
/// year from 32 on and two years from 34 on. Below 24 a promising player asks for one year more
/// than any other.
pub proof fn lemma_player_years_by_age(p: Player, prime: u8, age: u8, rising: bool)
    requires
        24 <= prime <= 29,
    ensures
        24 <= age <= 29 ==> player_halves(p, age, rising) == player_halves(p, prime, rising),
        30 <= age <= 31 ==> player_halves(p, age, rising) + 1 == player_halves(p, prime, rising),
        32 <= age <= 33 ==> player_halves(p, age, rising) + 2 == player_halves(p, prime, rising),
        34 <= age ==> player_halves(p, age, rising) + 4 == player_halves(p, prime, rising),
        age < 24 ==> player_halves(p, age, false) == player_halves(p, prime, false),
        age < 24 ==> player_halves(p, age, true) == player_halves(p, age, false) + 2,
        age >= 24 ==> player_halves(p, age, true) == player_halves(p, age, false),
{
}

/// What standing and character are worth to a player who negotiates, with all else the same: a
/// name up to two years, ability and ambition up to one, interest from elsewhere one; who is not
/// loyal asks for up to a year less. Someone to whom none of this applies wants three years.
pub proof fn lemma_player_years_by_standing(p: Player, q: Player, age: u8, rising: bool)
    ensures
        ({
            let (a, b) = (p.player_attributes, q.player_attributes);
            let one = crate::measure::one();
            let name = a.current_reputation == b.current_reputation;
            let quality = a.current_ability == b.current_ability;
            let ambition = p.attributes.ambition == q.attributes.ambition;
            let loyalty = p.attributes.loyalty == q.attributes.loyalty;
            let interest = has_interest(p) == has_interest(q);
            let more = player_halves(q, age, rising) - player_halves(p, age, rising);
            &&& quality && ambition && loyalty && interest && a.current_reputation <= 4000 ==> {
                &&& b.current_reputation > 7000 ==> more == 4
                &&& 4000 < b.current_reputation <= 7000 ==> more == 2
                &&& b.current_reputation <= 4000 ==> more == 0
            }
            &&& name && ambition && loyalty && interest && a.current_ability <= 120 ==> {
                &&& b.current_ability > 150 ==> more == 2
                &&& 120 < b.current_ability <= 150 ==> more == 1
                &&& b.current_ability <= 120 ==> more == 0
            }
            &&& name && quality && loyalty && interest && p.attributes.ambition.units() <= 10 * one
                ==> {
                &&& q.attributes.ambition.units() > 15 * one ==> more == 2
                &&& 10 * one < q.attributes.ambition.units() <= 15 * one ==> more == 1
                &&& q.attributes.ambition.units() <= 10 * one ==> more == 0
            }
            &&& name && quality && ambition && interest && p.attributes.loyalty.units() >= 10 * one
                ==> {
                &&& q.attributes.loyalty.units() < 5 * one ==> more == -2
                &&& 5 * one <= q.attributes.loyalty.units() < 10 * one ==> more == -1
                &&& q.attributes.loyalty.units() >= 10 * one ==> more == 0
            }
            &&& name && quality && ambition && loyalty && has_interest(q) && !has_interest(p)
                ==> more == 2
            &&& name && quality && ambition && loyalty && interest ==> more == 0
            &&& a.current_reputation <= 4000 && a.current_ability <= 120
                && p.attributes.ambition.units() <= 10 * one && p.attributes.loyalty.units() >= 10
                * one && !has_interest(p) && 24 <= age <= 29 ==> player_halves(p, age, rising) == 6
        }),
{
    crate::measure::lemma_one_positive();
}

/// A club wants an ordinary player, of ability 70 to 120, for one year from the age of 34, for a
/// year and a half from 32, two years from 30 and three before. It wants a young one for a year
/// more, and a gifted one below 22 for two.
pub proof fn lemma_club_years_by_age(ability: u8, age: u8)
    requires
        70 <= ability <= 120,
    ensures
        34 <= age ==> club_halves(ability, age) == 2,
        32 <= age <= 33 ==> club_halves(ability, age) == 3,
        30 <= age <= 31 ==> club_halves(ability, age) == 4,
        24 <= age <= 29 ==> club_halves(ability, age) == 6,
        22 <= age <= 23 ==> club_halves(ability, age) == 8,
        age < 22 && ability <= 80 ==> club_halves(ability, age) == 8,
        age < 22 && ability > 80 ==> club_halves(ability, age) == 10,
{
}

/// What ability is worth to a club, at any one age: a year more above 120, a year and a half
/// above 150, and a year less below 70. A better player is never wanted for less time.
pub proof fn lemma_club_years_by_ability(ability: u8, better: u8, age: u8)
    requires
        ability <= better,
    ensures
        club_halves(ability, age) <= club_halves(better, age),
        81 <= ability <= 120 && better > 150 ==> club_halves(better, age) == club_halves(
            ability,
            age,
        ) + 3,
        81 <= ability <= 120 && 120 < better <= 150 ==> club_halves(better, age) == club_halves(
            ability,
            age,
        ) + 2,
        ability < 70 && 70 <= better <= 80 ==> club_halves(better, age) == club_halves(ability, age)
            + 2,
{
}

/// An offer is for one to five years, or for more where the player signs nothing shorter or
/// refused for the length and asked for more. It never falls short of either, and is no longer
/// than one of them asks.
pub proof fn lemma_offered_years(compromise: u8, minimum: u8, ask: Option<PlayerContractAsk>)
    ensures
        ({
            let years = offered_years(compromise, minimum, ask);
            let demanded = ask is Some && ask->0.refused_for_length;
            &&& years >= 1
            &&& years >= minimum
            &&& demanded ==> years >= ask->0.desired_years
            &&& 1 <= compromise <= 5 ==> years >= compromise
            &&& compromise > 5 ==> years >= 5
            &&& years > 5 ==> years == minimum || (demanded && years == ask->0.desired_years)
            &&& years > compromise ==> years == 1 || years == minimum || (demanded && years
                == ask->0.desired_years)
        }),
{
}

/// The first offer is above what the player earns, by a twentieth at least, and no less than what
/// the staff take him to be worth; where he asked for more, no less than what he is worth. It is
/// no higher than it has to be.
pub proof fn lemma_opening_salary(current: u32, target: u32, expected: u32, asked_for_more: bool)
    ensures
        ({
            let opening = opening_salary(current, target, expected, asked_for_more);
            &&& opening > current
            &&& opening >= current + current / 20
            &&& opening >= target
            &&& asked_for_more ==> opening >= expected
            &&& opening == current + 1 || opening == current + current / 20 || opening == target
                || (asked_for_more && opening == expected)
        }),
{
}

/// A demand below the opening changes nothing; one above it is met in full where that ends the
/// stalemate, and halfway, rounded down, where it does not.
pub proof fn lemma_demands_are_heard(opening: int, ask: Option<u32>, improve: bool)
    requires
        opening >= 0,
    ensures
        ({
            let salary = converged_salary(opening, ask, improve);
            &&& ask is None || ask->0 <= opening ==> salary == opening
            &&& ask is Some && ask->0 > opening && improve ==> salary == ask->0
            &&& ask is Some && ask->0 > opening && !improve ==> 0 <= (opening + ask->0) - 2 * salary
                <= 1
        }),
{
}

/// What the wage budget does to an offer: one that fits is left as it is, one that does not gets
/// all the room there is, and where there is none a raise that was asked for is not offered.
pub proof fn lemma_budget_is_used(
    offered: u32,
    current: u32,
    wage_budget: u32,
    wage_bill: u32,
    raise_at_home: bool,
)
    requires
        offered >= current,
    ensures
        ({
            let r = affordable_salary(offered, current, wage_budget, wage_bill, raise_at_home);
            let fits = wage_budget == 0 || wage_bill + (offered - current) <= wage_budget;
            &&& fits ==> r == Some(offered)
            &&& !fits && wage_bill < wage_budget ==> r is Some && wage_bill + (r->0 - current)
                == wage_budget
            &&& !fits && wage_bill >= wage_budget && raise_at_home ==> r is None
            &&& !fits && wage_bill >= wage_budget && !raise_at_home ==> r == Some(current)
        }),
{
}

/// What goes with an offer: a loyalty bonus from the age of 30 on and not before, the signing
/// bonus and the release clause that were demanded, the standing that was demanded if it is a
/// higher one, and the valuation that it was built from.
pub proof fn lemma_what_goes_with_an_offer(
    salary: u32,
    years: u8,
    negotiation_skill: u8,
    age: u8,
    loyalty_bonus: u32,
    ask: Option<PlayerContractAsk>,
    valuation: OfferValuation,
)
    ensures
        ({
            let r = proposal(salary, years, negotiation_skill, age, loyalty_bonus, ask, valuation);
            &&& r.salary == salary && r.years == years && r.negotiation_skill == negotiation_skill
            &&& age >= 30 ==> r.loyalty_bonus == loyalty_bonus
            &&& age < 30 ==> r.loyalty_bonus == 0
            &&& ask is None ==> r.signing_bonus == 0 && r.release_clause is None
                && r.squad_status_promise is None
            &&& ask is Some ==> {
                &&& ask->0.demanded_signing_bonus is Some ==> r.signing_bonus
                    == ask->0.demanded_signing_bonus->0
                &&& ask->0.demanded_signing_bonus is None ==> r.signing_bonus == 0
                &&& r.release_clause == ask->0.demanded_release_clause
                &&& ask->0.demanded_status_is_higher ==> r.squad_status_promise
                    == ask->0.demanded_status
                &&& !ask->0.demanded_status_is_higher ==> r.squad_status_promise is None
            }
            &&& r.valuation_club_reputation == Some(valuation.club_reputation)
            &&& r.valuation_league_reputation == Some(valuation.league_reputation)
            &&& r.valuation_expected_wage == Some(valuation.expected_wage)
            &&& r.valuation_min_acceptable == Some(valuation.min_acceptable)
        }),
{
}

/// When a club talks: with nothing of the kind in the register, at once; after an offer from the
/// sixtieth day on, after a refusal from the hundred and twentieth; and never more often than
/// three times in 365 days.
pub proof fn lemma_when_a_club_talks(
    history: Seq<DecisionView>,
    labels: LabelsView,
    today: Date,
    last: int,
)
    requires
        labels.offered != labels.rejected,
        -1 <= last < history.len(),
        forall|j: int|
            last < j < history.len() ==> (#[trigger] history[j]).decision != labels.offered
                && history[j].decision != labels.rejected,
        last >= 0 ==> history[last].decision == labels.offered || history[last].decision
            == labels.rejected,
    ensures
        last < 0 ==> !talks_closed(history, labels, today),
        last >= 0 ==> (talks_closed(history, labels, today) <==> {
            ||| offers_in_year(history, labels, today) >= 3
            ||| history[last].decision == labels.offered && today.days < history[last].date.days
                + 60
            ||| history[last].decision == labels.rejected && today.days < history[last].date.days
                + 120
        }),
    decreases history.len(),
{
    if last >= 0 {
        assert(last_renewal_at(history, labels, last));
        assert forall|i: int| #[trigger] last_renewal_at(history, labels, i) implies i == last by {
            if i < last {
                assert(history[last].decision != labels.offered);
            } else if i > last {
                assert(history[i].decision != labels.offered);
            }
        }
    } else {
        assert forall|i: int| !#[trigger] last_renewal_at(history, labels, i) by {
            if 0 <= i < history.len() {
                assert(history[i].decision != labels.offered);
            }
        }
        lemma_no_offers(history, labels, today);
    }
}

proof fn lemma_no_offers(history: Seq<DecisionView>, labels: LabelsView, today: Date)
    requires
        forall|j: int| 0 <= j < history.len() ==> (#[trigger] history[j]).decision != labels.offered,
    ensures
        offers_in_year(history, labels, today) == 0,
    decreases history.len(),
{
    if history.len() > 0 {
        assert(history[history.len() - 1].decision != labels.offered);
        assert forall|j: int| 0 <= j < history.drop_last().len() implies (
        #[trigger] history.drop_last()[j]).decision != labels.offered by {
            assert(history.drop_last()[j] == history[j]);
        }
        lemma_no_offers(history.drop_last(), labels, today);
    }
}

/// How offers are counted: an offer of the last 365 days counts once, nothing else counts, and
/// with every day that passes there are no more.
pub proof fn lemma_offers_are_counted(
    history: Seq<DecisionView>,
    d: DecisionView,
    labels: LabelsView,
    today: Date,
    later: Date,
)
    requires
        today.days <= later.days,
    ensures
        offers_in_year(Seq::empty(), labels, today) == 0,
        d.decision == labels.offered && today.days < d.date.days + 365 ==> offers_in_year(
            history.push(d),
            labels,
            today,
        ) == offers_in_year(history, labels, today) + 1,
        d.decision != labels.offered || today.days >= d.date.days + 365 ==> offers_in_year(
            history.push(d),
            labels,
            today,
        ) == offers_in_year(history, labels, today),
        offers_in_year(history, labels, later) <= offers_in_year(history, labels, today),
    decreases history.len(),
{
    assert(history.push(d).drop_last() =~= history);
    if history.len() > 0 {
        lemma_offers_are_counted(history.drop_last(), d, labels, today, later);
    }
}

/// What a club does about its player. A refusal leads to an assessment, but not of a player on
/// loan. A wish leads to a talk, once the club talks again: with the club itself, or for a player
/// on loan who wants to extend, with the club that lent him. Nothing else leads to anything.
pub proof fn lemma_what_a_club_does(
    player: Option<Player>,
    signals: ContractSignals,
    club_id: u32,
    labels: LabelsView,
    today: Date,
)
    ensures
        ({
            let step = contract_step(player, signals, club_id, labels, today);
            let loan = player is Some && player->0.is_on_loan;
            let closed = player is Some && talks_closed(
                player->0.decision_history@,
                labels,
                today,
            );
            let wish = signals.no_contract || signals.want_improve_contract
                || signals.want_extend_contract;
            &&& step is AssessStalemate <==> signals.contract_rejected && !loan
            &&& step is Negotiate ==> !signals.contract_rejected && wish && !closed
            &&& !signals.contract_rejected && wish && !closed && !loan ==> step
                == (ContractStep::Negotiate { contract_club_id: club_id })
            &&& !signals.contract_rejected && !closed && loan && signals.want_extend_contract
                && player->0.loan_from_club_id is Some ==> step == (ContractStep::Negotiate {
                contract_club_id: player->0.loan_from_club_id->0,
            })
            &&& loan && !signals.want_extend_contract ==> step is Nothing
            &&& loan && player->0.loan_from_club_id is None ==> step is Nothing
        }),
{
}

/// What a valuation starts from: the contract as it is, the whole months of thirty days that it
/// still runs, none where it has run out, and whether another club wants the player, asked about
/// him or made a bid.
pub proof fn lemma_valuation_inputs(p: Player, today: Date)
    ensures
        ({
            let v = valuation_inputs(p, today);
            let flagged = |t: PlayerStatusType|
                exists|i: int|
                    0 <= i < p.statuses.statuses@.len() && (#[trigger] p.statuses.statuses@[i]).status
                        == t;
            let left = p.contract->0.expiration.days - today.days;
            &&& p.contract is Some ==> v.current_salary == p.contract->0.salary && v.squad_status
                == p.contract->0.squad_status
            &&& p.contract is None ==> v.current_salary == 0 && v.months_remaining == 0
                && v.squad_status is FirstTeamRegular
            &&& p.contract is Some && left < 0 ==> v.months_remaining == 0
            &&& p.contract is Some && left >= 0 ==> 30 * v.months_remaining <= left < 30
                * v.months_remaining + 30
            &&& v.has_market_interest <==> flagged(PlayerStatusType::Wnt) || flagged(
                PlayerStatusType::Enq,
            ) || flagged(PlayerStatusType::Bid)
        }),
{
}

/// Whom a club keeps: who is listed or on loan or the manager's choice; who is important, or loyal
/// beyond fourteen, and at most ten points below the squad; and who is at most fifteen points
/// below it and not yet 35. It lets go everybody who is further below, and of those who are
/// neither important nor loyal whoever is 35.
pub proof fn lemma_whom_a_club_keeps(p: Player, squad_average: u8, age: u8, is_key: bool)
    ensures
        ({
            let one = crate::measure::one();
            let below = squad_average - p.player_attributes.current_ability;
            let bound = p.is_on_loan || p.is_force_match_selection || exists|i: int|
                0 <= i < p.statuses.statuses@.len() && ((
                #[trigger] p.statuses.statuses@[i]).status is Lst || p.statuses.statuses@[i].status
                    is Frt);
            let loyal = p.attributes.loyalty.units() > 14 * one;
            let gone = lets_go(p, squad_average, age, is_key);
            &&& bound ==> !gone
            &&& below <= 10 && (is_key || loyal) ==> !gone
            &&& below <= 15 && age < 35 ==> !gone
            &&& !bound && below > 15 ==> gone
            &&& !bound && age >= 35 && !is_key && !loyal ==> gone
            &&& !bound && age >= 35 && below > 10 ==> gone
        }),
{
    let s = p.statuses.statuses@;
    if crate::status::holds(s, PlayerStatusType::Lst) {
        let i = choose|i: int|
            0 <= i < s.len() && (#[trigger] s[i]).status == PlayerStatusType::Lst;
        assert(s[i].status is Lst);
    }
    if crate::status::holds(s, PlayerStatusType::Frt) {
        let i = choose|i: int|
            0 <= i < s.len() && (#[trigger] s[i]).status == PlayerStatusType::Frt;
        assert(s[i].status is Frt);
    }
}

/// A better, a younger or a more important player is never let go before a lesser, an older or a
/// less important one who is kept.
pub proof fn lemma_the_better_stays(
    p: Player,
    q: Player,
    squad_average: u8,
    age: u8,
    younger: u8,
    is_key: bool,
    matters: bool,
)
    requires
        younger <= age,
        is_key ==> matters,
        p.player_attributes.current_ability <= q.player_attributes.current_ability,
        p.attributes.loyalty.units() <= q.attributes.loyalty.units(),
        p.statuses == q.statuses,
        p.is_force_match_selection == q.is_force_match_selection,
        p.is_on_loan == q.is_on_loan,
        !lets_go(p, squad_average, age, is_key),
    ensures
        !lets_go(q, squad_average, younger, matters),
{
}

/// A club negotiates and judges as well as whoever is in charge and at work. One who is not at
/// work is worse than nobody: three points against five, for either skill.
pub proof fn lemma_who_negotiates(s: RenewalStaff)
    ensures
        s.is_active ==> skills_of(Some(s)) == (s.man_management, s.judging_player_ability),
        !s.is_active ==> skills_of(Some(s)).0 == 3 && skills_of(Some(s)).1 == 3,
        !s.is_active ==> skills_of(Some(s)).0 + 2 == skills_of(None).0,
        skills_of(None).0 == skills_of(None).1,
{
}

/// The reasons of a parting: a failed renewal is a stalemate, a raise for a player who is not
/// needed makes him surplus, and the one is never given for the other.
pub proof fn lemma_reasons_of_a_parting(t: UnresolvedSalaryTrigger)
    ensures
        t is FailedRenewal <==> t.release_reason_spec() is FailedRenewalRelease,
        t is NotNeededWantsRaise <==> t.release_reason_spec() is SurplusFreeRelease,
        t is FailedRenewal <==> t.list_reason_spec() == "dec_reason_contract_stalemate"@,
        t is NotNeededWantsRaise <==> t.list_reason_spec() == "dec_reason_surplus_squad"@,
{
    reveal_strlit("dec_reason_contract_stalemate");
    reveal_strlit("dec_reason_surplus_squad");
    assert("dec_reason_contract_stalemate"@.len() != "dec_reason_surplus_squad"@.len());
}

/// The coach signs for a decision, and the board where there is none: a signature is never empty.
pub proof fn lemma_signatures(coach_name: Seq<char>)
    ensures
        signatory(coach_name).len() > 0,
        coach_name.len() > 0 ==> signatory(coach_name) == coach_name,
        coach_name.len() == 0 ==> signatory(coach_name) == "dec_decided_board"@,
{
    reveal_strlit("dec_decided_board");
}

/// Wages add up, whatever the order of the teams.
pub proof fn lemma_wages_add_up(a: Seq<u32>, b: Seq<u32>, wage: u32)
    ensures
        total(Seq::empty()) == 0,
        total(a.push(wage)) == total(a) + wage,
        total(a + b) == total(a) + total(b),
        total(a + b) == total(b + a),
    decreases b.len() + a.len(),
{
    assert(a.push(wage).drop_last() =~= a);
    lemma_total_concat(a, b);
    lemma_total_concat(b, a);
}

proof fn lemma_total_concat(a: Seq<u32>, b: Seq<u32>)
    ensures
        total(a + b) == total(a) + total(b),
    decreases b.len(),
{
    if b.len() == 0 {
        assert(a + b =~= a);
    } else {
        lemma_total_concat(a, b.drop_last());
        assert((a + b).drop_last() =~= a + b.drop_last());
    }
}

/// Whether one step of a day comes before another: the talks of a team in the order of its
/// players, then the team, then the talks of the next.
pub open spec fn in_order(a: ClubStep, b: ClubStep) -> bool {
    match (a, b) {
        (
            ClubStep::Contract { team: t, player: k },
            ClubStep::Contract { team: u, player: l },
        ) => t < u || (t == u && k < l),
        (ClubStep::Contract { team: t, .. }, ClubStep::Team { team: u }) => t <= u,
        (ClubStep::Team { team: t }, ClubStep::Contract { team: u, .. }) => t < u,
        (ClubStep::Team { team: t }, ClubStep::Team { team: u }) => t < u,
        _ => false,
    }
}

proof fn lemma_talks_of_a_team(players: Seq<PlayerResult>, team: int, n: int, k: int)
    requires
        0 <= n <= players.len() <= usize::MAX,
        0 <= team <= usize::MAX,
        0 <= k < players.len(),
    ensures
        ({
            let s = talks(players, team, n);
            let c = players[k].contract;
            &&& s.contains(ClubStep::Contract { team: team as usize, player: k as usize }) <==> k
                < n && (c.contract_rejected || c.no_contract || c.want_improve_contract
                || c.want_extend_contract)
            &&& forall|i: int|
                0 <= i < s.len() ==> (#[trigger] s[i] matches ClubStep::Contract { team: t, player }
                    && t == team && player < n)
            &&& forall|i: int, j: int|
                0 <= i < j < s.len() ==> in_order(#[trigger] s[i], #[trigger] s[j])
        }),
    decreases n,
{
    if n > 0 {
        lemma_talks_of_a_team(players, team, n - 1, k);
        let before = talks(players, team, n - 1);
        let s = talks(players, team, n);
        let step = ClubStep::Contract { team: team as usize, player: k as usize };
        if players[n - 1].contract.any() {
            let new = ClubStep::Contract { team: team as usize, player: (n - 1) as usize };
            assert(s == before.push(new));
            assert(s[before.len() as int] == new);
            if before.contains(step) {
                let i = choose|i: int| 0 <= i < before.len() && before[i] == step;
                assert(s[i] == step);
            }
            if s.contains(step) && k != n - 1 {
                let i = choose|i: int| 0 <= i < s.len() && s[i] == step;
                assert(i < before.len());
                assert(before[i] == step);
            }
        }
    }
}

/// A day is worked off in order: talks are held with exactly the players who brought something
/// up, each before his team is, and each team once, in turn.
pub proof fn lemma_day_in_order(teams: Seq<TeamResult>, n: int, team: int, k: int)
    requires
        0 <= n <= teams.len() <= usize::MAX,
        forall|t: int| 0 <= t < teams.len() ==> (#[trigger] teams[t]).players@.len() <= usize::MAX,
        0 <= team < teams.len(),
    ensures
        ({
            let s = team_steps(teams, n);
            let c = teams[team].players@[k].contract;
            &&& s.contains(ClubStep::Team { team: team as usize }) <==> team < n
            &&& 0 <= k < teams[team].players@.len() ==> (s.contains(
                ClubStep::Contract { team: team as usize, player: k as usize },
            ) <==> team < n && (c.contract_rejected || c.no_contract || c.want_improve_contract
                || c.want_extend_contract))
            &&& forall|i: int|
                0 <= i < s.len() ==> (match #[trigger] s[i] {
                    ClubStep::Contract { team: t, .. } => t < n,
                    ClubStep::Team { team: t } => t < n,
                    _ => false,
                })
            &&& forall|i: int, j: int|
                0 <= i < j < s.len() ==> in_order(#[trigger] s[i], #[trigger] s[j])
        }),
    decreases n,
{
    if n > 0 {
        lemma_day_in_order(teams, n - 1, team, k);
        let before = team_steps(teams, n - 1);
        let players = teams[n - 1].players@;
        let held = talks(players, n - 1, players.len() as int);
        let done = ClubStep::Team { team: (n - 1) as usize };
        let s = team_steps(teams, n);
        assert(s == (before + held).push(done));
        let a = ClubStep::Team { team: team as usize };
        let b = ClubStep::Contract { team: team as usize, player: k as usize };
        if team == n - 1 && 0 <= k < players.len() {
            lemma_talks_of_a_team(players, n - 1, players.len() as int, k);
        } else if players.len() > 0 {
            lemma_talks_of_a_team(players, n - 1, players.len() as int, 0);
        }
        assert(s[s.len() - 1] == done);
        if before.contains(a) {
            let i = choose|i: int| 0 <= i < before.len() && before[i] == a;
            assert(s[i] == a);
        }
        if before.contains(b) {
            let i = choose|i: int| 0 <= i < before.len() && before[i] == b;
            assert(s[i] == b);
        }
        if held.contains(b) {
            let i = choose|i: int| 0 <= i < held.len() && held[i] == b;
            assert(s[before.len() + i] == b);
        }
        if s.contains(a) && team != n - 1 {
            let i = choose|i: int| 0 <= i < s.len() && s[i] == a;
            if i < before.len() {
                assert(before[i] == a);
            } else if i < before.len() + held.len() {
                assert(held[i - before.len()] == a);
            }
        }
        if s.contains(b) {
            let i = choose|i: int| 0 <= i < s.len() && s[i] == b;
            if i < before.len() {
                assert(before[i] == b);
            } else if i < before.len() + held.len() {
                assert(held[i - before.len()] == b);
            }
        }
        assert forall|i: int, j: int| 0 <= i < j < s.len() implies in_order(
            #[trigger] s[i],
            #[trigger] s[j],
        ) by {
            if j < before.len() {
                assert(in_order(before[i], before[j]));
            } else if j < before.len() + held.len() {
                assert(s[j] == held[j - before.len()]);
                if i < before.len() {
                    assert(s[i] == before[i]);
                } else {
                    assert(s[i] == held[i - before.len()]);
                }
            } else {
                if i < before.len() {
                    assert(s[i] == before[i]);
                } else {
                    assert(s[i] == held[i - before.len()]);
                }
            }
        }
        assert forall|i: int| 0 <= i < s.len() implies (match #[trigger] s[i] {
            ClubStep::Contract { team: t, .. } => t < n,
            ClubStep::Team { team: t } => t < n,
            _ => false,
        }) by {
            if i < before.len() {
                assert(s[i] == before[i]);
            } else if i < before.len() + held.len() {
                assert(s[i] == held[i - before.len()]);
            }
        }
    }
}

/// The standing of a club of which nothing is known is the middle: half of the scale from 0 to 1,
/// and 5000 of 10000 for its league. What is known counts as it is.
pub proof fn lemma_unknown_standing(score: Measure, reputation: u16)
    ensures
        2 * standing_of(None, None).0.units() == crate::measure::one(),
        2 * standing_of(None, None).1 == 10000,
        standing_of(Some(score), Some(reputation)) == (score, reputation),
        standing_of(Some(score), None).0 == score,
        standing_of(None, Some(reputation)).1 == reputation,
{
    crate::measure::lemma_halves(1);
}

proof fn lemma_total_is_no_debt(wages: Seq<u32>)
    ensures
        total(wages) >= 0,
    decreases wages.len(),
{
    if wages.len() > 0 {
        lemma_total_is_no_debt(wages.drop_last());
    }
}

/// What a budget leaves and what the teams earn make up the budget; there is nothing left where
/// they earn as much or more, and nothing to say without a budget.
pub proof fn lemma_room_in_the_budget(budget: u32, wages: Seq<u32>)
    ensures
        headroom(None, wages) is None,
        headroom(Some(budget), wages) is Some,
        total(wages) <= budget ==> headroom(Some(budget), wages)->0 + total(wages) == budget,
        total(wages) >= budget ==> headroom(Some(budget), wages)->0 == 0,
{
    lemma_total_is_no_debt(wages);
}

} // verus!
