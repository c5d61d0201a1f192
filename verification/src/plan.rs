//! What a club had in mind when it signed a player.

use crate::date::Date;
#[allow(unused_imports)]
use vstd::prelude::*;

verus! {

/// The role a player was signed for.
#[derive(Clone, Copy, Debug, PartialEq, Eq, Structural)]
pub enum PlayerPlanRole {
    /// A starter right away.
    ImmediateStarter,
    /// A contender for a place, after some time to settle.
    CompeteForStarting,
    /// Depth for the squad.
    DepthRotation,
    /// A young player for the long term.
    Development,
}

/// The commitment a club made: before it can judge the player, he gets `evaluation_months` and
/// `min_games`.
#[derive(Clone, Copy, Debug, PartialEq, Eq, Structural)]
pub struct PlayerPlan {
    pub role: PlayerPlanRole,
    pub started: Date,
    pub min_games: u8,
    pub evaluation_months: u8,
}

/// The whole months of thirty days between two days, rounded toward zero.
pub open spec fn months_between(from: Date, to: Date) -> int {
    let days = to.days - from.days;
    if days >= 0 {
        days / 30
    } else {
        -((-days) / 30)
    }
}

fn months_elapsed(from: Date, to: Date) -> (r: i64)
    ensures
        r == months_between(from, to),
{
    let days: i64 = to.days_since(from);
    if days >= 0 {
        days / 30
    } else {
        -((-days) / 30)
    }
}

/// The fee from which a signing counts as an expensive one.
pub const HIGH_FEE: u64 = 10_000_000;

impl PlayerPlan {
    /// The plan for a player of this age and price. A young player is there to develop, one
    /// without a fee for depth, one in his best years to compete for a place. An experienced
    /// player is depth as well, unless the fee says that he was bought to start.
    pub open spec fn from_signing_spec(age: u8, fee: u64, date: Date) -> PlayerPlan {
        if age <= 21 {
            PlayerPlan {
                role: PlayerPlanRole::Development,
                started: date,
                min_games: 10,
                evaluation_months: 24,
            }
        } else if fee == 0 {
            PlayerPlan {
                role: PlayerPlanRole::DepthRotation,
                started: date,
                min_games: 5,
                evaluation_months: 6,
            }
        } else if age <= 23 {
            PlayerPlan {
                role: PlayerPlanRole::CompeteForStarting,
                started: date,
                min_games: 12,
                evaluation_months: 12,
            }
        } else if age <= 29 {
            PlayerPlan {
                role: PlayerPlanRole::CompeteForStarting,
                started: date,
                min_games: 15,
                evaluation_months: 12,
            }
        } else {
            PlayerPlan {
                role: if fee >= HIGH_FEE {
                    PlayerPlanRole::ImmediateStarter
                } else {
                    PlayerPlanRole::DepthRotation
                },
                started: date,
                min_games: 10,
                evaluation_months: 6,
            }
        }
    }

    /// The plan for a player of this age, who cost this fee.
    pub fn from_signing(age: u8, fee: u64, date: Date) -> (r: Self)
        ensures
            r == PlayerPlan::from_signing_spec(age, fee, date),
    {
        let (role, min_games, evaluation_months): (PlayerPlanRole, u8, u8) = if age <= 21 {
            (PlayerPlanRole::Development, 10, 24)
        } else if fee == 0 {
            (PlayerPlanRole::DepthRotation, 5, 6)
        } else if age <= 23 {
            (PlayerPlanRole::CompeteForStarting, 12, 12)
        } else if age <= 29 {
            (PlayerPlanRole::CompeteForStarting, 15, 12)
        } else if fee >= HIGH_FEE {
            (PlayerPlanRole::ImmediateStarter, 10, 6)
        } else {
            (PlayerPlanRole::DepthRotation, 10, 6)
        };
        PlayerPlan { role, started: date, min_games, evaluation_months }
    }

    /// Whether the player had both the time and the games he was promised.
    pub open spec fn evaluated(self, date: Date, appearances: int) -> bool {
        months_between(self.started, date) >= self.evaluation_months && appearances
            >= self.min_games
    }

    /// Whether twice the promised time has passed.
    pub open spec fn expired(self, date: Date) -> bool {
        months_between(self.started, date) >= 2 * self.evaluation_months
    }

    /// Whether the player had both the time and the games he was promised.
    pub fn is_evaluated(&self, current_date: Date, appearances: u16) -> (r: bool)
        ensures
            r == self.evaluated(current_date, appearances as int),
    {
        months_elapsed(self.started, current_date) >= self.evaluation_months as i64 && appearances
            >= self.min_games as u16
    }

    /// Whether twice the promised time has passed.
    pub fn is_expired(&self, current_date: Date) -> (r: bool)
        ensures
            r == self.expired(current_date),
    {
        months_elapsed(self.started, current_date) >= self.evaluation_months as i64 * 2
    }

    /// Whether the club is still bound by the plan.
    pub open spec fn binding(self, date: Date, appearances: int) -> bool {
        !self.evaluated(date, appearances) && !self.expired(date)
    }
}

/// A plan that once stopped binding the club never binds it again: time only passes, and games
/// are only added.
pub proof fn lemma_protection_ends_for_good(
    plan: PlayerPlan,
    earlier: Date,
    later: Date,
    fewer: int,
    more: int,
)
    requires
        earlier.days <= later.days,
        fewer <= more,
        !plan.binding(earlier, fewer),
    ensures
        !plan.binding(later, more),
{
}

/// On the day of the signing every plan binds the club, whatever the player did before.
pub proof fn lemma_new_plan_binds(age: u8, fee: u64, date: Date, appearances: int)
    ensures
        PlayerPlan::from_signing_spec(age, fee, date).binding(date, appearances),
{
}

/// No plan binds a club for longer than four years, even if the player never plays.
pub proof fn lemma_protection_is_bounded(
    age: u8,
    fee: u64,
    signed: Date,
    date: Date,
    appearances: int,
)
    requires
        date.days - signed.days >= 48 * 30,
    ensures
        !PlayerPlan::from_signing_spec(age, fee, signed).binding(date, appearances),
{
}

/// What a club has in mind: to develop whoever is 21 at most; beyond that, depth without a fee; with
/// one, a contender up to 29, and from 30 on a starter for ten million and depth for less.
pub proof fn lemma_roles_of_signings(age: u8, fee: u64, date: Date)
    ensures
        ({
            let p = PlayerPlan::from_signing_spec(age, fee, date);
            &&& p.role is Development <==> age <= 21
            &&& p.role is CompeteForStarting <==> 22 <= age <= 29 && fee > 0
            &&& p.role is ImmediateStarter <==> age >= 30 && fee >= 10_000_000
            &&& p.role is DepthRotation <==> age >= 22 && (fee == 0 || (age >= 30 && fee
                < 10_000_000))
            &&& p.started == date
        }),
{
}

/// How long a club gives a signing: two years to develop, one to compete, half of one to everybody
/// else; and how many games: five without a fee, ten to the young and the old, twelve to who is
/// still growing and fifteen in the best years.
pub proof fn lemma_terms_of_signings(age: u8, fee: u64, date: Date)
    ensures
        ({
            let p = PlayerPlan::from_signing_spec(age, fee, date);
            &&& p.evaluation_months == 24 <==> p.role is Development
            &&& p.evaluation_months == 12 <==> p.role is CompeteForStarting
            &&& p.evaluation_months == 6 <==> p.role is ImmediateStarter || p.role is DepthRotation
            &&& p.min_games == 5 <==> age >= 22 && fee == 0
            &&& p.min_games == 10 <==> age <= 21 || (age >= 30 && fee > 0)
            &&& p.min_games == 12 <==> 22 <= age <= 23 && fee > 0
            &&& p.min_games == 15 <==> 24 <= age <= 29 && fee > 0
        }),
{
}

/// When a signing has had his chance: after the promised months of thirty days and the promised
/// games, both of them; or after twice the months without. Until then the club is bound.
pub proof fn lemma_when_a_signing_is_judged(p: PlayerPlan, date: Date, games: int)
    ensures
        ({
            let days = date.days - p.started.days;
            &&& p.evaluated(date, games) <==> days >= 30 * p.evaluation_months && games
                >= p.min_games || (p.evaluation_months == 0 && games >= p.min_games && days > -30)
            &&& p.evaluation_months > 0 ==> (p.expired(date) <==> days >= 60 * p.evaluation_months)
            &&& p.binding(date, games) <==> !(p.evaluated(date, games) || p.expired(date))
        }),
{
}

} // verus!
