//! The market for players without a club: how it treats them, and what the
//! wait does to them.

use crate::date::Date;
use crate::measure::Measure;
use crate::player::{Player, PlayerSquadStatus};
use crate::status::PlayerStatusType;
#[allow(unused_imports)]
use vstd::prelude::*;

verus! {

/// Why a free agent was passed over.
#[derive(Clone, Copy, Debug, PartialEq, Eq, Hash, Structural)]
pub enum FreeAgentBlockReason {
    UnknownNationality,
    NoMatchingRequest,
    PositionMismatch,
    AlreadySignedOrStaged,
    BelowMinimumAbility,
    AboveMaximumAbility,
    CountryReputationGap,
    CrossContinentPressureTooLow,
    RegionPrestigeGap,
    ClubAtSquadCapacity,
    PerDaySigningCapReached,
    DailyChanceRollFailed,
    WageReservationMismatch,
    AcceptanceRollFailed,
}

/// How close to a signing the player got.
pub open spec fn rank_of(reason: FreeAgentBlockReason) -> int {
    match reason {
        FreeAgentBlockReason::UnknownNationality => 0,
        FreeAgentBlockReason::NoMatchingRequest => 1,
        FreeAgentBlockReason::PositionMismatch => 2,
        FreeAgentBlockReason::AlreadySignedOrStaged => 3,
        FreeAgentBlockReason::BelowMinimumAbility => 4,
        FreeAgentBlockReason::AboveMaximumAbility => 5,
        FreeAgentBlockReason::CountryReputationGap => 6,
        FreeAgentBlockReason::CrossContinentPressureTooLow => 7,
        FreeAgentBlockReason::RegionPrestigeGap => 8,
        FreeAgentBlockReason::ClubAtSquadCapacity => 9,
        FreeAgentBlockReason::PerDaySigningCapReached => 10,
        FreeAgentBlockReason::DailyChanceRollFailed => 11,
        FreeAgentBlockReason::WageReservationMismatch => 12,
        FreeAgentBlockReason::AcceptanceRollFailed => 13,
    }
}

/// The stable label of a reason.
pub open spec fn reason_label(reason: FreeAgentBlockReason) -> Seq<char> {
    match reason {
        FreeAgentBlockReason::UnknownNationality => "unknown_nationality"@,
        FreeAgentBlockReason::NoMatchingRequest => "no_matching_request"@,
        FreeAgentBlockReason::PositionMismatch => "position_mismatch"@,
        FreeAgentBlockReason::AlreadySignedOrStaged => "already_signed_or_staged"@,
        FreeAgentBlockReason::BelowMinimumAbility => "below_minimum_ability"@,
        FreeAgentBlockReason::AboveMaximumAbility => "above_maximum_ability"@,
        FreeAgentBlockReason::CountryReputationGap => "country_reputation_gap"@,
        FreeAgentBlockReason::CrossContinentPressureTooLow => "cross_continent_pressure_too_low"@,
        FreeAgentBlockReason::RegionPrestigeGap => "region_prestige_gap"@,
        FreeAgentBlockReason::ClubAtSquadCapacity => "club_at_squad_capacity"@,
        FreeAgentBlockReason::PerDaySigningCapReached => "per_day_signing_cap_reached"@,
        FreeAgentBlockReason::DailyChanceRollFailed => "daily_chance_roll_failed"@,
        FreeAgentBlockReason::WageReservationMismatch => "wage_reservation_mismatch"@,
        FreeAgentBlockReason::AcceptanceRollFailed => "acceptance_roll_failed"@,
    }
}

impl FreeAgentBlockReason {
    /// How close to a signing the player got: higher is closer.
    pub fn rank(self) -> (r: u8)
        ensures
            r == rank_of(self),
    {
        match self {
            FreeAgentBlockReason::UnknownNationality => 0,
            FreeAgentBlockReason::NoMatchingRequest => 1,
            FreeAgentBlockReason::PositionMismatch => 2,
            FreeAgentBlockReason::AlreadySignedOrStaged => 3,
            FreeAgentBlockReason::BelowMinimumAbility => 4,
            FreeAgentBlockReason::AboveMaximumAbility => 5,
            FreeAgentBlockReason::CountryReputationGap => 6,
            FreeAgentBlockReason::CrossContinentPressureTooLow => 7,
            FreeAgentBlockReason::RegionPrestigeGap => 8,
            FreeAgentBlockReason::ClubAtSquadCapacity => 9,
            FreeAgentBlockReason::PerDaySigningCapReached => 10,
            FreeAgentBlockReason::DailyChanceRollFailed => 11,
            FreeAgentBlockReason::WageReservationMismatch => 12,
            FreeAgentBlockReason::AcceptanceRollFailed => 13,
        }
    }

    /// The stable label of the reason.
    pub fn label(self) -> (r: &'static str)
        ensures
            r@ == reason_label(self),
    {
        match self {
            FreeAgentBlockReason::UnknownNationality => "unknown_nationality",
            FreeAgentBlockReason::NoMatchingRequest => "no_matching_request",
            FreeAgentBlockReason::PositionMismatch => "position_mismatch",
            FreeAgentBlockReason::AlreadySignedOrStaged => "already_signed_or_staged",
            FreeAgentBlockReason::BelowMinimumAbility => "below_minimum_ability",
            FreeAgentBlockReason::AboveMaximumAbility => "above_maximum_ability",
            FreeAgentBlockReason::CountryReputationGap => "country_reputation_gap",
            FreeAgentBlockReason::CrossContinentPressureTooLow => {
                "cross_continent_pressure_too_low"
            },
            FreeAgentBlockReason::RegionPrestigeGap => "region_prestige_gap",
            FreeAgentBlockReason::ClubAtSquadCapacity => "club_at_squad_capacity",
            FreeAgentBlockReason::PerDaySigningCapReached => "per_day_signing_cap_reached",
            FreeAgentBlockReason::DailyChanceRollFailed => "daily_chance_roll_failed",
            FreeAgentBlockReason::WageReservationMismatch => "wage_reservation_mismatch",
            FreeAgentBlockReason::AcceptanceRollFailed => "acceptance_roll_failed",
        }
    }
}

/// Where a free agent came from and how the market has treated him since.
#[derive(Debug)]
pub struct FreeAgentMarketState {
    pub free_since: Date,
    pub last_club_id: Option<u32>,
    pub last_country_id: Option<u32>,
    pub last_country_reputation: u16,
    pub last_league_reputation: u16,
    pub last_club_reputation_score: Measure,
    pub last_salary: u32,
    pub last_squad_status: PlayerSquadStatus,
    /// The days on which offers came, oldest first, pruned to a month.
    pub recent_offer_dates: Vec<Date>,
    /// The days on which he refused one, oldest first, pruned to a month.
    pub recent_rejected_offer_dates: Vec<Date>,
    pub offers_rejected_total: u16,
    pub last_offer_date: Option<Date>,
    /// The closest he last came to a signing, and when.
    pub last_block: Option<(Date, FreeAgentBlockReason)>,
    /// The days in a row on which only chance stood in the way.
    pub failed_approach_streak: u8,
    pub last_streak_update: Option<Date>,
}

/// Whether the day is at most thirty days before `today`, or later.
pub open spec fn within_month(d: Date, today: Date) -> bool {
    d.days >= today.days - 30
}

/// The days of a log that are at most a month old.
pub open spec fn last_month(dates: Seq<Date>, today: Date) -> Seq<Date> {
    dates.filter(|d: Date| within_month(d, today))
}

/// How many days of a log are at most a month old, up to 255.
pub open spec fn month_count(dates: Seq<Date>, today: Date) -> int {
    if last_month(dates, today).len() > 255 {
        255
    } else {
        last_month(dates, today).len() as int
    }
}

/// The year that holds a day.
pub open spec fn year_of(days: int) -> int {
    choose|year: int| crate::date::in_year(days, year)
}

/// How many transfer windows have closed up to and on a day, counted from the year zero. The
/// winter window closes on 31 January, the summer window on 31 August.
pub open spec fn closed_by(days: int) -> int {
    let year = year_of(days);
    2 * year + (if days >= crate::date::day_number(year, 1, 31) { 1int } else { 0 }) + (if days
        >= crate::date::day_number(year, 8, 31) { 1int } else { 0 })
}

/// How many transfer windows closed after the day `from`, up to and on the day `to`.
pub open spec fn windows_between(from: int, to: int) -> int {
    if to <= from {
        0
    } else {
        closed_by(to) - closed_by(from)
    }
}

/// The dates of a log that are at most a month old, in order.
fn prune(dates: &Vec<Date>, today: Date) -> (r: Vec<Date>)
    ensures
        r@ == last_month(dates@, today),
{
    let ghost pred = |d: Date| within_month(d, today);
    let cutoff: i64 = today.days as i64 - 30;
    let mut kept: Vec<Date> = Vec::new();
    let mut i: usize = 0;
    assert(dates@.take(0) =~= Seq::empty());
    reveal(Seq::filter);
    while i < dates.len()
        invariant
            i <= dates@.len(),
            cutoff == today.days - 30,
            pred == (|d: Date| within_month(d, today)),
            kept@ == dates@.take(i as int).filter(pred),
        decreases dates@.len() - i,
    {
        assert(dates@.take(i + 1).drop_last() =~= dates@.take(i as int));
        assert(dates@.take(i + 1).last() == dates@[i as int]);
        reveal(Seq::filter);
        if dates[i].days as i64 >= cutoff {
            kept.push(dates[i]);
        }
        i = i + 1;
    }
    assert(dates@.take(i as int) =~= dates@);
    kept
}

/// How many dates of a log are at most a month old, up to 255.
fn count_month(dates: &Vec<Date>, today: Date) -> (r: u8)
    ensures
        r == month_count(dates@, today),
{
    let kept = prune(dates, today);
    if kept.len() > 255 {
        255
    } else {
        kept.len() as u8
    }
}

/// How many transfer windows have closed up to and on a day, counted from the year zero.
fn count_closed_by(date: Date) -> (r: i64)
    requires
        date.wf(),
    ensures
        r == closed_by(date.days as int),
        -1_000_000 < r < 1_000_000,
{
    let year: i32 = date.year();
    proof {
        assert(crate::date::in_year(date.days as int, year_of(date.days as int)));
        crate::date::lemma_year_unique(
            date.days as int,
            year as int,
            year_of(date.days as int),
        );
    }
    let mut count: i64 = 2 * (year as i64);
    match Date::from_ymd_opt(year, 1, 31) {
        Some(winter) => if date.days >= winter.days {
            count = count + 1;
        },
        None => {},
    }
    match Date::from_ymd_opt(year, 8, 31) {
        Some(summer) => if date.days >= summer.days {
            count = count + 1;
        },
        None => {},
    }
    count
}

impl FreeAgentMarketState {
    /// The offers of the last thirty days, up to 255.
    pub fn offers_received_30d(&self, today: Date) -> (r: u8)
        ensures
            r == month_count(self.recent_offer_dates@, today),
    {
        count_month(&self.recent_offer_dates, today)
    }

    /// The offers refused in the last thirty days, up to 255.
    pub fn offers_rejected_30d(&self, today: Date) -> (r: u8)
        ensures
            r == month_count(self.recent_rejected_offer_dates@, today),
    {
        count_month(&self.recent_rejected_offer_dates, today)
    }

    /// The days without an offer: since the last one, or since he is free.
    pub open spec fn silence(self, today: Date) -> int {
        let anchor = match self.last_offer_date {
            Some(d) => d,
            None => self.free_since,
        };
        if today.days < anchor.days {
            0
        } else {
            today.days - anchor.days
        }
    }

    /// The days without a club.
    pub open spec fn wait(self, today: Date) -> int {
        if today.days < self.free_since.days {
            0
        } else {
            today.days - self.free_since.days
        }
    }

    /// The days without an offer: since the last one, or since he is free.
    pub fn days_since_last_offer(&self, today: Date) -> (r: i64)
        ensures
            r == self.silence(today),
    {
        let anchor = match self.last_offer_date {
            Some(d) => d,
            None => self.free_since,
        };
        let days: i64 = today.days_since(anchor);
        if days < 0 {
            0
        } else {
            days
        }
    }

    /// The days without a club.
    pub fn days_free(&self, today: Date) -> (r: i64)
        ensures
            r == self.wait(today),
            0 <= r <= u32::MAX,
    {
        let days: i64 = today.days_since(self.free_since);
        if days < 0 {
            0
        } else {
            days
        }
    }

    /// The transfer windows that closed since he is free, up to 255.
    pub fn transfer_windows_missed(&self, today: Date) -> (r: u8)
        requires
            self.free_since.wf(),
            today.wf(),
        ensures
            r == (if windows_between(self.free_since.days as int, today.days as int) > 255 {
                255
            } else {
                windows_between(self.free_since.days as int, today.days as int)
            }),
    {
        FreeAgentMarketState::windows_closed_between(self.free_since, today)
    }

    /// The transfer windows that closed after the day `from`, up to and on the day `to`, up to
    /// 255.
    pub fn windows_closed_between(from: Date, to: Date) -> (r: u8)
        requires
            from.wf(),
            to.wf(),
        ensures
            r == (if windows_between(from.days as int, to.days as int) > 255 {
                255
            } else {
                windows_between(from.days as int, to.days as int)
            }),
    {
        if to.days <= from.days {
            return 0;
        }
        let count: i64 = count_closed_by(to) - count_closed_by(from);
        proof {
            lemma_closed_by_increases(from.days as int, to.days as int);
        }
        if count > 255 {
            255
        } else {
            count as u8
        }
    }
}

proof fn lemma_year_of(days: int)
    requires
        crate::date::in_range(days),
    ensures
        crate::date::in_year(days, year_of(days)),
{
    lemma_some_year(days, crate::date::FIRST_YEAR as int, crate::date::LAST_YEAR as int);
}

proof fn lemma_some_year(days: int, first: int, last: int)
    requires
        first <= last,
        crate::date::days_before_year(first) < days <= crate::date::days_before_year(last + 1),
    ensures
        exists|year: int| crate::date::in_year(days, year),
    decreases last - first,
{
    if days <= crate::date::days_before_year(first + 1) {
        assert(crate::date::in_year(days, first));
    } else {
        lemma_some_year(days, first + 1, last);
    }
}

proof fn lemma_close_days(year: int)
    ensures
        crate::date::day_number(year, 1, 31) == crate::date::days_before_year(year) + 31,
        crate::date::days_before_year(year) + 243 <= crate::date::day_number(year, 8, 31)
            <= crate::date::days_before_year(year) + 244,
{
    reveal_with_fuel(crate::date::days_before_month, 9);
}

proof fn lemma_closed_by_increases(from: int, to: int)
    requires
        from <= to,
        crate::date::in_range(from),
        crate::date::in_range(to),
    ensures
        closed_by(from) <= closed_by(to),
{
    lemma_year_of(from);
    lemma_year_of(to);
    let a = year_of(from);
    let b = year_of(to);
    lemma_close_days(a);
    lemma_close_days(b);
    if b < a {
        assert(crate::date::days_before_year(b + 1) <= crate::date::days_before_year(a));
    }
}

/// A window closes on 31 January and on 31 August, and on no other day.
pub proof fn lemma_window_closes(from: int, day: int, year: int)
    requires
        from < day,
        crate::date::in_range(from),
        crate::date::in_range(day),
        crate::date::in_range(day + 1),
        crate::date::in_year(day + 1, year),
    ensures
        windows_between(from, day + 1) - windows_between(from, day) == if day + 1
            == crate::date::day_number(year, 1, 31) || day + 1 == crate::date::day_number(
            year,
            8,
            31,
        ) {
            1int
        } else {
            0
        },
{
    lemma_year_of(day);
    lemma_year_of(day + 1);
    let a = year_of(day);
    let b = year_of(day + 1);
    crate::date::lemma_year_unique(day + 1, year, b);
    lemma_close_days(a);
    lemma_close_days(b);
    if a != b {
        if a < b - 1 {
            assert(crate::date::days_before_year(a + 1) <= crate::date::days_before_year(b - 1));
            assert(crate::date::days_before_year(b - 1) + 365 <= crate::date::days_before_year(b));
        } else if a > b {
            assert(crate::date::days_before_year(b + 1) <= crate::date::days_before_year(a));
        }
    }
}

/// Windows missed add up: those of two adjoining spells are those of the whole.
pub proof fn lemma_windows_add_up(a: int, b: int, c: int)
    requires
        a <= b <= c,
        crate::date::in_range(a),
        crate::date::in_range(b),
        crate::date::in_range(c),
    ensures
        windows_between(a, b) + windows_between(b, c) == windows_between(a, c),
        windows_between(a, b) >= 0,
{
    lemma_closed_by_increases(a, b);
}

/// How far a free agent is along the way from choosy to desperate.
#[derive(Clone, Copy, Debug, PartialEq, Eq, Structural)]
pub enum MarketStage {
    Fresh,
    Open,
    Flexible,
    Desperate,
    LastChance,
}

/// The stage after so many days without a club.
pub open spec fn stage_of(days_free: int) -> MarketStage {
    if days_free < 30 {
        MarketStage::Fresh
    } else if days_free < 90 {
        MarketStage::Open
    } else if days_free < 180 {
        MarketStage::Flexible
    } else if days_free < 365 {
        MarketStage::Desperate
    } else {
        MarketStage::LastChance
    }
}

impl MarketStage {
    /// The stage after so many days without a club.
    pub fn from_days_free(days_free: i64) -> (r: Self)
        ensures
            r == stage_of(days_free as int),
    {
        if days_free < 30 {
            MarketStage::Fresh
        } else if days_free < 90 {
            MarketStage::Open
        } else if days_free < 180 {
            MarketStage::Flexible
        } else if days_free < 365 {
            MarketStage::Desperate
        } else {
            MarketStage::LastChance
        }
    }

    /// The short label of the stage.
    pub fn label(self) -> (r: &'static str)
        ensures
            r@ == match self {
                MarketStage::Fresh => "Fresh"@,
                MarketStage::Open => "Open"@,
                MarketStage::Flexible => "Flexible"@,
                MarketStage::Desperate => "Desperate"@,
                MarketStage::LastChance => "Last chance"@,
            },
    {
        match self {
            MarketStage::Fresh => "Fresh",
            MarketStage::Open => "Open",
            MarketStage::Flexible => "Flexible",
            MarketStage::Desperate => "Desperate",
            MarketStage::LastChance => "Last chance",
        }
    }
}

/// Why a free agent is still without a club, in broad terms.
#[derive(Clone, Copy, Debug, PartialEq, Eq, Structural)]
pub enum FreeAgentStatusCategory {
    DataUnknown,
    NoPositionNeed,
    WageTooHigh,
    ReputationWait,
    OffersRefused,
    LowInterest,
    InterestBuilding,
}

/// The category of a reason.
pub open spec fn category_of(reason: Option<FreeAgentBlockReason>) -> FreeAgentStatusCategory {
    match reason {
        None => FreeAgentStatusCategory::LowInterest,
        Some(r) => match r {
            FreeAgentBlockReason::UnknownNationality => FreeAgentStatusCategory::DataUnknown,
            FreeAgentBlockReason::NoMatchingRequest
            | FreeAgentBlockReason::PositionMismatch => FreeAgentStatusCategory::NoPositionNeed,
            FreeAgentBlockReason::WageReservationMismatch => FreeAgentStatusCategory::WageTooHigh,
            FreeAgentBlockReason::CountryReputationGap
            | FreeAgentBlockReason::RegionPrestigeGap
            | FreeAgentBlockReason::CrossContinentPressureTooLow
            | FreeAgentBlockReason::AboveMaximumAbility => FreeAgentStatusCategory::ReputationWait,
            FreeAgentBlockReason::AcceptanceRollFailed => FreeAgentStatusCategory::OffersRefused,
            FreeAgentBlockReason::BelowMinimumAbility
            | FreeAgentBlockReason::ClubAtSquadCapacity
            | FreeAgentBlockReason::PerDaySigningCapReached => FreeAgentStatusCategory::LowInterest,
            FreeAgentBlockReason::DailyChanceRollFailed
            | FreeAgentBlockReason::AlreadySignedOrStaged => FreeAgentStatusCategory::InterestBuilding,
        },
    }
}

/// The message of a category.
pub open spec fn message_of(category: FreeAgentStatusCategory) -> Seq<char> {
    match category {
        FreeAgentStatusCategory::DataUnknown => "His registration data is incomplete, so clubs can't approach him."@,
        FreeAgentStatusCategory::NoPositionNeed => "No clubs currently need his position."@,
        FreeAgentStatusCategory::WageTooHigh => "His wage demands remain above what interested clubs can offer."@,
        FreeAgentStatusCategory::ReputationWait => "He is waiting for a club closer to his previous reputation level."@,
        FreeAgentStatusCategory::OffersRefused => "Several clubs considered him, but no offer matched his expectations."@,
        FreeAgentStatusCategory::LowInterest => "Market interest is low; he may need to accept a smaller role."@,
        FreeAgentStatusCategory::InterestBuilding => "Clubs are showing interest; a move should come soon."@,
    }
}

impl FreeAgentStatusCategory {
    /// The category of the last reason; low interest where there is none.
    pub fn from_block_reason(reason: Option<FreeAgentBlockReason>) -> (r: Self)
        ensures
            r == category_of(reason),
    {
        match reason {
            None => FreeAgentStatusCategory::LowInterest,
            Some(r) => match r {
                FreeAgentBlockReason::UnknownNationality => FreeAgentStatusCategory::DataUnknown,
                FreeAgentBlockReason::NoMatchingRequest
                | FreeAgentBlockReason::PositionMismatch => FreeAgentStatusCategory::NoPositionNeed,
                FreeAgentBlockReason::WageReservationMismatch => {
                    FreeAgentStatusCategory::WageTooHigh
                },
                FreeAgentBlockReason::CountryReputationGap
                | FreeAgentBlockReason::RegionPrestigeGap
                | FreeAgentBlockReason::CrossContinentPressureTooLow
                | FreeAgentBlockReason::AboveMaximumAbility => {
                    FreeAgentStatusCategory::ReputationWait
                },
                FreeAgentBlockReason::AcceptanceRollFailed => FreeAgentStatusCategory::OffersRefused,
                FreeAgentBlockReason::BelowMinimumAbility
                | FreeAgentBlockReason::ClubAtSquadCapacity
                | FreeAgentBlockReason::PerDaySigningCapReached => {
                    FreeAgentStatusCategory::LowInterest
                },
                FreeAgentBlockReason::DailyChanceRollFailed
                | FreeAgentBlockReason::AlreadySignedOrStaged => {
                    FreeAgentStatusCategory::InterestBuilding
                },
            },
        }
    }

    /// The message of the category.
    pub fn default_message(self) -> (r: &'static str)
        ensures
            r@ == message_of(self),
    {
        match self {
            FreeAgentStatusCategory::DataUnknown => {
                "His registration data is incomplete, so clubs can't approach him."
            },
            FreeAgentStatusCategory::NoPositionNeed => "No clubs currently need his position.",
            FreeAgentStatusCategory::WageTooHigh => {
                "His wage demands remain above what interested clubs can offer."
            },
            FreeAgentStatusCategory::ReputationWait => {
                "He is waiting for a club closer to his previous reputation level."
            },
            FreeAgentStatusCategory::OffersRefused => {
                "Several clubs considered him, but no offer matched his expectations."
            },
            FreeAgentStatusCategory::LowInterest => {
                "Market interest is low; he may need to accept a smaller role."
            },
            FreeAgentStatusCategory::InterestBuilding => {
                "Clubs are showing interest; a move should come soon."
            },
        }
    }
}

/// The situation of a free agent, for a list of them.
#[derive(Debug)]
pub struct FreeAgentStatusExplanation {
    pub days_free: i64,
    pub market_stage: MarketStage,
    pub offers_received_30d: u8,
    pub offers_rejected_total: u16,
    pub last_block_reason: Option<FreeAgentBlockReason>,
    pub category: FreeAgentStatusCategory,
    pub message: String,
}

/// A move that a player has agreed for the day his contract runs out.
#[derive(Clone, Copy, Debug, PartialEq, Eq, Structural)]
pub struct PreContractAgreement {
    pub to_club_id: u32,
    pub to_country_id: u32,
    pub annual_wage: u32,
    pub contract_years: u8,
    pub promised_status: Option<PlayerSquadStatus>,
    pub agreed_on: Date,
}

/// What is known of a player on the day he is released.
#[derive(Clone, Copy, Debug, PartialEq, Eq, Structural)]
pub struct ReleaseContext {
    pub date: Date,
    pub last_club_id: Option<u32>,
    pub last_country_id: Option<u32>,
    pub last_country_reputation: u16,
    pub last_league_reputation: u16,
    pub last_club_reputation_score: Measure,
    pub last_salary: u32,
    pub last_squad_status: PlayerSquadStatus,
}

/// The content of a [`FreeAgentMarketState`].
#[verifier::ext_equal]
pub struct MarketView {
    pub origin: ReleaseContext,
    pub recent_offer_dates: Seq<Date>,
    pub recent_rejected_offer_dates: Seq<Date>,
    pub offers_rejected_total: u16,
    pub last_offer_date: Option<Date>,
    pub last_block: Option<(Date, FreeAgentBlockReason)>,
    pub failed_approach_streak: u8,
    pub last_streak_update: Option<Date>,
}

impl View for FreeAgentMarketState {
    type V = MarketView;

    open spec fn view(&self) -> MarketView {
        MarketView {
            origin: ReleaseContext {
                date: self.free_since,
                last_club_id: self.last_club_id,
                last_country_id: self.last_country_id,
                last_country_reputation: self.last_country_reputation,
                last_league_reputation: self.last_league_reputation,
                last_club_reputation_score: self.last_club_reputation_score,
                last_salary: self.last_salary,
                last_squad_status: self.last_squad_status,
            },
            recent_offer_dates: self.recent_offer_dates@,
            recent_rejected_offer_dates: self.recent_rejected_offer_dates@,
            offers_rejected_total: self.offers_rejected_total,
            last_offer_date: self.last_offer_date,
            last_block: self.last_block,
            failed_approach_streak: self.failed_approach_streak,
            last_streak_update: self.last_streak_update,
        }
    }
}

impl MarketView {
    /// The state on the day of the release.
    pub open spec fn fresh(origin: ReleaseContext) -> MarketView {
        MarketView {
            origin,
            recent_offer_dates: Seq::empty(),
            recent_rejected_offer_dates: Seq::empty(),
            offers_rejected_total: 0,
            last_offer_date: None,
            last_block: None,
            failed_approach_streak: 0,
            last_streak_update: None,
        }
    }

    /// The state after an offer.
    pub open spec fn offered(self, date: Date) -> MarketView {
        MarketView {
            recent_offer_dates: last_month(self.recent_offer_dates, date).push(date),
            last_offer_date: Some(date),
            failed_approach_streak: 0,
            last_streak_update: Some(date),
            ..self
        }
    }

    /// The state after an offer was refused.
    pub open spec fn refused(self, date: Date) -> MarketView {
        MarketView {
            offers_rejected_total: if self.offers_rejected_total < u16::MAX {
                (self.offers_rejected_total + 1) as u16
            } else {
                u16::MAX
            },
            recent_rejected_offer_dates: last_month(self.recent_rejected_offer_dates, date).push(
                date,
            ),
            ..self
        }
    }

    /// The state after the player was passed over.
    pub open spec fn blocked(self, date: Date, reason: FreeAgentBlockReason) -> MarketView {
        let unlucky = reason is DailyChanceRollFailed && self.last_streak_update != Some(date);
        let keeps = self.last_block is Some && (self.last_block->0).0 == date && rank_of(
            (self.last_block->0).1,
        ) >= rank_of(reason);
        MarketView {
            failed_approach_streak: if unlucky && self.failed_approach_streak < u8::MAX {
                (self.failed_approach_streak + 1) as u8
            } else {
                self.failed_approach_streak
            },
            last_streak_update: if unlucky {
                Some(date)
            } else {
                self.last_streak_update
            },
            last_block: if keeps {
                self.last_block
            } else {
                Some((date, reason))
            },
            ..self
        }
    }

    /// The days without a club.
    pub open spec fn wait(self, today: Date) -> int {
        if today.days < self.origin.date.days {
            0
        } else {
            today.days - self.origin.date.days
        }
    }

    /// The days without an offer.
    pub open spec fn silence(self, today: Date) -> int {
        let anchor = match self.last_offer_date {
            Some(d) => d,
            None => self.origin.date,
        };
        if today.days < anchor.days {
            0
        } else {
            today.days - anchor.days
        }
    }

    /// The windows missed, up to 255.
    pub open spec fn windows_missed(self, today: Date) -> int {
        let n = windows_between(self.origin.date.days as int, today.days as int);
        if n > 255 {
            255
        } else {
            n
        }
    }

    /// The pressure of waiting, in thousandths, before it is kept between 0 and 1000.
    pub open spec fn raw_pressure(self, today: Date, age: u8, ability: u8) -> int {
        self.wait(today) + 180 * self.windows_missed(today) + 40 * self.offers_rejected_total
            + rejection_sting(month_count(self.recent_rejected_offer_dates, today))
            + age_pressure(age) + quality_pressure(ability) + interest_pressure(
            month_count(self.recent_offer_dates, today),
        ) + drought_pressure(self.silence(today))
    }

    /// The pressure of waiting, in thousandths.
    pub open spec fn pressure(self, today: Date, age: u8, ability: u8) -> int {
        let raw = self.raw_pressure(today, age, ability);
        if raw < 0 {
            0
        } else if raw > 1000 {
            1000
        } else {
            raw
        }
    }

    /// Why the player is still without a club: the last reason, unless he refused several
    /// offers and the reason blames the clubs.
    pub open spec fn category(self) -> FreeAgentStatusCategory {
        let c = category_of(
            match self.last_block {
                Some(b) => Some(b.1),
                None => None,
            },
        );
        if self.offers_rejected_total >= 2 && (c is LowInterest || c is NoPositionNeed) {
            FreeAgentStatusCategory::OffersRefused
        } else {
            c
        }
    }
}

/// Where a free agent of unknown past is taken to come from: his own country, a league of three
/// quarters of its reputation, a month ago.
pub open spec fn inferred_origin(
    country_id: u32,
    date: Date,
    reputation: u16,
    club_score: Measure,
    salary: u32,
) -> ReleaseContext {
    ReleaseContext {
        date: Date { days: (date.days - 30) as i32 },
        last_club_id: None,
        last_country_id: Some(country_id),
        last_country_reputation: reputation,
        last_league_reputation: (3 * reputation / 4) as u16,
        last_club_reputation_score: club_score,
        last_salary: salary,
        last_squad_status: PlayerSquadStatus::FirstTeamSquadRotation,
    }
}

/// What age adds to the pressure, in thousandths.
pub open spec fn age_pressure(age: u8) -> int {
    if age < 22 {
        -100
    } else if age < 28 {
        0
    } else if age < 32 {
        80
    } else if age < 35 {
        180
    } else {
        300
    }
}

/// What ability takes off the pressure, in thousandths.
pub open spec fn quality_pressure(ability: u8) -> int {
    if ability >= 140 {
        -150
    } else if ability >= 110 {
        -50
    } else if ability >= 80 {
        50
    } else {
        150
    }
}

/// What the offers of the last month add to the pressure, in thousandths.
pub open spec fn interest_pressure(offers: int) -> int {
    if offers == 0 {
        100
    } else if offers <= 2 {
        -50
    } else {
        -150
    }
}

/// What the refusals of the last month add to the pressure, in thousandths.
pub open spec fn rejection_sting(refusals: int) -> int {
    if refusals >= 2 {
        200
    } else {
        100 * refusals
    }
}

/// What a long silence adds to the pressure, in thousandths.
pub open spec fn drought_pressure(days: int) -> int {
    if days >= 180 {
        150
    } else if days >= 90 {
        80
    } else {
        0
    }
}

/// The reputation by which a player measures clubs: that of his last market, four parts country
/// and six parts league, or six tenths of his home country's if that is more.
pub open spec fn reference(last: Option<(u16, u16)>, nationality: u16) -> int {
    let home = 6 * nationality;
    let market = match last {
        Some(p) => 4 * p.0 + 6 * p.1,
        None => 0,
    };
    ((if market > home {
        market
    } else {
        home
    }) + 5) / 10
}

impl Player {
    /// The player's situation on the market, where he is without a club.
    pub open spec fn market(self) -> Option<MarketView> {
        match self.free_agent_state {
            Some(s) => Some(s@),
            None => None,
        }
    }

    /// Whether everything but the market state is as in `before`.
    pub open spec fn same_but_market(self, before: Player) -> bool {
        self == (Player { free_agent_state: self.free_agent_state, ..before })
    }

    /// The market state, where the player is without a club.
    pub fn free_agent_state(&self) -> (r: Option<&FreeAgentMarketState>)
        ensures
            r is Some <==> self.free_agent_state is Some,
            r is Some ==> *r->0 == self.free_agent_state->0,
    {
        match &self.free_agent_state {
            Some(s) => Some(s),
            None => None,
        }
    }

    /// The agreed move, where there is one.
    pub fn pending_pre_contract(&self) -> (r: Option<&PreContractAgreement>)
        ensures
            r is Some <==> self.pending_pre_contract is Some,
            r is Some ==> *r->0 == self.pending_pre_contract->0,
    {
        match &self.pending_pre_contract {
            Some(a) => Some(a),
            None => None,
        }
    }

    /// Agrees a move for later. The player carries the flag of a departing one from now on.
    pub fn stage_pre_contract(&mut self, agreement: PreContractAgreement, date: Date)
        ensures
            final(self).pending_pre_contract == Some(agreement),
            crate::status::holds(final(self).statuses.statuses@, PlayerStatusType::Trn),
            final(self).statuses.statuses@ == if crate::status::holds(
                old(self).statuses.statuses@,
                PlayerStatusType::Trn,
            ) {
                old(self).statuses.statuses@
            } else {
                old(self).statuses.statuses@.push(
                    (crate::status::StatusData {
                        start_date: date,
                        status: PlayerStatusType::Trn,
                    }),
                )
            },
            *final(self) == (Player {
                pending_pre_contract: final(self).pending_pre_contract,
                statuses: final(self).statuses,
                ..*old(self)
            }),
    {
        self.pending_pre_contract = Some(agreement);
        self.statuses.add(date, PlayerStatusType::Trn);
    }

    /// Drops the agreed move, and the flag with it.
    pub fn clear_pre_contract(&mut self)
        ensures
            final(self).pending_pre_contract is None,
            old(self).statuses.wf() ==> final(self).statuses.wf() && !crate::status::holds(
                final(self).statuses.statuses@,
                PlayerStatusType::Trn,
            ),
            !crate::status::holds(old(self).statuses.statuses@, PlayerStatusType::Trn)
                ==> final(self).statuses.statuses@ == old(self).statuses.statuses@,
            crate::status::holds(old(self).statuses.statuses@, PlayerStatusType::Trn)
                ==> exists|i: int| #[trigger]
                crate::status::first_at(
                    old(self).statuses.statuses@,
                    PlayerStatusType::Trn,
                    i,
                ) && final(self).statuses.statuses@ == old(self).statuses.statuses@.remove(i),
            *final(self) == (Player {
                pending_pre_contract: final(self).pending_pre_contract,
                statuses: final(self).statuses,
                ..*old(self)
            }),
    {
        self.pending_pre_contract = None;
        self.statuses.remove(PlayerStatusType::Trn);
    }

    /// Puts the player on the market.
    pub fn enter_free_agent_market(&mut self, ctx: ReleaseContext)
        ensures
            final(self).market() == Some(MarketView::fresh(ctx)),
            final(self).same_but_market(*old(self)),
    {
        let state = FreeAgentMarketState {
            free_since: ctx.date,
            last_club_id: ctx.last_club_id,
            last_country_id: ctx.last_country_id,
            last_country_reputation: ctx.last_country_reputation,
            last_league_reputation: ctx.last_league_reputation,
            last_club_reputation_score: ctx.last_club_reputation_score,
            last_salary: ctx.last_salary,
            last_squad_status: ctx.last_squad_status,
            recent_offer_dates: Vec::new(),
            recent_rejected_offer_dates: Vec::new(),
            offers_rejected_total: 0,
            last_offer_date: None,
            last_block: None,
            failed_approach_streak: 0,
            last_streak_update: None,
        };
        assert(state@ =~= MarketView::fresh(ctx));
        self.free_agent_state = Some(state);
    }

    /// Puts a player on the market of whom only the nationality is known, as if he had been
    /// free for a month. One who is on it already stays as he is. The standing of his last
    /// club and his last salary are estimates that the caller makes.
    pub fn ensure_free_agent_state(
        &mut self,
        date: Date,
        nationality_country_reputation: u16,
        club_score: Measure,
        inferred_salary: u32,
    )
        requires
            crate::date::in_range(date.days - 30),
        ensures
            old(self).free_agent_state is Some ==> *final(self) == *old(self),
            old(self).free_agent_state is None ==> final(self).market() == Some(
                MarketView::fresh(
                    inferred_origin(
                        old(self).country_id,
                        date,
                        nationality_country_reputation,
                        club_score,
                        inferred_salary,
                    ),
                ),
            ),
            final(self).same_but_market(*old(self)),
    {
        if self.free_agent_state.is_some() {
            return;
        }
        let league: u16 = (nationality_country_reputation as u32 * 3 / 4) as u16;
        let ctx = ReleaseContext {
            date: Date { days: date.days - 30 },
            last_club_id: None,
            last_country_id: Some(self.country_id),
            last_country_reputation: nationality_country_reputation,
            last_league_reputation: league,
            last_club_reputation_score: club_score,
            last_salary: inferred_salary,
            last_squad_status: PlayerSquadStatus::FirstTeamSquadRotation,
        };
        self.enter_free_agent_market(ctx);
    }

    /// Records an offer.
    pub fn on_offer_received(&mut self, date: Date)
        ensures
            final(self).market() == match old(self).market() {
                Some(m) => Some(m.offered(date)),
                None => None,
            },
            final(self).same_but_market(*old(self)),
    {
        let ghost before = self.market();
        match self.free_agent_state.take() {
            Some(taken) => {
                let mut state = taken;
                let mut dates = prune(&state.recent_offer_dates, date);
                dates.push(date);
                state.recent_offer_dates = dates;
                state.last_offer_date = Some(date);
                state.failed_approach_streak = 0;
                state.last_streak_update = Some(date);
                assert(state@ =~= before->0.offered(date));
                self.free_agent_state = Some(state);
            },
            None => {},
        }
    }

    /// Records that the player refused an offer.
    pub fn on_offer_rejected(&mut self, date: Date)
        ensures
            final(self).market() == match old(self).market() {
                Some(m) => Some(m.refused(date)),
                None => None,
            },
            final(self).same_but_market(*old(self)),
    {
        let ghost before = self.market();
        match self.free_agent_state.take() {
            Some(taken) => {
                let mut state = taken;
                state.offers_rejected_total = state.offers_rejected_total.saturating_add(1);
                let mut dates = prune(&state.recent_rejected_offer_dates, date);
                dates.push(date);
                state.recent_rejected_offer_dates = dates;
                assert(state@ =~= before->0.refused(date));
                self.free_agent_state = Some(state);
            },
            None => {},
        }
    }

    /// Records why the player was passed over today. Of one day's reasons the one closest to a
    /// signing stays, and a day on which only chance stood in the way counts once.
    pub fn on_market_blocked(&mut self, date: Date, reason: FreeAgentBlockReason)
        ensures
            final(self).market() == match old(self).market() {
                Some(m) => Some(m.blocked(date, reason)),
                None => None,
            },
            final(self).same_but_market(*old(self)),
    {
        let ghost before = self.market();
        match self.free_agent_state.take() {
            Some(taken) => {
                let mut state = taken;
                let counted_today = match state.last_streak_update {
                    Some(d) => d == date,
                    None => false,
                };
                if matches!(reason, FreeAgentBlockReason::DailyChanceRollFailed) && !counted_today {
                    state.failed_approach_streak = state.failed_approach_streak.saturating_add(1);
                    state.last_streak_update = Some(date);
                }
                let keeps = match state.last_block {
                    Some((d, r)) => d == date && r.rank() >= reason.rank(),
                    None => false,
                };
                if !keeps {
                    state.last_block = Some((date, reason));
                }
                assert(state@ =~= before->0.blocked(date, reason));
                self.free_agent_state = Some(state);
            },
            None => {},
        }
    }

    /// Takes the player off the market.
    pub fn clear_free_agent_state(&mut self)
        ensures
            final(self).free_agent_state is None,
            final(self).same_but_market(*old(self)),
    {
        self.free_agent_state = None;
    }

    /// The pressure of waiting for a club, in thousandths. A player with a club feels none.
    pub fn career_pressure(&self, today: Date, age: u8) -> (r: u32)
        requires
            today.wf(),
            self.free_agent_state is Some ==> self.free_agent_state->0.free_since.wf(),
        ensures
            r == match self.market() {
                Some(m) => m.pressure(today, age, self.player_attributes.current_ability),
                None => 0,
            },
    {
        let state = match &self.free_agent_state {
            Some(s) => s,
            None => {
                return 0;
            },
        };
        let ability: u8 = self.player_attributes.current_ability;
        let refusals: i64 = state.offers_rejected_30d(today) as i64;
        let sting: i64 = if refusals >= 2 {
            200
        } else {
            100 * refusals
        };
        let by_age: i64 = if age < 22 {
            -100
        } else if age < 28 {
            0
        } else if age < 32 {
            80
        } else if age < 35 {
            180
        } else {
            300
        };
        let by_quality: i64 = if ability >= 140 {
            -150
        } else if ability >= 110 {
            -50
        } else if ability >= 80 {
            50
        } else {
            150
        };
        let offers: u8 = state.offers_received_30d(today);
        let by_interest: i64 = if offers == 0 {
            100
        } else if offers <= 2 {
            -50
        } else {
            -150
        };
        let silence: i64 = state.days_since_last_offer(today);
        let by_drought: i64 = if silence >= 180 {
            150
        } else if silence >= 90 {
            80
        } else {
            0
        };
        let windows: i64 = state.transfer_windows_missed(today) as i64;
        let raw: i64 = state.days_free(today) + 180 * windows + 40 * (
        state.offers_rejected_total as i64) + sting + by_age + by_quality + by_interest
            + by_drought;
        if raw < 0 {
            0
        } else if raw > 1000 {
            1000
        } else {
            raw as u32
        }
    }

    /// How far the player is along the way from choosy to desperate.
    pub fn market_stage(&self, today: Date) -> (r: Option<MarketStage>)
        ensures
            r == match self.market() {
                Some(m) => Some(stage_of(m.wait(today))),
                None => None,
            },
    {
        match &self.free_agent_state {
            Some(s) => Some(MarketStage::from_days_free(s.days_free(today))),
            None => None,
        }
    }

    /// Why the player is still without a club.
    pub fn market_explanation(&self, today: Date) -> (r: Option<FreeAgentStatusExplanation>)
        ensures
            match (self.market(), r) {
                (None, None) => true,
                (Some(m), Some(e)) => {
                    &&& e.days_free == m.wait(today)
                    &&& e.market_stage == stage_of(m.wait(today))
                    &&& e.offers_received_30d == month_count(m.recent_offer_dates, today)
                    &&& e.offers_rejected_total == m.offers_rejected_total
                    &&& e.last_block_reason == match m.last_block {
                        Some(b) => Some(b.1),
                        None => None,
                    }
                    &&& e.category == m.category()
                    &&& e.message@ == message_of(m.category())
                },
                _ => false,
            },
    {
        let state = match &self.free_agent_state {
            Some(s) => s,
            None => {
                return None;
            },
        };
        let days_free: i64 = state.days_free(today);
        let last_block_reason = match state.last_block {
            Some((_, r)) => Some(r),
            None => None,
        };
        let mut category = FreeAgentStatusCategory::from_block_reason(last_block_reason);
        if state.offers_rejected_total >= 2 && matches!(
            category,
            FreeAgentStatusCategory::LowInterest | FreeAgentStatusCategory::NoPositionNeed
        ) {
            category = FreeAgentStatusCategory::OffersRefused;
        }
        Some(
            FreeAgentStatusExplanation {
                days_free,
                market_stage: MarketStage::from_days_free(days_free),
                offers_received_30d: state.offers_received_30d(today),
                offers_rejected_total: state.offers_rejected_total,
                last_block_reason,
                category,
                message: category.default_message().to_owned(),
            },
        )
    }

    /// The reputation by which the player measures clubs.
    pub fn reference_reputation(&self, nationality_rep: u16) -> (r: u16)
        ensures
            r == reference(
                match self.free_agent_state {
                    Some(s) => Some((s.last_country_reputation, s.last_league_reputation)),
                    None => None,
                },
                nationality_rep,
            ),
    {
        let home: u32 = 6 * (nationality_rep as u32);
        let market: u32 = match &self.free_agent_state {
            Some(s) => 4 * (s.last_country_reputation as u32) + 6 * (
            s.last_league_reputation as u32),
            None => 0,
        };
        let best: u32 = if market > home {
            market
        } else {
            home
        };
        ((best + 5) / 10) as u16
    }
}

proof fn lemma_last_month_again(dates: Seq<Date>, today: Date)
    ensures
        last_month(last_month(dates, today), today) == last_month(dates, today),
    decreases dates.len(),
{
    reveal(Seq::filter);
    if dates.len() > 0 {
        lemma_last_month_again(dates.drop_last(), today);
        let rest = last_month(dates.drop_last(), today);
        if within_month(dates.last(), today) {
            lemma_last_month_push(rest, dates.last(), today);
        }
    }
}

proof fn lemma_last_month_push(dates: Seq<Date>, d: Date, today: Date)
    ensures
        last_month(dates.push(d), today) == if within_month(d, today) {
            last_month(dates, today).push(d)
        } else {
            last_month(dates, today)
        },
{
    reveal(Seq::filter);
    assert(dates.push(d).drop_last() =~= dates);
}

/// No two reasons share a rank.
pub proof fn lemma_rank_distinct(a: FreeAgentBlockReason, b: FreeAgentBlockReason)
    ensures
        rank_of(a) == rank_of(b) ==> a == b,
        0 <= rank_of(a) <= 13,
{
}

/// Of two reasons on one day the one closer to a signing stays, and which of them came first
/// makes no difference to anything.
pub proof fn lemma_closest_block_stays(
    m: MarketView,
    date: Date,
    a: FreeAgentBlockReason,
    b: FreeAgentBlockReason,
)
    ensures
        m.blocked(date, a).blocked(date, b) == m.blocked(date, b).blocked(date, a),
        rank_of((m.blocked(date, a).blocked(date, b).last_block->0).1) >= rank_of(a),
        rank_of((m.blocked(date, a).blocked(date, b).last_block->0).1) >= rank_of(b),
        (m.blocked(date, a).last_block->0).0 == date,
{
    lemma_rank_distinct(a, b);
    if m.last_block is Some {
        lemma_rank_distinct((m.last_block->0).1, a);
        lemma_rank_distinct((m.last_block->0).1, b);
    }
}

/// The streak of unlucky days grows by one a day at most, and an offer ends it for that day.
pub proof fn lemma_streak(
    m: MarketView,
    date: Date,
    a: FreeAgentBlockReason,
    b: FreeAgentBlockReason,
)
    ensures
        m.failed_approach_streak <= m.blocked(date, a).blocked(date, b).failed_approach_streak
            <= m.failed_approach_streak + 1,
        m.offered(date).failed_approach_streak == 0,
        m.offered(date).blocked(date, a).failed_approach_streak == 0,
{
}

/// An offer never raises the pressure of the day it comes.
pub proof fn lemma_offer_relieves(m: MarketView, date: Date, age: u8, ability: u8)
    requires
        m.last_offer_date is Some ==> m.last_offer_date->0.days <= date.days,
        m.origin.date.days <= date.days,
    ensures
        m.offered(date).pressure(date, age, ability) <= m.pressure(date, age, ability),
{
    lemma_last_month_again(m.recent_offer_dates, date);
    lemma_last_month_push(last_month(m.recent_offer_dates, date), date, date);
}

/// Refusing an offer never lowers the pressure of that day: saying no does not stop the clock.
pub proof fn lemma_refusal_stings(m: MarketView, date: Date, age: u8, ability: u8)
    ensures
        m.refused(date).pressure(date, age, ability) >= m.pressure(date, age, ability),
{
    lemma_last_month_again(m.recent_rejected_offer_dates, date);
    lemma_last_month_push(last_month(m.recent_rejected_offer_dates, date), date, date);
}

/// The pressure lies between 0 and 1000, and is no lower for an older or a lesser player.
pub proof fn lemma_pressure_shape(
    m: MarketView,
    today: Date,
    age: u8,
    older: u8,
    ability: u8,
    lesser: u8,
)
    requires
        age <= older,
        lesser <= ability,
    ensures
        0 <= m.pressure(today, age, ability) <= 1000,
        m.pressure(today, age, ability) <= m.pressure(today, older, lesser),
{
}

/// The offers of the last month only get fewer while none comes in.
proof fn lemma_month_empties(dates: Seq<Date>, today: Date, later: Date)
    requires
        today.days <= later.days,
    ensures
        last_month(dates, later).len() <= last_month(dates, today).len(),
    decreases dates.len(),
{
    reveal(Seq::filter);
    if dates.len() > 0 {
        lemma_month_empties(dates.drop_last(), today, later);
    }
}

/// Nobody who waits gets choosier: without new offers neither the pressure nor the stage ever
/// goes back, whatever the player was offered before. Only the sting of a refusal can wear off,
/// so it is left out where it does.
pub proof fn lemma_waiting_presses(
    m: MarketView,
    today: Date,
    later: Date,
    age: u8,
    older: u8,
    ability: u8,
)
    requires
        m.origin.date.wf(),
        today.wf(),
        later.wf(),
        today.days <= later.days,
        age <= older,
        m.recent_rejected_offer_dates.len() == 0 || rejection_sting(
            month_count(m.recent_rejected_offer_dates, today),
        ) == rejection_sting(month_count(m.recent_rejected_offer_dates, later)),
    ensures
        m.pressure(today, age, ability) <= m.pressure(later, older, ability),
        stage_rank(stage_of(m.wait(today))) <= stage_rank(stage_of(m.wait(later))),
        drought_pressure(m.silence(today)) <= drought_pressure(m.silence(later)),
{
    let from = m.origin.date.days as int;
    if from <= today.days {
        lemma_windows_add_up(from, today.days as int, later.days as int);
        lemma_windows_add_up(today.days as int, later.days as int, later.days as int);
    } else if from <= later.days {
        lemma_windows_add_up(from, later.days as int, later.days as int);
    }
    lemma_month_empties(m.recent_offer_dates, today, later);
    lemma_month_empties(m.recent_rejected_offer_dates, today, later);
    if m.recent_rejected_offer_dates.len() == 0 {
        reveal(Seq::filter);
    }
    assert(interest_pressure(month_count(m.recent_offer_dates, today)) <= interest_pressure(
        month_count(m.recent_offer_dates, later),
    ));
}

/// The place of a stage on the way from choosy to desperate.
pub open spec fn stage_rank(s: MarketStage) -> int {
    match s {
        MarketStage::Fresh => 0,
        MarketStage::Open => 1,
        MarketStage::Flexible => 2,
        MarketStage::Desperate => 3,
        MarketStage::LastChance => 4,
    }
}

/// The reference reputation is never below that of the player's home country, and grows with
/// each reputation behind it.
pub proof fn lemma_reference_grows(
    c: u16,
    l: u16,
    n: u16,
    c2: u16,
    l2: u16,
    n2: u16,
)
    requires
        c <= c2,
        l <= l2,
        n <= n2,
    ensures
        reference(Some((c, l)), n) <= reference(Some((c2, l2)), n2),
        reference(None, n) <= reference(Some((c, l)), n),
{
}

/// Whether a pressure is cut off at neither end of its scale.
pub open spec fn on_the_scale(pressure: int) -> bool {
    0 < pressure < 1000
}

/// What age adds to the pressure of one and the same situation: against a player from 22 to 27,
/// 80 from 28 on, 180 from 32 on and 300 from 35 on, and 100 less below 22.
pub proof fn lemma_age_presses(m: MarketView, today: Date, prime: u8, age: u8, ability: u8)
    requires
        22 <= prime <= 27,
        on_the_scale(m.pressure(today, prime, ability)),
        on_the_scale(m.pressure(today, age, ability)),
    ensures
        ({
            let more = m.pressure(today, age, ability) - m.pressure(today, prime, ability);
            &&& age < 22 ==> more == -100
            &&& 22 <= age <= 27 ==> more == 0
            &&& 28 <= age <= 31 ==> more == 80
            &&& 32 <= age <= 34 ==> more == 180
            &&& 35 <= age ==> more == 300
        }),
{
}

/// What ability takes off the pressure of one and the same situation: against a player of 140 or
/// more, one of 110 or more is under 100 more, one of 80 or more under 200 more, and a lesser one
/// under 300 more.
pub proof fn lemma_ability_relieves(m: MarketView, today: Date, age: u8, star: u8, ability: u8)
    requires
        140 <= star,
        on_the_scale(m.pressure(today, age, star)),
        on_the_scale(m.pressure(today, age, ability)),
    ensures
        ({
            let more = m.pressure(today, age, ability) - m.pressure(today, age, star);
            &&& 140 <= ability ==> more == 0
            &&& 110 <= ability < 140 ==> more == 100
            &&& 80 <= ability < 110 ==> more == 200
            &&& ability < 80 ==> more == 300
        }),
{
}

/// What time adds to the pressure while nothing is offered or refused: one thousandth a day, 180
/// for every window that closes, and for the silence 80 from the ninetieth day on and 150 from the
/// hundred and eightieth.
pub proof fn lemma_time_presses(m: MarketView, today: Date, later: Date, age: u8, ability: u8)
    requires
        m.origin.date.wf(),
        today.wf(),
        later.wf(),
        m.origin.date.days <= today.days <= later.days,
        m.recent_offer_dates.len() == 0,
        m.recent_rejected_offer_dates.len() == 0,
        m.last_offer_date is None,
        windows_between(m.origin.date.days as int, later.days as int) <= 255,
        on_the_scale(m.pressure(today, age, ability)),
        on_the_scale(m.pressure(later, age, ability)),
    ensures
        ({
            let more = m.pressure(later, age, ability) - m.pressure(today, age, ability);
            let since = today.days - m.origin.date.days;
            let until = later.days - m.origin.date.days;
            let passed = (until - since) + 180 * windows_between(
                today.days as int,
                later.days as int,
            );
            &&& since < 90 && until < 90 ==> more == passed
            &&& since < 90 && 90 <= until < 180 ==> more == passed + 80
            &&& since < 90 && 180 <= until ==> more == passed + 150
            &&& 90 <= since && until < 180 ==> more == passed
            &&& 90 <= since < 180 && 180 <= until ==> more == passed + 70
            &&& 180 <= since ==> more == passed
        }),
{
    lemma_windows_add_up(
        m.origin.date.days as int,
        today.days as int,
        later.days as int,
    );
    lemma_windows_add_up(today.days as int, later.days as int, later.days as int);
    reveal(Seq::filter);
}

/// What the market's answers do to the pressure of a day, with all else the same: one or two
/// offers in the last month take 150 off, three or more 250; every refusal ever adds 40, one in
/// the last month adds 100 and two or more 200.
pub proof fn lemma_answers_press(m: MarketView, n: MarketView, today: Date, age: u8, ability: u8)
    requires
        m.origin == n.origin,
        m.last_offer_date == n.last_offer_date,
        on_the_scale(m.pressure(today, age, ability)),
        on_the_scale(n.pressure(today, age, ability)),
    ensures
        ({
            let more = n.pressure(today, age, ability) - m.pressure(today, age, ability);
            let offers = month_count(n.recent_offer_dates, today);
            let refusals = month_count(n.recent_rejected_offer_dates, today);
            let same_offers = m.recent_offer_dates == n.recent_offer_dates;
            let same_refusals = m.recent_rejected_offer_dates == n.recent_rejected_offer_dates;
            let same_total = m.offers_rejected_total == n.offers_rejected_total;
            &&& same_refusals && same_total && month_count(m.recent_offer_dates, today) == 0 ==> {
                &&& offers == 0 ==> more == 0
                &&& 1 <= offers <= 2 ==> more == -150
                &&& 3 <= offers ==> more == -250
            }
            &&& same_offers && same_total && month_count(m.recent_rejected_offer_dates, today) == 0
                ==> {
                &&& refusals == 0 ==> more == 0
                &&& refusals == 1 ==> more == 100
                &&& refusals >= 2 ==> more == 200
            }
            &&& same_offers && same_refusals ==> more == 40 * (n.offers_rejected_total
                - m.offers_rejected_total)
        }),
{
}

/// A good player in his best years who was released today and has had no offer yet is under a
/// pressure of 50 thousandths: he can still be choosy.
pub proof fn lemma_fresh_pressure(origin: ReleaseContext, age: u8, ability: u8)
    requires
        22 <= age <= 27,
        110 <= ability < 140,
    ensures
        MarketView::fresh(origin).pressure(origin.date, age, ability) == 50,
{
    reveal(Seq::filter);
}

/// How days are counted: a day counts for the thirty days that follow it, each one once, up to
/// 255 of them.
pub proof fn lemma_days_are_counted(dates: Seq<Date>, d: Date, today: Date)
    ensures
        month_count(Seq::empty(), today) == 0,
        today.days - d.days <= 30 && month_count(dates, today) < 255 ==> month_count(
            dates.push(d),
            today,
        ) == month_count(dates, today) + 1,
        today.days - d.days > 30 ==> month_count(dates.push(d), today) == month_count(dates, today),
        0 <= month_count(dates, today) <= 255,
{
    reveal(Seq::filter);
    lemma_last_month_push(dates, d, today);
}

/// What an offer and a refusal leave behind. An offer ends the silence and counts as one more of
/// the month; a refusal counts as one more of the month and of all. Neither touches the other's
/// log, nor where the player came from.
pub proof fn lemma_what_offers_leave(m: MarketView, date: Date)
    ensures
        m.offered(date).silence(date) == 0,
        m.offered(date).last_offer_date == Some(date),
        month_count(m.recent_offer_dates, date) < 255 ==> month_count(
            m.offered(date).recent_offer_dates,
            date,
        ) == month_count(m.recent_offer_dates, date) + 1,
        m.offered(date).recent_rejected_offer_dates == m.recent_rejected_offer_dates,
        m.offered(date).offers_rejected_total == m.offers_rejected_total,
        m.offered(date).origin == m.origin,
        m.offered(date).last_block == m.last_block,
        m.offers_rejected_total < u16::MAX ==> m.refused(date).offers_rejected_total
            == m.offers_rejected_total + 1,
        m.refused(date).offers_rejected_total >= m.offers_rejected_total,
        month_count(m.recent_rejected_offer_dates, date) < 255 ==> month_count(
            m.refused(date).recent_rejected_offer_dates,
            date,
        ) == month_count(m.recent_rejected_offer_dates, date) + 1,
        m.refused(date).recent_offer_dates == m.recent_offer_dates,
        m.refused(date).last_offer_date == m.last_offer_date,
        m.refused(date).origin == m.origin,
        m.refused(date).failed_approach_streak == m.failed_approach_streak,
{
    lemma_last_month_again(m.recent_offer_dates, date);
    lemma_last_month_push(last_month(m.recent_offer_dates, date), date, date);
    lemma_last_month_again(m.recent_rejected_offer_dates, date);
    lemma_last_month_push(last_month(m.recent_rejected_offer_dates, date), date, date);
}

/// What it leaves behind to be passed over: the reason, of a day on which nothing closer to a
/// signing was noted, and an unlucky day only for a lost roll on a day that was not counted yet.
pub proof fn lemma_what_a_block_leaves(m: MarketView, date: Date, reason: FreeAgentBlockReason)
    ensures
        ({
            let n = m.blocked(date, reason);
            let noted = m.last_block is Some && (m.last_block->0).0 == date;
            &&& n.last_block is Some && (n.last_block->0).0 == date
            &&& !noted ==> (n.last_block->0).1 == reason
            &&& noted ==> (n.last_block->0).1 == reason || n.last_block == m.last_block
            &&& noted && rank_of(reason) > rank_of((m.last_block->0).1) ==> (n.last_block->0).1
                == reason
            &&& noted && rank_of(reason) < rank_of((m.last_block->0).1) ==> n.last_block
                == m.last_block
            &&& reason is DailyChanceRollFailed && m.last_streak_update != Some(date)
                && m.failed_approach_streak < 255 ==> n.failed_approach_streak
                == m.failed_approach_streak + 1
            &&& !(reason is DailyChanceRollFailed) || m.last_streak_update == Some(date)
                ==> n.failed_approach_streak == m.failed_approach_streak
            &&& n.recent_offer_dates == m.recent_offer_dates && n.offers_rejected_total
                == m.offers_rejected_total && n.origin == m.origin
        }),
{
}

/// The way to a signing: data, demand, position, availability, ability, reputation, room, luck,
/// wage and, last, the player's own word.
pub proof fn lemma_way_to_a_signing()
    ensures
        rank_of(FreeAgentBlockReason::UnknownNationality) < rank_of(
            FreeAgentBlockReason::NoMatchingRequest,
        ) < rank_of(FreeAgentBlockReason::PositionMismatch) < rank_of(
            FreeAgentBlockReason::AlreadySignedOrStaged,
        ) < rank_of(FreeAgentBlockReason::BelowMinimumAbility) < rank_of(
            FreeAgentBlockReason::AboveMaximumAbility,
        ) < rank_of(FreeAgentBlockReason::CountryReputationGap) < rank_of(
            FreeAgentBlockReason::CrossContinentPressureTooLow,
        ) < rank_of(FreeAgentBlockReason::RegionPrestigeGap) < rank_of(
            FreeAgentBlockReason::ClubAtSquadCapacity,
        ) < rank_of(FreeAgentBlockReason::PerDaySigningCapReached) < rank_of(
            FreeAgentBlockReason::DailyChanceRollFailed,
        ) < rank_of(FreeAgentBlockReason::WageReservationMismatch) < rank_of(
            FreeAgentBlockReason::AcceptanceRollFailed,
        ),
{
}

/// How long the stages last: a month fresh, two more open, another three flexible, desperate to
/// the end of a year, and then the last chance.
pub proof fn lemma_stages(days: int)
    ensures
        stage_of(days) is Fresh <==> days < 30,
        stage_of(days) is Fresh || stage_of(days) is Open <==> days < 90,
        stage_of(days) is Desperate || stage_of(days) is LastChance <==> days >= 180,
        stage_of(days) is LastChance <==> days >= 365,
{
}

/// What keeps a player without a club, in broad terms: what is said of him comes from the reason
/// alone, and each thing is said for its own reasons. Who refused two offers or more is never
/// said to be wanted by nobody.
pub proof fn lemma_what_is_said(m: MarketView, r: FreeAgentBlockReason)
    ensures
        category_of(Some(r)) is DataUnknown <==> r is UnknownNationality,
        category_of(Some(r)) is NoPositionNeed <==> r is NoMatchingRequest || r is PositionMismatch,
        category_of(Some(r)) is WageTooHigh <==> r is WageReservationMismatch,
        category_of(Some(r)) is ReputationWait <==> r is CountryReputationGap
            || r is RegionPrestigeGap || r is CrossContinentPressureTooLow
            || r is AboveMaximumAbility,
        category_of(Some(r)) is OffersRefused <==> r is AcceptanceRollFailed,
        category_of(Some(r)) is InterestBuilding <==> r is DailyChanceRollFailed
            || r is AlreadySignedOrStaged,
        category_of(None) is LowInterest,
        m.last_block is Some && m.offers_rejected_total < 2 ==> m.category() == category_of(
            Some((m.last_block->0).1),
        ),
        m.last_block is None && m.offers_rejected_total < 2 ==> m.category() is LowInterest,
        m.offers_rejected_total >= 2 ==> !(m.category() is LowInterest) && !(m.category()
            is NoPositionNeed),
        m.offers_rejected_total >= 2 && m.last_block is None ==> m.category() is OffersRefused,
        m.offers_rejected_total >= 2 && m.last_block is Some && !(category_of(
            Some((m.last_block->0).1),
        ) is LowInterest) && !(category_of(Some((m.last_block->0).1)) is NoPositionNeed)
            ==> m.category() == category_of(Some((m.last_block->0).1)),
{
}

/// How a reference reputation comes about: the better of home and last market counts alone, home
/// with six tenths, the market with four tenths of its country and six of its league, rounded to
/// the nearest number.
pub proof fn lemma_reference_reputation(c: u16, l: u16, n: u16)
    ensures
        reference(Some((c, l)), n) == if reference(None, n) >= reference(Some((c, l)), 0) {
            reference(None, n)
        } else {
            reference(Some((c, l)), 0)
        },
        -5 <= 10 * reference(None, n) - 6 * n <= 5,
        -5 <= 10 * reference(Some((c, l)), 0) - (4 * c + 6 * l) <= 5,
{
}

/// The wait runs from the release, the silence from the last offer or else from the release, day
/// by day.
pub proof fn lemma_the_clock_runs(m: MarketView, today: Date)
    ensures
        m.origin.date.days <= today.days ==> m.wait(today) == today.days - m.origin.date.days,
        m.origin.date.days > today.days ==> m.wait(today) == 0,
        m.last_offer_date is None ==> m.silence(today) == m.wait(today),
        m.last_offer_date is Some && m.last_offer_date->0.days <= today.days ==> m.silence(today)
            == today.days - m.last_offer_date->0.days,
{
}

/// The state of a free agent counts the days as his situation does.
pub proof fn lemma_state_and_situation(s: FreeAgentMarketState, today: Date)
    ensures
        s.silence(today) == s@.silence(today),
        s.wait(today) == s@.wait(today),
{
}

/// What is taken of a free agent of unknown past: that he has been free for thirty days, belonged to
/// no club, comes from his own country, from a league of three quarters of its reputation, and was
/// one of a squad's rotation. So he is not fresh on the market.
pub proof fn lemma_unknown_past(
    country_id: u32,
    date: Date,
    reputation: u16,
    club_score: Measure,
    salary: u32,
)
    requires
        crate::date::in_range(date.days - 30),
    ensures
        ({
            let o = inferred_origin(country_id, date, reputation, club_score, salary);
            &&& date.days - o.date.days == 30
            &&& o.last_club_id is None && o.last_country_id == Some(country_id)
            &&& o.last_country_reputation == reputation
            &&& 3 * reputation - 4 < 4 * o.last_league_reputation <= 3 * reputation
            &&& o.last_club_reputation_score == club_score && o.last_salary == salary
            &&& o.last_squad_status is FirstTeamSquadRotation
            &&& !(stage_of(MarketView::fresh(o).wait(date)) is Fresh)
        }),
{
}

} // verus!
