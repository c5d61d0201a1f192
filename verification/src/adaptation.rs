//! How a player takes to a new club: how far he stands above or below his
//! surroundings, how long a move dampens his ratings, and what helps or hinders
//! him while he settles.

use crate::date::Date;
use crate::happiness::HappinessEventType;
use crate::language::Language;
use crate::measure::Measure;
use crate::player::{Player, PositionSlot};
#[allow(unused_imports)]
use vstd::prelude::*;

verus! {

/// How far a player stands above his surroundings; negative where he stands below them.
#[derive(Clone, Copy, Debug, PartialEq, Eq, Structural)]
pub struct ReputationGap {
    pub player_vs_club: i32,
    pub player_vs_league: i32,
    pub ability_vs_tier: i32,
}

/// The ability that a league asks for: a hundredth of its reputation, from 20 to 200.
pub open spec fn expected_tier(league_reputation: int) -> int {
    if league_reputation / 100 < 20 {
        20
    } else if league_reputation / 100 > 200 {
        200
    } else {
        league_reputation / 100
    }
}

impl ReputationGap {
    /// Whether the player is clearly above his club or his league.
    pub open spec fn above(self) -> bool {
        self.player_vs_club >= 3000 || self.player_vs_league >= 3000
    }

    /// Whether the player is clearly below his club or his league.
    pub open spec fn below(self) -> bool {
        self.player_vs_club <= -3000 || self.player_vs_league <= -3000
    }

    /// Measures the player against a club and a league. Reputations run from 0 to 10000.
    pub fn compute(player: &Player, club_reputation: u16, league_reputation: u16) -> (r: Self)
        ensures
            r.player_vs_club == player.player_attributes.world_reputation - club_reputation,
            r.player_vs_league == player.player_attributes.world_reputation - league_reputation,
            r.ability_vs_tier == player.player_attributes.current_ability - expected_tier(
                league_reputation as int,
            ),
    {
        let reputation: i32 = player.player_attributes.world_reputation as i32;
        let share: i32 = (league_reputation / 100) as i32;
        let tier: i32 = if share < 20 {
            20
        } else if share > 200 {
            200
        } else {
            share
        };
        ReputationGap {
            player_vs_club: reputation - club_reputation as i32,
            player_vs_league: reputation - league_reputation as i32,
            ability_vs_tier: player.player_attributes.current_ability as i32 - tier,
        }
    }

    /// Whether the player is clearly above where he plays.
    pub fn is_outlier_above(&self) -> (r: bool)
        ensures
            r == self.above(),
    {
        self.player_vs_club >= 3000 || self.player_vs_league >= 3000
    }

    /// Whether the player is clearly below where he plays.
    pub fn is_outlier_below(&self) -> (r: bool)
        ensures
            r == self.below(),
    {
        self.player_vs_club <= -3000 || self.player_vs_league <= -3000
    }
}

/// A player can only be both clearly above and clearly below his surroundings where club and
/// league are far apart.
pub proof fn lemma_outliers_disagree(gap: ReputationGap)
    requires
        gap.above(),
        gap.below(),
    ensures
        gap.player_vs_club - gap.player_vs_league >= 6000 || gap.player_vs_league
            - gap.player_vs_club >= 6000,
{
}

/// The squad around a player who settles, as far as whole numbers tell it.
#[derive(Clone, Copy, Debug, PartialEq, Eq, Structural)]
pub struct AdaptationSquadContext {
    /// Teammates he can talk with.
    pub same_language_teammates: u8,
    pub same_nationality_teammates: u8,
    /// Whether his mentor is a good one, where he has a mentor.
    pub mentor_quality: Option<bool>,
    pub squad_chemistry: Measure,
    pub manager_relation_level: Measure,
    pub is_loan: bool,
    pub is_favorite_club: bool,
}

impl AdaptationSquadContext {
    /// A squad of which nothing is known.
    pub open spec fn unknown() -> AdaptationSquadContext {
        AdaptationSquadContext {
            same_language_teammates: 0,
            same_nationality_teammates: 0,
            mentor_quality: None,
            squad_chemistry: Measure::of_halves(0),
            manager_relation_level: Measure::of_halves(0),
            is_loan: false,
            is_favorite_club: false,
        }
    }
}

impl Default for AdaptationSquadContext {
    /// A squad of which nothing is known.
    fn default() -> (r: Self)
        ensures
            r == AdaptationSquadContext::unknown(),
    {
        AdaptationSquadContext {
            same_language_teammates: 0,
            same_nationality_teammates: 0,
            mentor_quality: None,
            squad_chemistry: Measure::halves(0),
            manager_relation_level: Measure::halves(0),
            is_loan: false,
            is_favorite_club: false,
        }
    }
}

/// How long a move dampens the ratings, in days.
pub const SETTLEMENT_WINDOW_DAYS: i64 = 84;

/// Why a rating is not dampened.
#[derive(Clone, Copy, Debug, PartialEq, Eq, Structural)]
pub enum SettlementBypassReason {
    /// A bad day is a bad day.
    BelowBaseline,
    NoRecentTransfer,
    PastSettlementWindow,
    /// The player is too good to be thrown by a move.
    EliteReputation,
    /// The player has shown on the pitch that he settled.
    EnoughAppearances,
}

/// How long a player has been at his club.
#[derive(Clone, Copy, Debug, PartialEq, Eq, Structural)]
pub enum Tenure {
    Days(i64),
    Years(i64),
}

/// The age of a typical debut.
pub const DEBUT_AGE: u8 = 17;

/// How a formation has room for a player.
#[derive(Clone, Copy, Debug, PartialEq, Eq, Structural)]
pub enum RoleFit {
    /// His own position.
    Natural,
    /// Another position in his part of the pitch.
    SameGroup,
    Nowhere,
}

/// How the formation has room for a player of this position.
pub open spec fn role_fit(position: PositionSlot, formation: Seq<PositionSlot>) -> RoleFit {
    if exists|i: int|
        0 <= i < formation.len() && (#[trigger] formation[i]).position == position.position {
        RoleFit::Natural
    } else if exists|i: int|
        0 <= i < formation.len() && (#[trigger] formation[i]).group == position.group {
        RoleFit::SameGroup
    } else {
        RoleFit::Nowhere
    }
}

/// The points for knowing the language of the country: 15 for fluency, 7 for conversation, ten
/// off for not a word of it. A country that is not known counts nothing.
pub open spec fn language_points(
    languages: Seq<crate::language::PlayerLanguage>,
    code: Seq<char>,
) -> int {
    if code.len() == 0 {
        0
    } else if crate::player::speaks_local(languages, code) {
        15
    } else if knows_local(languages, code, 40) {
        7
    } else if knows_local(languages, code, 1) {
        0
    } else {
        -10
    }
}

/// Whether a language of the country is known with at least this proficiency.
pub open spec fn knows_local(
    languages: Seq<crate::language::PlayerLanguage>,
    code: Seq<char>,
    proficiency: int,
) -> bool {
    exists|i: int|
        0 <= i < languages.len() && (#[trigger] languages[i]).proficiency >= proficiency
            && crate::language::country_languages(code).contains(languages[i].language)
}

/// The part of the adaptation score that whole numbers make up.
#[derive(Clone, Copy, Debug, PartialEq, Eq, Structural)]
pub struct AdaptationTally {
    /// The days at the club that count, up to the settlement window.
    pub days: i64,
    pub language: i32,
    pub role: i32,
    pub mentor: i32,
    pub language_buddies: i32,
    pub compatriots: i32,
    pub appearances: i32,
    pub step_up: i32,
    pub shock: i32,
    /// Whether the score ends at 85.
    pub capped: bool,
}

/// The lesser of two numbers.
pub open spec fn lesser(a: int, b: int) -> int {
    if a <= b {
        a
    } else {
        b
    }
}

impl AdaptationTally {
    /// The points, without those for the time at the club.
    pub open spec fn points(self) -> int {
        self.language + self.role + self.mentor + self.language_buddies + self.compatriots
            + self.appearances + self.step_up + self.shock
    }
}

/// The days at the club that count towards settling in.
pub open spec fn settled_days(p: Player, now: Date) -> int {
    match p.last_transfer_date {
        Some(d) => if now.days - d.days < 0 {
            0
        } else {
            lesser(now.days - d.days, 84)
        },
        None => 84,
    }
}

/// The days that a player still needs to settle: none without a known move, before its day and
/// after the window.
pub open spec fn days_to_settle(p: Player, now: Date) -> int {
    match p.last_transfer_date {
        Some(d) => if 0 <= now.days - d.days < SETTLEMENT_WINDOW_DAYS {
            SETTLEMENT_WINDOW_DAYS - (now.days - d.days)
        } else {
            0
        },
        None => 0,
    }
}

/// How long a player has been at his club: since his last move, where he made one; else since a
/// typical debut, where his whole career was spent there.
pub open spec fn tenure(p: Player, now: Date, age: u8, only_ever_here: bool) -> Tenure {
    match p.last_transfer_date {
        Some(d) => Tenure::Days(
            if now.days < d.days {
                0
            } else {
                (now.days - d.days) as i64
            },
        ),
        None => if only_ever_here && age > DEBUT_AGE {
            Tenure::Years((age - DEBUT_AGE) as i64)
        } else {
            Tenure::Years(0)
        },
    }
}

/// The points for a role.
pub open spec fn role_points(fit: RoleFit) -> int {
    match fit {
        RoleFit::Natural => 10,
        RoleFit::SameGroup => 4,
        RoleFit::Nowhere => -12,
    }
}

/// Whether pay or standing hurt the player within the last 60 days.
pub open spec fn recently_shocked(p: Player) -> bool {
    crate::happiness::recent(p.happiness@, HappinessEventType::SalaryShock, 60)
        || crate::happiness::recent(p.happiness@, HappinessEventType::AmbitionShock, 60)
}

/// The whole-number part of the adaptation score.
pub open spec fn adaptation_tally(
    p: Player,
    now: Date,
    code: Seq<char>,
    formation: Option<Seq<PositionSlot>>,
    squad: AdaptationSquadContext,
    is_step_up: bool,
) -> AdaptationTally {
    AdaptationTally {
        days: settled_days(p, now) as i64,
        language: language_points(p.languages@, code) as i32,
        role: match formation {
            Some(f) => role_points(role_fit(p.position, f)) as i32,
            None => 0,
        },
        mentor: match squad.mentor_quality {
            Some(true) => 8,
            Some(false) => -8i32,
            None => 0,
        },
        language_buddies: if squad.same_language_teammates == 0 {
            0
        } else if squad.same_language_teammates == 1 {
            4
        } else {
            7
        },
        compatriots: if squad.same_nationality_teammates >= 1 {
            3
        } else {
            0
        },
        appearances: (2 * lesser(p.appearances(), 5) + 2 * lesser(
            p.statistics.played as int,
            5,
        )) as i32,
        step_up: if is_step_up {
            5
        } else {
            0
        },
        shock: if recently_shocked(p) {
            -8i32
        } else {
            0
        },
        capped: squad.is_loan && !squad.is_favorite_club && !crate::player::speaks_local(
            p.languages@,
            code,
        ),
    }
}

/// Whether a move does not throw a player of this standing.
pub open spec fn elite_bypass(p: Player, code: Seq<char>) -> bool {
    ||| p.player_attributes.world_reputation >= 8500 && p.player_attributes.current_ability >= 170
    ||| crate::player::speaks_local(p.languages@, code) && p.attributes.adaptability.ge(16)
        && p.player_attributes.current_ability >= 150 && p.player_attributes.international_apps
        >= 20
}

/// Why a rating is not dampened, where it is not.
pub open spec fn settlement_bypass(
    p: Player,
    raw_rating: Measure,
    now: Date,
    code: Seq<char>,
) -> Option<SettlementBypassReason> {
    if raw_rating.le(6) {
        Some(SettlementBypassReason::BelowBaseline)
    } else if p.last_transfer_date is None {
        Some(SettlementBypassReason::NoRecentTransfer)
    } else if now.days - p.last_transfer_date->0.days >= SETTLEMENT_WINDOW_DAYS {
        Some(SettlementBypassReason::PastSettlementWindow)
    } else if elite_bypass(p, code) {
        Some(SettlementBypassReason::EliteReputation)
    } else if 2 * p.statistics.played + p.statistics.played_subs >= 16 {
        Some(SettlementBypassReason::EnoughAppearances)
    } else {
        None
    }
}

/// A stretch of adaptation scores, twenty wide, over which the multiplier of a rating rises
/// evenly.
#[derive(Clone, Copy, Debug, PartialEq, Eq, Structural)]
pub struct SettlementBand {
    /// The score at which the stretch begins.
    pub from: i32,
    /// The multiplier there, in hundredths.
    pub floor: i32,
    /// How much it rises over the stretch, in hundredths.
    pub rise: i32,
}

/// The stretch that begins at the given score.
pub open spec fn band_from(from: int) -> SettlementBand {
    if from == 80 {
        SettlementBand { from: 80, floor: 98, rise: 2 }
    } else if from == 60 {
        SettlementBand { from: 60, floor: 94, rise: 4 }
    } else if from == 40 {
        SettlementBand { from: 40, floor: 88, rise: 6 }
    } else if from == 20 {
        SettlementBand { from: 20, floor: 82, rise: 6 }
    } else {
        SettlementBand { from: 0, floor: 78, rise: 4 }
    }
}

/// The stretch that holds an adaptation score.
pub open spec fn settlement_band_of(score: Measure) -> SettlementBand {
    if score.ge(80) {
        band_from(80)
    } else if score.ge(60) {
        band_from(60)
    } else if score.ge(40) {
        band_from(40)
    } else if score.ge(20) {
        band_from(20)
    } else {
        band_from(0)
    }
}

/// The stretch of the multiplier that an adaptation score falls in.
pub fn settlement_band(score: Measure) -> (r: SettlementBand)
    ensures
        r == settlement_band_of(score),
{
    if score.is_at_least(80) {
        SettlementBand { from: 80, floor: 98, rise: 2 }
    } else if score.is_at_least(60) {
        SettlementBand { from: 60, floor: 94, rise: 4 }
    } else if score.is_at_least(40) {
        SettlementBand { from: 40, floor: 88, rise: 6 }
    } else if score.is_at_least(20) {
        SettlementBand { from: 20, floor: 82, rise: 6 }
    } else {
        SettlementBand { from: 0, floor: 78, rise: 4 }
    }
}

/// What a dream move adds to the multiplier of a player with this adaptation score, in
/// hundredths: two once he is settled, at a score of 80.
pub open spec fn lift_of(score: Measure, is_dream_move: bool) -> int {
    if is_dream_move && score.ge(80) {
        2
    } else {
        0
    }
}

/// What a dream move adds to the multiplier of a player with this adaptation score, in
/// hundredths.
pub fn dream_lift(score: Measure, is_dream_move: bool) -> (r: i32)
    ensures
        r == lift_of(score, is_dream_move),
{
    if is_dream_move && score.is_at_least(80) {
        2
    } else {
        0
    }
}

/// The stretches join up: each ends where the next begins, so a better settled player is never
/// dampened more. The multiplier runs from 0.78 to 1.00.
pub proof fn lemma_bands_join(from: int)
    requires
        from == 0 || from == 20 || from == 40 || from == 60,
    ensures
        band_from(from).from == from,
        band_from(from).rise > 0,
        band_from(from).floor + band_from(from).rise == band_from(from + 20).floor,
        band_from(0).floor == 78,
        band_from(80).floor + band_from(80).rise == 100,
{
}

/// How the formation has room for a player of this position.
pub fn fit_in(position: PositionSlot, formation: &[PositionSlot]) -> (r: RoleFit)
    ensures
        r == role_fit(position, formation@),
{
    let mut same_group = false;
    let mut i: usize = 0;
    while i < formation.len()
        invariant
            i <= formation@.len(),
            forall|j: int|
                0 <= j < i ==> (#[trigger] formation@[j]).position != position.position,
            same_group ==> exists|j: int|
                0 <= j < formation@.len() && (#[trigger] formation@[j]).group == position.group,
            !same_group ==> forall|j: int|
                0 <= j < i ==> (#[trigger] formation@[j]).group != position.group,
        decreases formation@.len() - i,
    {
        let slot = formation[i];
        if slot.position == position.position {
            assert(formation@[i as int].position == position.position);
            return RoleFit::Natural;
        }
        if slot.group == position.group {
            assert(formation@[i as int].group == position.group);
            same_group = true;
        }
        i = i + 1;
    }
    if same_group {
        RoleFit::SameGroup
    } else {
        RoleFit::Nowhere
    }
}

impl Player {
    /// Whether a language of the country is known with at least this proficiency.
    fn knows_local_language(&self, country_code: &str, proficiency: u8) -> (r: bool)
        ensures
            r == knows_local(self.languages@, country_code@, proficiency as int),
    {
        let local = Language::from_country_code(country_code);
        let mut i: usize = 0;
        while i < self.languages.len()
            invariant
                i <= self.languages@.len(),
                local@ == crate::language::country_languages(country_code@),
                forall|j: int|
                    0 <= j < i ==> !((#[trigger] self.languages@[j]).proficiency >= proficiency
                        && local@.contains(self.languages@[j].language)),
            decreases self.languages@.len() - i,
        {
            let l = self.languages[i];
            if l.proficiency >= proficiency && holds_language(&local, l.language) {
                assert(self.languages@[i as int].proficiency >= proficiency);
                return true;
            }
            i = i + 1;
        }
        false
    }

    /// The points for knowing the language of the country.
    fn points_for_language(&self, country_code: &str) -> (r: i32)
        ensures
            r == language_points(self.languages@, country_code@),
    {
        if country_code.unicode_len() == 0 {
            0
        } else if self.speaks_local_language(country_code) {
            15
        } else if self.knows_local_language(country_code, 40) {
            7
        } else if self.knows_local_language(country_code, 1) {
            0
        } else {
            -10
        }
    }

    /// The whole-number part of the adaptation score. `is_step_up` says whether the club is
    /// more than the player's ambition asked for.
    pub fn adaptation_tally(
        &self,
        now: Date,
        country_code: &str,
        formation: Option<&[PositionSlot]>,
        squad: &AdaptationSquadContext,
        is_step_up: bool,
    ) -> (r: AdaptationTally)
        requires
            self.statistics.played + self.statistics.played_subs <= u16::MAX,
        ensures
            r == adaptation_tally(
                *self,
                now,
                country_code@,
                match formation {
                    Some(f) => Some(f@),
                    None => None,
                },
                *squad,
                is_step_up,
            ),
    {
        let days: i64 = match self.days_since_transfer(now) {
            Some(d) => if d < 0 {
                0
            } else if d < SETTLEMENT_WINDOW_DAYS {
                d
            } else {
                SETTLEMENT_WINDOW_DAYS
            },
            None => SETTLEMENT_WINDOW_DAYS,
        };
        let role: i32 = match formation {
            Some(f) => match fit_in(self.position, f) {
                RoleFit::Natural => 10,
                RoleFit::SameGroup => 4,
                RoleFit::Nowhere => -12,
            },
            None => 0,
        };
        let mentor: i32 = match squad.mentor_quality {
            Some(true) => 8,
            Some(false) => -8,
            None => 0,
        };
        let language_buddies: i32 = match squad.same_language_teammates {
            0 => 0,
            1 => 4,
            _ => 7,
        };
        let compatriots: i32 = if squad.same_nationality_teammates >= 1 {
            3
        } else {
            0
        };
        let games: u16 = self.statistics.total_games();
        let counted_games: i32 = if games <= 5 {
            games as i32
        } else {
            5
        };
        let counted_starts: i32 = if self.statistics.played <= 5 {
            self.statistics.played as i32
        } else {
            5
        };
        let shocked = self.happiness.has_recent_event(HappinessEventType::SalaryShock, 60)
            || self.happiness.has_recent_event(HappinessEventType::AmbitionShock, 60);
        AdaptationTally {
            days,
            language: self.points_for_language(country_code),
            role,
            mentor,
            language_buddies,
            compatriots,
            appearances: 2 * counted_games + 2 * counted_starts,
            step_up: if is_step_up {
                5
            } else {
                0
            },
            shock: if shocked {
                -8
            } else {
                0
            },
            capped: squad.is_loan && !squad.is_favorite_club && !self.speaks_local_language(
                country_code,
            ),
        }
    }

    /// The days that the player still needs to settle: none without a known move, before its day
    /// and after the window.
    pub fn settling_days_left(&self, now: Date) -> (r: i64)
        ensures
            r == days_to_settle(*self, now),
    {
        match self.days_since_transfer(now) {
            Some(days) => if days >= 0 && days < SETTLEMENT_WINDOW_DAYS {
                SETTLEMENT_WINDOW_DAYS - days
            } else {
                0
            },
            None => 0,
        }
    }

    /// How long the player has been at his club: since his last move, where he made one; else
    /// since a typical debut, where his whole career was spent there. Of anybody else nothing
    /// is claimed.
    pub fn years_at_club(&self, now: Date, age: u8, only_ever_here: bool) -> (r: Tenure)
        ensures
            r == tenure(*self, now, age, only_ever_here),
    {
        match self.days_since_transfer(now) {
            Some(days) => Tenure::Days(
                if days < 0 {
                    0
                } else {
                    days
                },
            ),
            None => if only_ever_here && age > DEBUT_AGE {
                Tenure::Years((age - DEBUT_AGE) as i64)
            } else {
                Tenure::Years(0)
            },
        }
    }

    /// Whether a move does not throw a player of this standing: one of the best there are, or
    /// an adaptable international who speaks the language.
    pub fn is_elite_settlement_bypass(&self, country_code: &str) -> (r: bool)
        ensures
            r == elite_bypass(*self, country_code@),
    {
        if self.player_attributes.world_reputation >= 8500
            && self.player_attributes.current_ability >= 170 {
            return true;
        }
        self.speaks_local_language(country_code) && self.attributes.adaptability.is_at_least(16)
            && self.player_attributes.current_ability >= 150
            && self.player_attributes.international_apps >= 20
    }

    /// Why a rating is not dampened, where it is not. A start weighs as much as two
    /// appearances from the bench.
    pub fn settlement_bypass(&self, raw_rating: Measure, now: Date, country_code: &str) -> (r:
        Option<SettlementBypassReason>)
        ensures
            r == settlement_bypass(*self, raw_rating, now, country_code@),
    {
        if raw_rating.is_at_most(6) {
            return Some(SettlementBypassReason::BelowBaseline);
        }
        match self.days_since_transfer(now) {
            None => {
                return Some(SettlementBypassReason::NoRecentTransfer);
            },
            Some(d) => if d >= SETTLEMENT_WINDOW_DAYS {
                return Some(SettlementBypassReason::PastSettlementWindow);
            },
        }
        if self.is_elite_settlement_bypass(country_code) {
            return Some(SettlementBypassReason::EliteReputation);
        }
        let involvement: u32 = 2 * self.statistics.played as u32
            + self.statistics.played_subs as u32;
        if involvement >= 16 {
            return Some(SettlementBypassReason::EnoughAppearances);
        }
        None
    }
}

/// Whether the list holds the language.
fn holds_language(list: &Vec<Language>, l: Language) -> (r: bool)
    ensures
        r == list@.contains(l),
{
    let mut i: usize = 0;
    while i < list.len()
        invariant
            i <= list@.len(),
            forall|j: int| 0 <= j < i ==> list@[j] != l,
        decreases list@.len() - i,
    {
        if list[i] == l {
            assert(list@[i as int] == l);
            return true;
        }
        i = i + 1;
    }
    false
}

/// The more of a country's language a player has, the better he settles: the points for it
/// never fall when fluency is added, and not a word of it costs ten.
pub proof fn lemma_language_helps(
    languages: Seq<crate::language::PlayerLanguage>,
    more: Seq<crate::language::PlayerLanguage>,
    code: Seq<char>,
)
    requires
        languages.is_prefix_of(more),
    ensures
        language_points(languages, code) <= language_points(more, code),
        -10 <= language_points(languages, code) <= 15,
        code.len() > 0 && languages.len() == 0 ==> language_points(languages, code) == -10,
{
    if code.len() > 0 {
        if crate::player::speaks_local(languages, code) {
            let local = crate::language::country_languages(code);
            let i = choose|i: int|
                0 <= i < local.len() && crate::language::speaks_fluently(
                    languages,
                    #[trigger] local[i],
                );
            let j = choose|j: int|
                0 <= j < languages.len() && (#[trigger] languages[j]).language == local[i]
                    && languages[j].fluent();
            assert(more[j] == languages[j]);
            assert(crate::language::speaks_fluently(more, local[i]));
        }
        lemma_knowledge_stays(languages, more, code, 40);
        lemma_knowledge_stays(languages, more, code, 1);
        if languages.len() == 0 {
            assert(!crate::player::speaks_local(languages, code));
        }
    }
}

/// What is known stays known when more is learned.
proof fn lemma_knowledge_stays(
    languages: Seq<crate::language::PlayerLanguage>,
    more: Seq<crate::language::PlayerLanguage>,
    code: Seq<char>,
    proficiency: int,
)
    requires
        languages.is_prefix_of(more),
    ensures
        knows_local(languages, code, proficiency) ==> knows_local(more, code, proficiency),
{
    if knows_local(languages, code, proficiency) {
        let i = choose|i: int|
            0 <= i < languages.len() && (#[trigger] languages[i]).proficiency >= proficiency
                && crate::language::country_languages(code).contains(languages[i].language);
        assert(more[i] == languages[i]);
    }
}

/// A move stops to matter for good: once the window is past, no later day brings the
/// dampening back while the player stays. A rating at or below six is never dampened.
pub proof fn lemma_settling_ends(p: Player, raw: Measure, now: Date, later: Date, code: Seq<char>)
    requires
        later.days >= now.days,
    ensures
        raw.le(6) ==> settlement_bypass(p, raw, now, code) == Some(
            SettlementBypassReason::BelowBaseline,
        ),
        settlement_bypass(p, raw, now, code) is Some ==> settlement_bypass(p, raw, later, code)
            is Some,
        p.last_transfer_date is Some && later.days - p.last_transfer_date->0.days >= 84
            ==> settlement_bypass(p, raw, later, code) is Some,
{
}

/// Time, games, a mentor, company and fluency only ever help; the points stay between fixed
/// limits.
pub proof fn lemma_tally_bounds(
    p: Player,
    now: Date,
    code: Seq<char>,
    formation: Option<Seq<PositionSlot>>,
    squad: AdaptationSquadContext,
    is_step_up: bool,
)
    requires
        p.statistics.played + p.statistics.played_subs <= u16::MAX,
    ensures
        ({
            let t = adaptation_tally(p, now, code, formation, squad, is_step_up);
            &&& 0 <= t.days <= 84
            &&& -38 <= t.points() <= 68
            &&& squad.is_favorite_club ==> !t.capped
        }),
{
}

/// What the whole numbers of an adaptation are worth. A role in the side: ten points, four for one
/// close to it, twelve off for none. A mentor: eight points either way. Company: four points for
/// one to talk with, seven for more, three for compatriots. Games: two points each for the first
/// five and two more for each of the first five starts. A step up is worth five; a shock of the
/// last sixty days costs eight.
pub proof fn lemma_what_helps_to_settle(
    p: Player,
    now: Date,
    code: Seq<char>,
    formation: Option<Seq<PositionSlot>>,
    squad: AdaptationSquadContext,
    is_step_up: bool,
)
    requires
        p.statistics.played + p.statistics.played_subs <= u16::MAX,
    ensures
        ({
            let t = adaptation_tally(p, now, code, formation, squad, is_step_up);
            let slots = formation->0;
            let natural = exists|i: int|
                0 <= i < slots.len() && (#[trigger] slots[i]).position == p.position.position;
            let close = exists|i: int|
                0 <= i < slots.len() && (#[trigger] slots[i]).group == p.position.group;
            let starts = p.statistics.played as int;
            let games = starts + p.statistics.played_subs;
            let shocked = exists|i: int|
                0 <= i < p.happiness@.len() && (#[trigger] p.happiness@[i]).days_ago <= 60 && (
                p.happiness@[i].event_type is SalaryShock || p.happiness@[i].event_type
                    is AmbitionShock);
            &&& formation is None ==> t.role == 0
            &&& formation is Some && natural ==> t.role == 10
            &&& formation is Some && !natural && close ==> t.role == 4
            &&& formation is Some && !natural && !close ==> t.role == -12
            &&& t.mentor == 8 <==> squad.mentor_quality == Some(true)
            &&& t.mentor == -8 <==> squad.mentor_quality == Some(false)
            &&& t.mentor == 0 <==> squad.mentor_quality is None
            &&& t.language_buddies == 0 <==> squad.same_language_teammates == 0
            &&& t.language_buddies == 4 <==> squad.same_language_teammates == 1
            &&& t.language_buddies == 7 <==> squad.same_language_teammates >= 2
            &&& t.compatriots == 0 <==> squad.same_nationality_teammates == 0
            &&& t.compatriots == 3 <==> squad.same_nationality_teammates >= 1
            &&& games <= 5 ==> t.appearances == 2 * games + 2 * starts
            &&& starts <= 5 && games >= 5 ==> t.appearances == 10 + 2 * starts
            &&& starts >= 5 ==> t.appearances == 20
            &&& t.step_up == 5 <==> is_step_up
            &&& t.step_up == 0 <==> !is_step_up
            &&& t.shock == -8 <==> shocked
            &&& t.shock == 0 <==> !shocked
            &&& t.capped <==> squad.is_loan && !squad.is_favorite_club
                && !crate::player::speaks_local(p.languages@, code)
        }),
{
    let log = p.happiness@;
    if recently_shocked(p) {
        let i = if crate::happiness::recent(log, HappinessEventType::SalaryShock, 60) {
            choose|i: int|
                0 <= i < log.len() && (#[trigger] log[i]).event_type
                    == HappinessEventType::SalaryShock && log[i].days_ago <= 60
        } else {
            choose|i: int|
                0 <= i < log.len() && (#[trigger] log[i]).event_type
                    == HappinessEventType::AmbitionShock && log[i].days_ago <= 60
        };
        assert(log[i].days_ago <= 60);
    }
}

/// What the language of the country is worth: fifteen points spoken fluently, seven in
/// conversation, none at all for some of it, ten off for not a word; and nothing where the country
/// is not known.
pub proof fn lemma_what_a_language_is_worth(
    languages: Seq<crate::language::PlayerLanguage>,
    code: Seq<char>,
    i: int,
)
    requires
        0 <= i < languages.len(),
        crate::language::country_languages(code).contains(languages[i].language),
        code.len() > 0,
    ensures
        ({
            let l = languages[i];
            let points = language_points(languages, code);
            &&& l.is_native || l.proficiency >= 70 ==> points == 15
            &&& l.proficiency >= 40 ==> points >= 7
            &&& l.proficiency >= 1 ==> points >= 0
            &&& language_points(languages, Seq::empty()) == 0
            &&& languages.len() == 1 && !l.is_native && l.proficiency < 70 ==> {
                &&& l.proficiency >= 40 ==> points == 7
                &&& 1 <= l.proficiency < 40 ==> points == 0
                &&& l.proficiency == 0 ==> points == -10
            }
        }),
{
    let s = crate::language::country_languages(code);
    let k = choose|k: int| 0 <= k < s.len() && s[k] == languages[i].language;
    if languages[i].is_native || languages[i].proficiency >= 70 {
        assert(languages[i].fluent());
        assert(crate::language::speaks_fluently(languages, s[k]));
    }
}

/// How time counts: day by day up to twelve weeks, in full for who never moved, and not before the
/// move.
pub proof fn lemma_time_to_settle(p: Player, now: Date)
    ensures
        p.last_transfer_date is None ==> settled_days(p, now) == 84 && days_to_settle(p, now) == 0,
        p.last_transfer_date is Some ==> {
            let days = now.days - p.last_transfer_date->0.days;
            &&& days < 0 ==> settled_days(p, now) == 0 && days_to_settle(p, now) == 0
            &&& 0 <= days <= 84 ==> settled_days(p, now) == days && days_to_settle(p, now) == 84
                - days
            &&& days >= 84 ==> settled_days(p, now) == 84 && days_to_settle(p, now) == 0
        },
{
}

/// How long a player is said to have been at his club: by the day since a move; else, if he was
/// never anywhere else, by the year since he was 17; else not at all.
pub proof fn lemma_tenure(p: Player, now: Date, age: u8, only_ever_here: bool)
    ensures
        ({
            let t = tenure(p, now, age, only_ever_here);
            &&& p.last_transfer_date is Some <==> t is Days
            &&& p.last_transfer_date is Some && p.last_transfer_date->0.days <= now.days
                ==> t->Days_0 == now.days - p.last_transfer_date->0.days
            &&& p.last_transfer_date is Some && p.last_transfer_date->0.days > now.days
                ==> t->Days_0 == 0
            &&& p.last_transfer_date is None && only_ever_here && age >= 17 ==> t->Years_0 == age
                - 17
            &&& p.last_transfer_date is None && (!only_ever_here || age < 17) ==> t->Years_0 == 0
        }),
{
}

/// When a rating is dampened: above six, in the first 84 days after a move, for a player who has
/// not played the worth of eight starts, a game from the bench counting half, and who is not
/// above such things: by a name of 8500 and an ability of 170, or as an adaptable international
/// who speaks the language.
pub proof fn lemma_when_a_rating_is_dampened(p: Player, raw: Measure, now: Date, code: Seq<char>)
    ensures
        ({
            let why = settlement_bypass(p, raw, now, code);
            let one = crate::measure::one();
            let a = p.player_attributes;
            let star = a.world_reputation >= 8500 && a.current_ability >= 170;
            let at_ease = crate::player::speaks_local(p.languages@, code)
                && p.attributes.adaptability.units() >= 16 * one && a.current_ability >= 150
                && a.international_apps >= 20;
            let moved = p.last_transfer_date is Some;
            let fresh = moved && now.days - p.last_transfer_date->0.days < 84;
            let played = 2 * p.statistics.played + p.statistics.played_subs >= 2 * 8;
            let good = raw.units() > 6 * one;
            &&& why is None <==> good && fresh && !star && !at_ease && !played
            &&& why == Some(SettlementBypassReason::BelowBaseline) <==> !good
            &&& why == Some(SettlementBypassReason::NoRecentTransfer) <==> good && !moved
            &&& why == Some(SettlementBypassReason::PastSettlementWindow) <==> good && moved
                && !fresh
            &&& why == Some(SettlementBypassReason::EliteReputation) <==> good && fresh && (star
                || at_ease)
            &&& why == Some(SettlementBypassReason::EnoughAppearances) <==> good && fresh && !star
                && !at_ease && played
        }),
{
}

/// Which stretch holds a score: the one that begins at most twenty points below it. The stretches
/// rise by four, six, six, four and two hundredths.
pub proof fn lemma_band_of_a_score(score: Measure)
    ensures
        ({
            let b = settlement_band_of(score);
            let one = crate::measure::one();
            &&& b.from == 80 <==> score.units() >= 80 * one
            &&& b.from == 60 <==> 60 * one <= score.units() < 80 * one
            &&& b.from == 40 <==> 40 * one <= score.units() < 60 * one
            &&& b.from == 20 <==> 20 * one <= score.units() < 40 * one
            &&& b.from == 0 <==> score.units() < 20 * one
            &&& b.from == 0 ==> b.floor == 78 && b.rise == 4
            &&& b.from == 20 ==> b.floor == 82 && b.rise == 6
            &&& b.from == 40 ==> b.floor == 88 && b.rise == 6
            &&& b.from == 60 ==> b.floor == 94 && b.rise == 4
            &&& b.from == 80 ==> b.floor == 98 && b.rise == 2
        }),
{
    crate::measure::lemma_one_positive();
}

/// A dream move lifts the settled alone, by two hundredths, which is the whole of what is above
/// one.
pub proof fn lemma_dream_lifts(score: Measure, is_dream_move: bool)
    ensures
        lift_of(score, is_dream_move) == 2 <==> is_dream_move && score.units() >= 80
            * crate::measure::one(),
        lift_of(score, is_dream_move) == 0 <==> !is_dream_move || score.units() < 80
            * crate::measure::one(),
        settlement_band_of(score).floor + settlement_band_of(score).rise + lift_of(
            score,
            is_dream_move,
        ) <= 102,
{
}

/// What a league asks for: a hundredth of its reputation, but from 20 to 200; and who stands out:
/// by 3000 points above or below his club or his league.
pub proof fn lemma_standing_out(gap: ReputationGap, reputation: int)
    requires
        0 <= reputation,
    ensures
        20 <= expected_tier(reputation) <= 200,
        2000 <= reputation < 20100 ==> 0 <= reputation - 100 * expected_tier(reputation) < 100,
        reputation < 2000 ==> expected_tier(reputation) == 20,
        gap.above() <==> !(gap.player_vs_club < 3000 && gap.player_vs_league < 3000),
        gap.below() <==> !(gap.player_vs_club > -3000 && gap.player_vs_league > -3000),
{
}

} // verus!
