//! Career statistics: the counters of a spell, the rating ledger behind the
//! season average, and the records that history is made of.

use crate::measure::Measure;
use crate::text::same_text;
#[allow(unused_imports)]
use vstd::prelude::*;

verus! {

/// The context in which statistics were earned.
#[derive(Clone, Copy, Debug, PartialEq, Eq, Hash, Structural)]
pub enum PlayerStatCompetitionKind {
    /// Senior league matches.
    League,
    /// Domestic cup matches.
    DomesticCup,
    /// Matches of a continental club competition.
    ContinentalCup,
    /// Friendlies and youth matches.
    Friendly,
}

/// Whether the slug names a continental club competition.
pub open spec fn is_continental_slug(slug: Seq<char>) -> bool {
    ||| slug == "champions-league"@
    ||| slug == "europa-league"@
    ||| slug == "conference-league"@
    ||| slug == "copa-libertadores"@
}

impl PlayerStatCompetitionKind {
    /// The kind of a cup: only the continental competitions are continental, every other cup
    /// is a domestic one.
    pub fn from_cup_slug(slug: &str) -> (r: Self)
        ensures
            r == if is_continental_slug(slug@) {
                PlayerStatCompetitionKind::ContinentalCup
            } else {
                PlayerStatCompetitionKind::DomesticCup
            },
    {
        if same_text(slug, "champions-league") || same_text(slug, "europa-league") || same_text(
            slug,
            "conference-league",
        ) || same_text(slug, "copa-libertadores") {
            PlayerStatCompetitionKind::ContinentalCup
        } else {
            PlayerStatCompetitionKind::DomesticCup
        }
    }

    /// Whether the matches are part of the career history.
    pub fn counts_toward_career_history(self) -> (r: bool)
        ensures
            r == !(self is Friendly),
    {
        !matches!(self, PlayerStatCompetitionKind::Friendly)
    }
}

/// A team, as a history entry names it.
#[derive(Debug)]
pub struct TeamInfo {
    pub name: String,
    pub slug: String,
    pub reputation: u16,
    pub league_name: String,
    pub league_slug: String,
}

/// The part of the pitch a player belongs to.
#[derive(Clone, Copy, Debug, PartialEq, Eq, Structural)]
pub enum PlayerFieldPositionGroup {
    Goalkeeper,
    Defender,
    Midfielder,
    Forward,
}

/// The rating sums of a spell.
#[derive(Clone, Copy, Debug, PartialEq, Eq, Structural)]
pub struct RatingLedger {
    /// The ratings, each times its weight.
    pub points: Measure,
    /// The weights.
    pub weight: Measure,
    /// The average of the two.
    pub average: Measure,
}

/// The statistics of a spell.
#[derive(Clone, Copy, Debug, PartialEq, Eq, Structural)]
pub struct PlayerStatistics {
    pub played: u16,
    pub played_subs: u16,
    pub goals: u16,
    pub assists: u16,
    pub penalties: u16,
    pub player_of_the_match: u8,
    pub yellow_cards: u8,
    pub red_cards: u8,
    pub shots_on_target: Measure,
    pub tackling: Measure,
    pub passes: u8,
    pub rating: RatingLedger,
    pub conceded: u16,
    pub clean_sheets: u16,
}

/// Where the rating sums of a spell come from.
#[derive(Clone, Copy, Debug, PartialEq, Eq, Structural)]
pub enum RatingSource {
    /// The ledger has them.
    Ledger,
    /// Only an average is known: it counts with this weight, in hundredths.
    Average { weight: u32 },
    /// There are none.
    Nothing,
}

/// An arithmetic of ratings: the sum, the product and the quotient of two numbers, and the number
/// of so many hundredths, each rounded in its own way.
pub struct Arithmetic {
    pub sum: spec_fn(Measure, Measure) -> Measure,
    pub product: spec_fn(Measure, Measure) -> Measure,
    pub quotient: spec_fn(Measure, Measure) -> Measure,
    pub hundredths: spec_fn(u32) -> Measure,
}

impl Arithmetic {
    /// Whether a sum does not depend on the order, however it is rounded.
    pub open spec fn sums_commute(self) -> bool {
        forall|a: Measure, b: Measure| #[trigger] (self.sum)(a, b) == (self.sum)(b, a)
    }
}

/// Whether a match rating counts: a number from 1 to 10, earned on the pitch.
pub open spec fn is_recordable(rating: Option<Measure>, minutes: u16) -> bool {
    rating is Some && rating->0.ge(1) && rating->0.le(10) && minutes > 0
}

/// The weight of one appearance, in parts of 1800: the share of ninety minutes, but never
/// less than 65 percent for a starter and 20 percent for a substitute.
pub open spec fn appearance_weight(minutes: u16, is_starter: bool) -> int {
    let share = 20 * (if minutes > 90 { 90int } else { minutes as int });
    let least = if is_starter { 1170int } else { 360 };
    if share < least {
        least
    } else {
        share
    }
}

impl PlayerStatistics {
    /// No matches.
    pub open spec fn empty() -> PlayerStatistics {
        let zero = Measure { key: 0 };
        PlayerStatistics {
            played: 0,
            played_subs: 0,
            goals: 0,
            assists: 0,
            penalties: 0,
            player_of_the_match: 0,
            yellow_cards: 0,
            red_cards: 0,
            shots_on_target: zero,
            tackling: zero,
            passes: 0,
            rating: RatingLedger { points: zero, weight: zero, average: zero },
            conceded: 0,
            clean_sheets: 0,
        }
    }

    /// No matches.
    pub fn new() -> (r: Self)
        ensures
            r == PlayerStatistics::empty(),
    {
        let zero = Measure { key: 0 };
        PlayerStatistics {
            played: 0,
            played_subs: 0,
            goals: 0,
            assists: 0,
            penalties: 0,
            player_of_the_match: 0,
            yellow_cards: 0,
            red_cards: 0,
            shots_on_target: zero,
            tackling: zero,
            passes: 0,
            rating: RatingLedger { points: zero, weight: zero, average: zero },
            conceded: 0,
            clean_sheets: 0,
        }
    }

    /// The counters.
    pub open spec fn counts(self) -> StatCounts {
        StatCounts {
            played: self.played as int,
            played_subs: self.played_subs as int,
            goals: self.goals as int,
            assists: self.assists as int,
            penalties: self.penalties as int,
            player_of_the_match: self.player_of_the_match as int,
            yellow_cards: self.yellow_cards as int,
            red_cards: self.red_cards as int,
            passes: self.passes as int,
            conceded: self.conceded as int,
            clean_sheets: self.clean_sheets as int,
        }
    }

    /// The appearances, from the start and from the bench.
    pub open spec fn total(self) -> int {
        self.played + self.played_subs
    }

    /// The appearances, from the start and from the bench.
    pub fn total_games(&self) -> (r: u16)
        requires
            self.total() <= u16::MAX,
        ensures
            r == self.total(),
    {
        self.played + self.played_subs
    }

    /// The weight, in parts of 1800, with which a match rating enters the ledger; `None` where
    /// it does not, because it is no number, lies outside 1 to 10, or nobody played. A rating
    /// that is no number comes as `None`.
    pub fn match_rating_weight(
        rating: Option<Measure>,
        minutes_played: u16,
        is_starter: bool,
    ) -> (r: Option<u32>)
        ensures
            r == if is_recordable(rating, minutes_played) {
                Some(appearance_weight(minutes_played, is_starter) as u32)
            } else {
                None
            },
    {
        let in_range = match rating {
            Some(m) => m.is_at_least(1) && m.is_at_most(10),
            None => false,
        };
        if !in_range || minutes_played == 0 {
            return None;
        }
        let share: u32 = 20 * (if minutes_played > 90 {
            90
        } else {
            minutes_played as u32
        });
        let least: u32 = if is_starter {
            1170
        } else {
            360
        };
        if share < least {
            Some(least)
        } else {
            Some(share)
        }
    }

    /// Takes a match rating into the ledger: `sums` are the sums with it. A rating that does
    /// not count changes nothing. Returns whether it counts.
    pub fn record_match_rating(
        &mut self,
        rating: Option<Measure>,
        minutes_played: u16,
        is_starter: bool,
        sums: RatingLedger,
    ) -> (r: bool)
        ensures
            r == is_recordable(rating, minutes_played),
            *final(self) == if r {
                PlayerStatistics { rating: sums, ..*old(self) }
            } else {
                *old(self)
            },
    {
        match PlayerStatistics::match_rating_weight(rating, minutes_played, is_starter) {
            Some(_) => {
                self.rating = sums;
                true
            },
            None => false,
        }
    }

    /// Where the rating sums come from: the ledger where it has weight, else the average,
    /// with starts at full weight and substitute appearances at 35 percent.
    pub open spec fn source(self) -> RatingSource {
        if !self.rating.weight.le(0) {
            RatingSource::Ledger
        } else if !self.rating.average.le(0) {
            RatingSource::Average { weight: (100 * self.played + 35 * self.played_subs) as u32 }
        } else {
            RatingSource::Nothing
        }
    }

    /// Where the rating sums come from.
    pub fn rating_source(&self) -> (r: RatingSource)
        ensures
            r == self.source(),
    {
        if !self.rating.weight.is_at_most(0) {
            RatingSource::Ledger
        } else if !self.rating.average.is_at_most(0) {
            RatingSource::Average {
                weight: 100 * (self.played as u32) + 35 * (self.played_subs as u32),
            }
        } else {
            RatingSource::Nothing
        }
    }

    /// The rating points and the weight with which a spell enters a sum over several.
    pub open spec fn share(self, x: Arithmetic) -> (Measure, Measure) {
        match self.source() {
            RatingSource::Ledger => (self.rating.points, self.rating.weight),
            RatingSource::Average { weight } => (
                (x.product)(self.rating.average, (x.hundredths)(weight)),
                (x.hundredths)(weight),
            ),
            RatingSource::Nothing => (Measure { key: 0 }, Measure { key: 0 }),
        }
    }

    /// The average by minutes: that of the ledger, where it has weight.
    pub open spec fn weighted_average(self, x: Arithmetic) -> Measure {
        if self.source() is Ledger {
            (x.quotient)(self.rating.points, self.rating.weight)
        } else {
            self.rating.average
        }
    }

    /// The average over two spells; zero where neither has weight.
    pub open spec fn combined_average(self, other: PlayerStatistics, x: Arithmetic) -> Measure {
        let (p, w) = self.share(x);
        let (q, v) = other.share(x);
        let weight = (x.sum)(w, v);
        if weight.le(0) {
            Measure { key: 0 }
        } else {
            (x.quotient)((x.sum)(p, q), weight)
        }
    }

    /// The ledger of two spells together. Without weight it keeps the average that it had.
    pub open spec fn merged_ledger(self, other: PlayerStatistics, x: Arithmetic) -> RatingLedger {
        let (p, w) = self.share(x);
        let (q, v) = other.share(x);
        let weight = (x.sum)(w, v);
        RatingLedger {
            points: (x.sum)(p, q),
            weight,
            average: if weight.le(0) {
                self.rating.average
            } else {
                (x.quotient)((x.sum)(p, q), weight)
            },
        }
    }

    /// Whether adding `other` keeps every counter in its range.
    pub open spec fn can_merge(self, other: PlayerStatistics) -> bool {
        &&& self.played + other.played <= u16::MAX
        &&& self.played_subs + other.played_subs <= u16::MAX
        &&& self.goals + other.goals <= u16::MAX
        &&& self.assists + other.assists <= u16::MAX
        &&& self.penalties + other.penalties <= u16::MAX
        &&& self.player_of_the_match + other.player_of_the_match <= u8::MAX
        &&& self.yellow_cards + other.yellow_cards <= u8::MAX
        &&& self.red_cards + other.red_cards <= u8::MAX
        &&& self.passes + other.passes <= u8::MAX
        &&& self.conceded + other.conceded <= u16::MAX
        &&& self.clean_sheets + other.clean_sheets <= u16::MAX
    }

    /// Adds the statistics of another spell. The sums of the quantities that are no counters
    /// are given. Where `rating` is the merged ledger of the two by some arithmetic, the average
    /// afterwards is the one over both spells by that arithmetic.
    pub fn merge_from(
        &mut self,
        other: &PlayerStatistics,
        rating: RatingLedger,
        shots_on_target: Measure,
        tackling: Measure,
    )
        requires
            old(self).can_merge(*other),
        ensures
            final(self).counts() == old(self).counts().plus(other.counts()),
            final(self).rating == rating,
            final(self).shots_on_target == shots_on_target,
            final(self).tackling == tackling,
            final(self).total() == old(self).total() + other.total(),
            !rating.weight.le(0) ==> final(self).source() is Ledger,
            forall|x: Arithmetic|
                rating == #[trigger] old(self).merged_ledger(*other, x) && !rating.weight.le(0)
                    ==> {
                    &&& final(self).weighted_average(x) == old(self).combined_average(*other, x)
                    &&& final(self).rating.average == old(self).combined_average(*other, x)
                },
    {
        self.rating = rating;
        self.shots_on_target = shots_on_target;
        self.tackling = tackling;
        self.played = self.played + other.played;
        self.played_subs = self.played_subs + other.played_subs;
        self.goals = self.goals + other.goals;
        self.assists = self.assists + other.assists;
        self.penalties = self.penalties + other.penalties;
        self.player_of_the_match = self.player_of_the_match + other.player_of_the_match;
        self.yellow_cards = self.yellow_cards + other.yellow_cards;
        self.red_cards = self.red_cards + other.red_cards;
        self.passes = self.passes + other.passes;
        self.conceded = self.conceded + other.conceded;
        self.clean_sheets = self.clean_sheets + other.clean_sheets;
    }
}

impl Default for PlayerStatistics {
    fn default() -> (r: Self)
        ensures
            r == PlayerStatistics::empty(),
    {
        PlayerStatistics::new()
    }
}

/// The counters of a spell, as numbers.
pub struct StatCounts {
    pub played: int,
    pub played_subs: int,
    pub goals: int,
    pub assists: int,
    pub penalties: int,
    pub player_of_the_match: int,
    pub yellow_cards: int,
    pub red_cards: int,
    pub passes: int,
    pub conceded: int,
    pub clean_sheets: int,
}

impl StatCounts {
    /// The sums of the counters.
    pub open spec fn plus(self, other: StatCounts) -> StatCounts {
        StatCounts {
            played: self.played + other.played,
            played_subs: self.played_subs + other.played_subs,
            goals: self.goals + other.goals,
            assists: self.assists + other.assists,
            penalties: self.penalties + other.penalties,
            player_of_the_match: self.player_of_the_match + other.player_of_the_match,
            yellow_cards: self.yellow_cards + other.yellow_cards,
            red_cards: self.red_cards + other.red_cards,
            passes: self.passes + other.passes,
            conceded: self.conceded + other.conceded,
            clean_sheets: self.clean_sheets + other.clean_sheets,
        }
    }
}

/// The rating of an average season, by position, in hundredths.
pub open spec fn neutral_rating_spec(position: PlayerFieldPositionGroup) -> int {
    match position {
        PlayerFieldPositionGroup::Goalkeeper => 665,
        PlayerFieldPositionGroup::Midfielder => 660,
        PlayerFieldPositionGroup::Defender | PlayerFieldPositionGroup::Forward => 655,
    }
}

/// The rating of an average season, by position, in hundredths.
pub fn neutral_rating(position: PlayerFieldPositionGroup) -> (r: u32)
    ensures
        r == neutral_rating_spec(position),
{
    match position {
        PlayerFieldPositionGroup::Goalkeeper => 665,
        PlayerFieldPositionGroup::Defender => 655,
        PlayerFieldPositionGroup::Midfielder => 660,
        PlayerFieldPositionGroup::Forward => 655,
    }
}

/// The statistics earned in one cup competition.
#[derive(Debug)]
pub struct CompetitionStatistics {
    pub competition_slug: String,
    pub statistics: PlayerStatistics,
}

/// The statistics earned for a team other than the player's own.
#[derive(Debug)]
pub struct SecondaryTeamStatistics {
    pub season_start_year: u16,
    pub team_slug: String,
    pub team_name: String,
    pub team_reputation: u16,
    pub league_slug: String,
    pub league_name: String,
    pub statistics: PlayerStatistics,
}

/// A starter's appearance never weighs less than a substitute's of the same length, a longer
/// one never less than a shorter one, and none more than a full match.
pub proof fn lemma_appearance_weight(a: u16, b: u16)
    requires
        a <= b,
    ensures
        appearance_weight(a, false) <= appearance_weight(a, true),
        appearance_weight(a, true) <= appearance_weight(b, true),
        appearance_weight(a, false) <= appearance_weight(b, false),
        360 <= appearance_weight(a, false),
        appearance_weight(b, true) <= 1800,
{
}

/// A merge weighs two spells as one: by any arithmetic whose sums do not depend on the order, as
/// those in single precision do not, the average after the merge is the one over both spells, and
/// it does not matter which of the two is merged into the other. This holds of spells with a
/// ledger and of those of which only an average is known.
pub proof fn lemma_merge_keeps_average(
    a: PlayerStatistics,
    b: PlayerStatistics,
    merged: PlayerStatistics,
    x: Arithmetic,
)
    requires
        x.sums_commute(),
        merged.rating == a.merged_ledger(b, x),
        !merged.rating.weight.le(0),
    ensures
        merged.weighted_average(x) == a.combined_average(b, x),
        merged.rating.average == a.combined_average(b, x),
        a.combined_average(b, x) == b.combined_average(a, x),
        a.merged_ledger(b, x) == b.merged_ledger(a, x),
{
    let (p, w) = a.share(x);
    let (q, v) = b.share(x);
    assert((x.sum)(p, q) == (x.sum)(q, p));
    assert((x.sum)(w, v) == (x.sum)(v, w));
}

/// Merging spells is a sum: the order does not matter.
pub proof fn lemma_merge_commutes(a: StatCounts, b: StatCounts, c: StatCounts)
    ensures
        a.plus(b) == b.plus(a),
        a.plus(b).plus(c) == a.plus(b.plus(c)),
{
}

/// How much a match weighs: as many minutes out of ninety, all of it from ninety on, but for a
/// starter no less than 65 hundredths and for a substitute no less than 20.
pub proof fn lemma_weight_of_a_match(minutes: u16, is_starter: bool)
    ensures
        minutes >= 90 ==> appearance_weight(minutes, is_starter) == 1800,
        59 <= minutes <= 90 ==> 90 * appearance_weight(minutes, is_starter) == 1800 * minutes,
        18 <= minutes <= 90 ==> 90 * appearance_weight(minutes, false) == 1800 * minutes,
        minutes <= 58 ==> 100 * appearance_weight(minutes, true) == 65 * 1800,
        minutes <= 18 ==> 100 * appearance_weight(minutes, false) == 20 * 1800,
{
}

/// Which ratings count: from one to ten, of someone who was on the pitch.
pub proof fn lemma_which_ratings_count(rating: Option<Measure>, minutes: u16)
    ensures
        is_recordable(rating, minutes) <==> rating is Some && crate::measure::one()
            <= rating->0.units() <= 10 * crate::measure::one() && minutes >= 1,
{
}

/// Where the rating of a spell comes from: from its ledger, where that has weight; else from its
/// average, a start counting a hundred and a game from the bench 35; else from nowhere.
pub proof fn lemma_where_ratings_come_from(s: PlayerStatistics)
    ensures
        s.source() is Ledger <==> s.rating.weight.units() > 0,
        s.source() is Nothing <==> s.rating.weight.units() <= 0 && s.rating.average.units() <= 0,
        s.source() is Average <==> s.rating.weight.units() <= 0 && s.rating.average.units() > 0,
        s.source() is Average ==> s.source()->weight == 100 * s.played + 35 * s.played_subs,
        s.total() == s.played + s.played_subs,
{
    assert(0 * crate::measure::one() == 0);
}

/// What an average season is rated: a keeper's highest, a midfielder's next, and the same for
/// defenders and forwards.
pub proof fn lemma_average_seasons(position: PlayerFieldPositionGroup)
    ensures
        neutral_rating_spec(position) == 665 <==> position is Goalkeeper,
        neutral_rating_spec(position) == 660 <==> position is Midfielder,
        neutral_rating_spec(position) == 655 <==> position is Defender || position is Forward,
{
}

/// A merge adds every counter to its own, and no other.
pub proof fn lemma_counters_add_up(a: StatCounts, b: StatCounts)
    ensures
        ({
            let c = a.plus(b);
            &&& c.played - a.played == b.played && c.played_subs - a.played_subs == b.played_subs
            &&& c.goals - a.goals == b.goals && c.assists - a.assists == b.assists && c.penalties
                - a.penalties == b.penalties
            &&& c.player_of_the_match - a.player_of_the_match == b.player_of_the_match
            &&& c.yellow_cards - a.yellow_cards == b.yellow_cards && c.red_cards - a.red_cards
                == b.red_cards
            &&& c.passes - a.passes == b.passes && c.conceded - a.conceded == b.conceded
                && c.clean_sheets - a.clean_sheets == b.clean_sheets
        }),
{
}

/// The counters of a spell are its counters.
pub proof fn lemma_counters(s: PlayerStatistics)
    ensures
        ({
            let c = s.counts();
            &&& c.played == s.played && c.played_subs == s.played_subs && c.goals == s.goals
                && c.assists == s.assists && c.penalties == s.penalties
            &&& c.player_of_the_match == s.player_of_the_match && c.yellow_cards == s.yellow_cards
                && c.red_cards == s.red_cards && c.passes == s.passes
            &&& c.conceded == s.conceded && c.clean_sheets == s.clean_sheets
        }),
{
}

/// What a spell without ratings adds: nothing. Two of them have no average.
pub proof fn lemma_no_ratings(a: PlayerStatistics, b: PlayerStatistics, x: Arithmetic)
    ensures
        a.source() is Nothing ==> a.share(x).0.units() == 0 && a.share(x).1.units() == 0,
        a.source() is Ledger ==> a.share(x) == (a.rating.points, a.rating.weight),
        (x.sum)(a.share(x).1, b.share(x).1).units() <= 0 ==> a.combined_average(b, x).units() == 0
            && a.merged_ledger(b, x).average == a.rating.average,
{
    assert(crate::measure::magnitude(0) == 0);
    assert(0 * crate::measure::one() == 0);
}

} // verus!
