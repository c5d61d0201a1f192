//! The player, as far as the rules of this library read and change him.

use crate::date::Date;
use crate::decisions::PlayerDecisionHistory;
use crate::happiness::PlayerHappiness;
use crate::language::{Language, PlayerLanguage};
use crate::ledger::{PlayerFieldPositionGroup, PlayerStatistics};
use crate::market::{FreeAgentMarketState, PreContractAgreement};
use crate::measure::Measure;
use crate::plan::PlayerPlan;
use crate::status::PlayerStatus;
#[allow(unused_imports)]
use vstd::prelude::*;

verus! {

/// The character of a player, on a scale from 0 to 20.
#[derive(Clone, Copy, Debug, PartialEq, Eq, Structural)]
pub struct PersonAttributes {
    pub adaptability: Measure,
    pub ambition: Measure,
    pub controversy: Measure,
    pub loyalty: Measure,
    pub pressure: Measure,
    pub professionalism: Measure,
}

/// What a player can do and how he is seen.
#[derive(Clone, Copy, Debug, PartialEq, Eq, Structural)]
pub struct PlayerAttributes {
    pub current_ability: u8,
    pub potential_ability: u8,
    pub current_reputation: i16,
    pub world_reputation: i16,
    pub international_apps: u16,
}

/// A place on the pitch: an identity and the part of the pitch it belongs to.
#[derive(Clone, Copy, Debug, PartialEq, Eq, Structural)]
pub struct PositionSlot {
    pub position: u8,
    pub group: PlayerFieldPositionGroup,
}

/// A player's standing in the squad.
#[derive(Clone, Copy, Debug, PartialEq, Eq, Structural)]
pub enum PlayerSquadStatus {
    NotYetSet,
    KeyPlayer,
    FirstTeamRegular,
    FirstTeamSquadRotation,
    MainBackupPlayer,
    NotNeeded,
}

/// A contract between a player and his club.
#[derive(Clone, Copy, Debug, PartialEq, Eq, Structural)]
pub struct PlayerClubContract {
    pub salary: u32,
    pub expiration: Date,
    pub squad_status: PlayerSquadStatus,
    pub shirt_number: Option<u8>,
    pub is_transfer_listed: bool,
}

/// What a transfer leaves behind for the player's first day at the new club.
#[derive(Clone, Copy, Debug, PartialEq, Eq, Structural)]
pub struct PendingSigning {
    pub previous_salary: Option<u32>,
    pub is_loan: bool,
    pub destination_club_id: u32,
    pub had_return_home_desire: bool,
    pub had_european_desire: bool,
    pub had_libertadores_desire: bool,
    /// Zero where unknown.
    pub source_club_reputation: u16,
    /// Zero where unknown.
    pub source_league_reputation: u16,
    /// One is the clear first choice.
    pub dest_position_depth_rank: Option<u8>,
    pub source_is_rival: bool,
}

/// Why a player left for free.
#[derive(Clone, Copy, Debug, PartialEq, Eq, Structural)]
pub enum FreeAgentReleaseReason {
    FailedRenewalRelease,
    SurplusFreeRelease,
}

/// A player.
#[derive(Debug)]
pub struct Player {
    pub id: u32,
    pub country_id: u32,
    pub position: PositionSlot,
    pub attributes: PersonAttributes,
    pub player_attributes: PlayerAttributes,
    pub languages: Vec<PlayerLanguage>,
    pub favorite_clubs: Vec<u32>,
    pub happiness: PlayerHappiness,
    pub statuses: PlayerStatus,
    pub statistics: PlayerStatistics,
    pub decision_history: PlayerDecisionHistory,
    pub plan: Option<PlayerPlan>,
    pub last_transfer_date: Option<Date>,
    pub pending_signing: Option<PendingSigning>,
    pub contract: Option<PlayerClubContract>,
    pub is_on_loan: bool,
    pub loan_from_club_id: Option<u32>,
    pub is_force_match_selection: bool,
    pub release_reason: Option<FreeAgentReleaseReason>,
    pub free_agent_state: Option<FreeAgentMarketState>,
    pub pending_pre_contract: Option<PreContractAgreement>,
}

/// Whether one of the languages of the country is spoken fluently.
pub open spec fn speaks_local(languages: Seq<PlayerLanguage>, code: Seq<char>) -> bool {
    code.len() == 0 || exists|i: int|
        0 <= i < crate::language::country_languages(code).len()
            && crate::language::speaks_fluently(
            languages,
            #[trigger] crate::language::country_languages(code)[i],
        )
}

impl Player {
    /// The appearances of the spell, from the start and from the bench.
    pub open spec fn appearances(self) -> int {
        self.statistics.played + self.statistics.played_subs
    }

    /// Whether the player speaks the language fluently.
    fn speaks(&self, language: Language) -> (r: bool)
        ensures
            r == crate::language::speaks_fluently(self.languages@, language),
    {
        let mut i: usize = 0;
        while i < self.languages.len()
            invariant
                i <= self.languages@.len(),
                forall|j: int|
                    0 <= j < i ==> !((#[trigger] self.languages@[j]).language == language
                        && self.languages@[j].fluent()),
            decreases self.languages@.len() - i,
        {
            let l = self.languages[i];
            if l.language == language && (l.is_native || l.proficiency >= 70) {
                assert(self.languages@[i as int].language == language);
                return true;
            }
            i = i + 1;
        }
        false
    }

    /// Whether the player speaks a language of the country well enough to feel at home. An
    /// empty code stands for a country that is not known, and is no obstacle.
    pub fn speaks_local_language(&self, country_code: &str) -> (r: bool)
        ensures
            r == speaks_local(self.languages@, country_code@),
    {
        if country_code.unicode_len() == 0 {
            return true;
        }
        let languages = Language::from_country_code(country_code);
        let mut i: usize = 0;
        while i < languages.len()
            invariant
                i <= languages@.len(),
                languages@ == crate::language::country_languages(country_code@),
                forall|j: int|
                    0 <= j < i ==> !crate::language::speaks_fluently(
                        self.languages@,
                        #[trigger] languages@[j],
                    ),
            decreases languages@.len() - i,
        {
            if self.speaks(languages[i]) {
                assert(crate::language::speaks_fluently(
                    self.languages@,
                    crate::language::country_languages(country_code@)[i as int],
                ));
                return true;
            }
            i = i + 1;
        }
        assert(!(exists|k: int|
            0 <= k < crate::language::country_languages(country_code@).len()
                && crate::language::speaks_fluently(
                self.languages@,
                #[trigger] crate::language::country_languages(country_code@)[k],
            )));
        false
    }

    /// Whether the club is one of the player's favourites.
    pub fn is_favorite_club(&self, club_id: u32) -> (r: bool)
        ensures
            r == self.favorite_clubs@.contains(club_id),
    {
        let mut i: usize = 0;
        while i < self.favorite_clubs.len()
            invariant
                i <= self.favorite_clubs@.len(),
                forall|j: int| 0 <= j < i ==> self.favorite_clubs@[j] != club_id,
            decreases self.favorite_clubs@.len() - i,
        {
            if self.favorite_clubs[i] == club_id {
                assert(self.favorite_clubs@[i as int] == club_id);
                return true;
            }
            i = i + 1;
        }
        false
    }

    /// Whether the club is still bound by the plan it signed the player with. Automatic squad
    /// cuts leave such a player alone.
    pub fn signing_protection_active(&self, date: Date) -> (r: bool)
        requires
            self.statistics.played + self.statistics.played_subs <= u16::MAX,
        ensures
            r == (self.plan is Some && self.plan->0.binding(date, self.appearances())),
    {
        match &self.plan {
            Some(plan) => {
                let appearances: u16 = self.statistics.total_games();
                !plan.is_evaluated(date, appearances) && !plan.is_expired(date)
            },
            None => false,
        }
    }

    /// The days since the player's last move, where he made one.
    pub fn days_since_transfer(&self, now: Date) -> (r: Option<i64>)
        ensures
            r == match self.last_transfer_date {
                Some(d) => Some((now.days - d.days) as i64),
                None => None,
            },
    {
        match self.last_transfer_date {
            Some(d) => Some(now.days_since(d)),
            None => None,
        }
    }
}

/// Who is at home in a country: whoever has one of its languages as a mother tongue or at 70 points,
/// and everybody where the country is not known.
pub proof fn lemma_at_home_in_a_country(languages: Seq<PlayerLanguage>, code: Seq<char>)
    ensures
        speaks_local(languages, code) <==> code.len() == 0 || exists|i: int|
            0 <= i < languages.len() && ((#[trigger] languages[i]).is_native
                || languages[i].proficiency >= 70) && crate::language::country_languages(
                code,
            ).contains(languages[i].language),
{
    let s = crate::language::country_languages(code);
    if code.len() > 0 && speaks_local(languages, code) {
        let k = choose|k: int|
            0 <= k < s.len() && crate::language::speaks_fluently(languages, #[trigger] s[k]);
        let i = choose|i: int|
            0 <= i < languages.len() && (#[trigger] languages[i]).language == s[k]
                && languages[i].fluent();
        assert(s.contains(languages[i].language));
    }
    if exists|i: int|
        0 <= i < languages.len() && ((#[trigger] languages[i]).is_native
            || languages[i].proficiency >= 70) && s.contains(languages[i].language) {
        let i = choose|i: int|
            0 <= i < languages.len() && ((#[trigger] languages[i]).is_native
                || languages[i].proficiency >= 70) && s.contains(languages[i].language);
        let k = choose|k: int| 0 <= k < s.len() && s[k] == languages[i].language;
        assert(languages[i].fluent());
        assert(crate::language::speaks_fluently(languages, s[k]));
    }
}

} // verus!
