//! The flags that a player carries.

use crate::date::Date;
#[allow(unused_imports)]
use vstd::prelude::*;

verus! {

/// A flag that a player can carry.
#[derive(Clone, Copy, Debug, PartialEq, Eq, Hash, Structural)]
pub enum PlayerStatusType {
    /// When a player is absent from the club without permission.
    Abs,
    /// The player has had a bid from another club accepted.
    Bid,
    /// An out-of-contract player still with a club.
    Ctr,
    /// The player is cup-tied: he played in the competition for another club.
    Cup,
    /// The player is on an MLS developmental contract.
    Dev,
    /// The player has been selected in the MLS Draft.
    Dft,
    /// Another club has made a transfer enquiry about the player.
    Enq,
    /// A player who counts as a foreign player in a competition.
    Fgn,
    /// A player who wants to leave the club on a free transfer at the end of the season.
    Frt,
    /// The player is concerned about his future at the club.
    Fut,
    /// The player counts towards the Home Grown quota necessary for a competition.
    HG,
    /// A player currently on holiday.
    Hol,
    /// Ineligible for the next match.
    Ine,
    /// The player is injured.
    Inj,
    /// The player is away on international duty.
    Int,
    /// The player is away on under-21 international duty.
    IntU21,
    /// The player is short of match fitness.
    Lmp,
    /// Player is available for loan.
    Loa,
    /// The player is learning from a team-mate (see Tut below).
    Lrn,
    /// The player is transfer listed.
    Lst,
    /// The player has reacted to a media comment made by you.
    PR,
    /// The player has requested to leave the club.
    Req,
    /// The player is retiring at the end of the season.
    Ret,
    /// The player is jaded and in need of a rest.
    Rst,
    /// The player is being scouted by your scouts.
    Sct,
    /// The player is an MLS Senior International - a non domestic player aged 25+.
    SI,
    /// The player has some slight concerns.
    Slt,
    /// The player is suspended.
    Sus,
    /// The player has agreed a transfer for the next window.
    Trn,
    /// The player is travelling to or from international duty.
    Trv,
    /// The player is tutoring a team-mate.
    Tut,
    /// The player is unfit, and shouldn't be selected unless in case of an emergency.
    Unf,
    /// A player is unhappy with his role or an event/action.
    Unh,
    /// The player is unregistered for a competition.
    Unr,
    /// The player has been withdrawn from international duty by his club manager.
    Wdn,
    /// The player is wanted by another club.
    Wnt,
    /// The player has no work permit and is unable to play.
    Wp,
    /// The player is one yellow card away from a suspension.
    Yel,
    /// The player is an MLS Youth International - a non domestic player aged 24 or under.
    YI,
    /// The player is on a youth contract and is not yet on professional terms.
    Yth,
}

/// A flag and the day since when it is carried.
#[derive(Clone, Copy, Debug, PartialEq, Eq, Structural)]
pub struct StatusData {
    pub start_date: Date,
    pub status: PlayerStatusType,
}

impl StatusData {
    /// A flag carried from `start_date` on.
    pub fn new(start_date: Date, status: PlayerStatusType) -> (r: Self)
        ensures
            r == (StatusData { start_date, status }),
    {
        StatusData { start_date, status }
    }
}

/// The flags of a player, in the order in which he got them.
#[derive(Clone, Debug)]
pub struct PlayerStatus {
    pub statuses: Vec<StatusData>,
}

/// Whether `s` holds the flag.
pub open spec fn holds(s: Seq<StatusData>, status: PlayerStatusType) -> bool {
    exists|i: int| 0 <= i < s.len() && (#[trigger] s[i]).status == status
}

/// Whether `i` is the first place of the flag in `s`.
pub open spec fn first_at(s: Seq<StatusData>, status: PlayerStatusType, i: int) -> bool {
    &&& 0 <= i < s.len()
    &&& s[i].status == status
    &&& forall|j: int| 0 <= j < i ==> (#[trigger] s[j]).status != status
}

/// Whether every flag is held at most once.
pub open spec fn distinct(s: Seq<StatusData>) -> bool {
    forall|i: int, j: int|
        0 <= i < j < s.len() ==> (#[trigger] s[i]).status != (#[trigger] s[j]).status
}

impl PlayerStatus {
    /// Whether every flag is held at most once.
    pub open spec fn wf(self) -> bool {
        distinct(self.statuses@)
    }

    /// No flags.
    pub fn new() -> (r: Self)
        ensures
            r.statuses@ == Seq::<StatusData>::empty(),
            r.wf(),
    {
        PlayerStatus { statuses: Vec::new() }
    }

    /// The first place of the flag.
    fn position(&self, status: PlayerStatusType) -> (r: Option<usize>)
        ensures
            match r {
                Some(i) => first_at(self.statuses@, status, i as int),
                None => !holds(self.statuses@, status),
            },
    {
        let mut i: usize = 0;
        while i < self.statuses.len()
            invariant
                i <= self.statuses@.len(),
                forall|j: int| 0 <= j < i ==> (#[trigger] self.statuses@[j]).status != status,
            decreases self.statuses@.len() - i,
        {
            if self.statuses[i].status == status {
                return Some(i);
            }
            i = i + 1;
        }
        None
    }

    /// Adds a flag that the player does not carry yet. One that he carries keeps its first day.
    pub fn add(&mut self, start_date: Date, status: PlayerStatusType)
        ensures
            final(self).statuses@ == if holds(old(self).statuses@, status) {
                old(self).statuses@
            } else {
                old(self).statuses@.push((StatusData { start_date, status }))
            },
            holds(final(self).statuses@, status),
            old(self).wf() ==> final(self).wf(),
    {
        if self.has(status) {
            return;
        }
        let ghost before = self.statuses@;
        self.statuses.push(StatusData::new(start_date, status));
        assert(self.statuses@[before.len() as int].status == status);
    }

    /// Takes the flag away, if the player carries it.
    pub fn remove(&mut self, status: PlayerStatusType)
        ensures
            !holds(old(self).statuses@, status) ==> final(self).statuses@ == old(self).statuses@,
            holds(old(self).statuses@, status) ==> exists|i: int|
                #[trigger] first_at(old(self).statuses@, status, i) && final(self).statuses@
                    == old(self).statuses@.remove(i),
            old(self).wf() ==> final(self).wf() && !holds(final(self).statuses@, status),
    {
        let ghost before = self.statuses@;
        match self.position(status) {
            Some(i) => {
                self.statuses.remove(i);
                assert(first_at(before, status, i as int));
                assert(distinct(before) ==> distinct(self.statuses@) && !holds(
                    self.statuses@,
                    status,
                )) by {
                    if distinct(before) {
                        assert forall|k: int| 0 <= k < self.statuses@.len() implies (
                        #[trigger] self.statuses@[k]).status != status by {
                            if k >= i {
                                assert(self.statuses@[k] == before[k + 1]);
                            } else {
                                assert(self.statuses@[k] == before[k]);
                            }
                        }
                        assert forall|a: int, b: int| 0 <= a < b < self.statuses@.len() implies (
                        #[trigger] self.statuses@[a]).status != (
                        #[trigger] self.statuses@[b]).status by {
                            let x = if a >= i { a + 1 } else { a };
                            let y = if b >= i { b + 1 } else { b };
                            assert(self.statuses@[a] == before[x]);
                            assert(self.statuses@[b] == before[y]);
                        }
                    }
                }
            },
            None => {},
        }
    }

    /// The flags, in order.
    pub fn get(&self) -> (r: Vec<PlayerStatusType>)
        ensures
            r@ == self.statuses@.map_values(|s: StatusData| s.status),
    {
        let mut out: Vec<PlayerStatusType> = Vec::new();
        let mut i: usize = 0;
        while i < self.statuses.len()
            invariant
                i <= self.statuses@.len(),
                out@.len() == i,
                forall|j: int| 0 <= j < i ==> #[trigger] out@[j] == self.statuses@[j].status,
            decreases self.statuses@.len() - i,
        {
            out.push(self.statuses[i].status);
            i = i + 1;
        }
        out
    }

    /// Whether the player carries the flag.
    pub fn has(&self, status: PlayerStatusType) -> (r: bool)
        ensures
            r == holds(self.statuses@, status),
    {
        match self.position(status) {
            Some(i) => {
                assert(self.statuses@[i as int].status == status);
                true
            },
            None => false,
        }
    }

    /// The days for which the flag has been carried, where it is.
    pub fn held_for_days(&self, status: PlayerStatusType, now: Date) -> (r: Option<i64>)
        ensures
            r is Some <==> holds(self.statuses@, status),
            forall|i: int| #[trigger]
                first_at(self.statuses@, status, i) ==> r == Some(
                    (now.days - self.statuses@[i].start_date.days) as i64,
                ),
    {
        match self.position(status) {
            Some(i) => {
                assert(self.statuses@[i as int].status == status);
                Some(now.days_since(self.statuses[i].start_date))
            },
            None => None,
        }
    }

    /// Whether the player is away with a national team of any age group.
    pub fn is_on_international_duty(&self) -> (r: bool)
        ensures
            r == (holds(self.statuses@, PlayerStatusType::Int) || holds(
                self.statuses@,
                PlayerStatusType::IntU21,
            )),
    {
        self.has(PlayerStatusType::Int) || self.has(PlayerStatusType::IntU21)
    }
}

/// Taking away a flag that was just added leaves the flags as they were.
pub proof fn lemma_remove_undoes_add(
    before: Seq<StatusData>,
    added: StatusData,
    i: int,
)
    requires
        !holds(before, added.status),
        first_at(before.push(added), added.status, i),
    ensures
        before.push(added).remove(i) == before,
{
    if i < before.len() {
        assert(before[i].status == added.status);
    }
    assert(before.push(added).remove(i) =~= before);
}

/// A flag has one first place.
pub proof fn lemma_first_at_unique(s: Seq<StatusData>, status: PlayerStatusType, i: int, j: int)
    requires
        first_at(s, status, i),
        first_at(s, status, j),
    ensures
        i == j,
{
    if i < j {
        assert(s[i].status == status);
    } else if j < i {
        assert(s[j].status == status);
    }
}

/// A spell goes on while the flag is carried: adding it again on a later day does not shorten
/// the days it has been held, and no other flag that is added changes them.
pub proof fn lemma_spell_survives_add(
    before: Seq<StatusData>,
    added: StatusData,
    status: PlayerStatusType,
    i: int,
)
    requires
        first_at(before, status, i),
    ensures
        first_at(
            if holds(before, added.status) {
                before
            } else {
                before.push(added)
            },
            status,
            i,
        ),
        holds(before, added.status) || before.push(added)[i] == before[i],
{
}

} // verus!
