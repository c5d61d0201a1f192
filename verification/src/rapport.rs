//! The rapport between a player and the coaches who work with him.
//!
//! Trust is hard to build and easy to lose: a bad event costs half as much
//! again as a good one earns, and without contact the score drifts back to
//! neutral.

use crate::date::Date;
#[allow(unused_imports)]
use vstd::prelude::*;

verus! {

/// The lowest score: the coach has lost the player.
pub const RAPPORT_MIN: i16 = -50;

/// The highest score: the coach has the player's full trust.
pub const RAPPORT_MAX: i16 = 100;

/// The rapport with one coach.
#[derive(Clone, Copy, Debug, PartialEq, Eq, Structural)]
pub struct CoachRapport {
    pub coach_id: u32,
    /// Between [`RAPPORT_MIN`] and [`RAPPORT_MAX`]; zero is neutral.
    pub score: i16,
    /// The last day of contact.
    pub last_touched: Date,
    /// The days trained together.
    pub shared_days: u32,
}

/// The rapport of a player with his coaches, one entry each.
#[derive(Clone, Debug)]
pub struct PlayerRapport {
    pub coaches: Vec<CoachRapport>,
}

/// The score, kept within its bounds.
pub open spec fn bounded(score: int) -> int {
    if score < RAPPORT_MIN {
        RAPPORT_MIN as int
    } else if score > RAPPORT_MAX {
        RAPPORT_MAX as int
    } else {
        score
    }
}

/// Whether `i` is the first place of the coach in `s`.
pub open spec fn first_at(s: Seq<CoachRapport>, coach_id: u32, i: int) -> bool {
    &&& 0 <= i < s.len()
    &&& s[i].coach_id == coach_id
    &&& forall|j: int| 0 <= j < i ==> (#[trigger] s[j]).coach_id != coach_id
}

/// Whether `s` knows the coach.
pub open spec fn knows(s: Seq<CoachRapport>, coach_id: u32) -> bool {
    exists|i: int| 0 <= i < s.len() && (#[trigger] s[i]).coach_id == coach_id
}

/// The entry of a coach; a neutral one from `now` where there is none.
pub open spec fn entry(s: Seq<CoachRapport>, coach_id: u32, now: Date) -> CoachRapport {
    if knows(s, coach_id) {
        s[choose|i: int| first_at(s, coach_id, i)]
    } else {
        CoachRapport { coach_id, score: 0, last_touched: now, shared_days: 0 }
    }
}

/// `s` with the entry of a coach replaced, or added where there was none.
pub open spec fn upsert(s: Seq<CoachRapport>, e: CoachRapport) -> Seq<CoachRapport> {
    if knows(s, e.coach_id) {
        s.update(choose|i: int| first_at(s, e.coach_id, i), e)
    } else {
        s.push(e)
    }
}

/// The score with a coach, zero where there is no entry.
pub open spec fn score_with(s: Seq<CoachRapport>, coach_id: u32) -> int {
    if knows(s, coach_id) {
        s[choose|i: int| first_at(s, coach_id, i)].score as int
    } else {
        0
    }
}

/// The entry after so many days of training together: one point more while it is below 20.
pub open spec fn trained(e: CoachRapport, now: Date, days: u8) -> CoachRapport {
    CoachRapport {
        score: bounded(e.score + (if e.score < 20 { 1int } else { 0 })) as i16,
        last_touched: now,
        shared_days: if e.shared_days + days > u32::MAX {
            u32::MAX
        } else {
            (e.shared_days + days) as u32
        },
        ..e
    }
}

/// What a bad event of size `amount` costs: half as much again, rounded toward zero.
pub open spec fn hit(amount: i16) -> int {
    let tripled = if 3 * amount > i16::MAX {
        i16::MAX as int
    } else if 3 * amount < i16::MIN {
        i16::MIN as int
    } else {
        3 * amount
    };
    if tripled >= 0 {
        tripled / 2
    } else {
        -((-tripled) / 2)
    }
}

/// The entry after a good event.
pub open spec fn praised(e: CoachRapport, now: Date, amount: i16) -> CoachRapport {
    CoachRapport { score: bounded(e.score + amount) as i16, last_touched: now, ..e }
}

/// The entry after a bad event.
pub open spec fn blamed(e: CoachRapport, now: Date, amount: i16) -> CoachRapport {
    CoachRapport { score: bounded(e.score - hit(amount)) as i16, last_touched: now, ..e }
}

/// The entry after a month without contact; `None` where it is forgotten.
pub open spec fn faded(e: CoachRapport, now: Date) -> Option<CoachRapport> {
    let days = now.days - e.last_touched.days;
    if days < 21 {
        Some(e)
    } else {
        let score = if e.score > 0 {
            e.score - 1
        } else if e.score < 0 {
            e.score + 1
        } else {
            0
        };
        if score != 0 || days < 180 {
            Some(CoachRapport { score: score as i16, ..e })
        } else {
            None
        }
    }
}

/// The entries after a month of decay, in order.
pub open spec fn all_faded(s: Seq<CoachRapport>, now: Date) -> Seq<CoachRapport>
    decreases s.len(),
{
    if s.len() == 0 {
        Seq::empty()
    } else {
        let rest = all_faded(s.drop_last(), now);
        match faded(s.last(), now) {
            Some(e) => rest.push(e),
            None => rest,
        }
    }
}

/// `x`, kept between `low` and `high`.
pub open spec fn clamped(x: int, low: int, high: int) -> int {
    if x < low {
        low
    } else if x > high {
        high
    } else {
        x
    }
}

/// The factor on training gains, in ten-thousandths. A strained relation costs twice what a good
/// one of the same strength brings: a broken one, at -50, costs fifteen percent.
pub open spec fn training_factor(score: int, shared_days: int) -> int {
    let by_score = if score >= 0 {
        15 * score
    } else {
        30 * score
    };
    clamped(10000 + by_score + (if shared_days > 200 { 200int } else { 0 }), 8500, 12000)
}

/// The factor on the effect of a team talk, in thousandths.
pub open spec fn talk_factor(score: int, positive_tone: bool) -> int {
    if positive_tone {
        clamped(1000 + 4 * score, 600, 1400)
    } else if score >= 0 {
        clamped(1000 - 3 * score, 700, 1000)
    } else {
        clamped(1000 - 5 * score, 1000, 1500)
    }
}

proof fn lemma_knows_first(s: Seq<CoachRapport>, coach_id: u32, n: int)
    requires
        0 <= n < s.len(),
        s[n].coach_id == coach_id,
    ensures
        exists|i: int| first_at(s, coach_id, i),
    decreases n,
{
    if forall|j: int| 0 <= j < n ==> (#[trigger] s[j]).coach_id != coach_id {
        assert(first_at(s, coach_id, n));
    } else {
        let j = choose|j: int| 0 <= j < n && (#[trigger] s[j]).coach_id == coach_id;
        lemma_knows_first(s, coach_id, j);
    }
}

proof fn lemma_first_unique(s: Seq<CoachRapport>, coach_id: u32, i: int)
    requires
        first_at(s, coach_id, i),
    ensures
        knows(s, coach_id),
        i == choose|k: int| first_at(s, coach_id, k),
{
    assert(s[i].coach_id == coach_id);
    let k = choose|k: int| first_at(s, coach_id, k);
    assert(first_at(s, coach_id, k));
    if i < k {
        assert(s[i].coach_id != coach_id);
    } else if k < i {
        assert(s[k].coach_id != coach_id);
    }
}

impl PlayerRapport {
    /// Whether every score is within its bounds and no coach has two entries.
    pub open spec fn wf(self) -> bool {
        &&& forall|i: int|
            0 <= i < self.coaches@.len() ==> RAPPORT_MIN <= (#[trigger] self.coaches@[i]).score
                <= RAPPORT_MAX
        &&& forall|i: int, j: int|
            0 <= i < j < self.coaches@.len() ==> (#[trigger] self.coaches@[i]).coach_id != (
            #[trigger] self.coaches@[j]).coach_id
    }

    /// No coaches.
    pub fn new() -> (r: Self)
        ensures
            r.coaches@ == Seq::<CoachRapport>::empty(),
            r.wf(),
    {
        PlayerRapport { coaches: Vec::new() }
    }

    fn position(&self, coach_id: u32) -> (r: Option<usize>)
        ensures
            match r {
                Some(i) => first_at(self.coaches@, coach_id, i as int) && knows(
                    self.coaches@,
                    coach_id,
                ) && i == choose|k: int| first_at(self.coaches@, coach_id, k),
                None => !knows(self.coaches@, coach_id),
            },
    {
        let mut i: usize = 0;
        while i < self.coaches.len()
            invariant
                i <= self.coaches@.len(),
                forall|j: int| 0 <= j < i ==> (#[trigger] self.coaches@[j]).coach_id != coach_id,
            decreases self.coaches@.len() - i,
        {
            if self.coaches[i].coach_id == coach_id {
                proof {
                    lemma_first_unique(self.coaches@, coach_id, i as int);
                }
                return Some(i);
            }
            i = i + 1;
        }
        None
    }

    /// The entry of a coach; a neutral one where there is none.
    fn entry(&self, coach_id: u32, now: Date) -> (r: CoachRapport)
        ensures
            r == entry(self.coaches@, coach_id, now),
            r.coach_id == coach_id,
            self.wf() ==> RAPPORT_MIN <= r.score <= RAPPORT_MAX,
    {
        match self.position(coach_id) {
            Some(i) => self.coaches[i],
            None => CoachRapport { coach_id, score: 0, last_touched: now, shared_days: 0 },
        }
    }

    /// Replaces the entry of a coach, or adds it.
    fn store(&mut self, e: CoachRapport)
        ensures
            final(self).coaches@ == upsert(old(self).coaches@, e),
            old(self).wf() && RAPPORT_MIN <= e.score <= RAPPORT_MAX ==> final(self).wf(),
    {
        match self.position(e.coach_id) {
            Some(i) => {
                self.coaches.set(i, e);
            },
            None => {
                self.coaches.push(e);
            },
        }
    }

    /// Records training days with a coach. Contact alone lifts the score to 20 at most.
    pub fn accrue_training_day(&mut self, coach_id: u32, now: Date, days: u8)
        requires
            old(self).wf(),
        ensures
            final(self).wf(),
            ({
                let e = entry(old(self).coaches@, coach_id, now);
                final(self).coaches@ == upsert(old(self).coaches@, trained(e, now, days))
            }),
    {
        let mut e = self.entry(coach_id, now);
        e.shared_days = e.shared_days.saturating_add(days as u32);
        e.last_touched = now;
        if e.score < 20 {
            e.score = e.score + 1;
        }
        self.store(e);
    }

    /// Records a good event.
    pub fn on_positive(&mut self, coach_id: u32, now: Date, amount: i16)
        requires
            old(self).wf(),
        ensures
            final(self).wf(),
            ({
                let e = entry(old(self).coaches@, coach_id, now);
                final(self).coaches@ == upsert(old(self).coaches@, praised(e, now, amount))
            }),
    {
        let mut e = self.entry(coach_id, now);
        e.last_touched = now;
        e.score = PlayerRapport::clamp_score(e.score as i32 + amount as i32);
        self.store(e);
    }

    /// Records a bad event, which costs half as much again.
    pub fn on_negative(&mut self, coach_id: u32, now: Date, amount: i16)
        requires
            old(self).wf(),
        ensures
            final(self).wf(),
            ({
                let e = entry(old(self).coaches@, coach_id, now);
                final(self).coaches@ == upsert(old(self).coaches@, blamed(e, now, amount))
            }),
    {
        let mut e = self.entry(coach_id, now);
        e.last_touched = now;
        let mut tripled: i32 = amount as i32 * 3;
        if tripled > 32767 {
            tripled = 32767;
        } else if tripled < -32768 {
            tripled = -32768;
        }
        let cost: i32 = if tripled >= 0 {
            tripled / 2
        } else {
            -((-tripled) / 2)
        };
        e.score = PlayerRapport::clamp_score(e.score as i32 - cost);
        self.store(e);
    }

    fn clamp_score(score: i32) -> (r: i16)
        ensures
            r == bounded(score as int),
            RAPPORT_MIN <= r <= RAPPORT_MAX,
    {
        if score < -50 {
            RAPPORT_MIN
        } else if score > 100 {
            RAPPORT_MAX
        } else {
            score as i16
        }
    }

    /// The score with a coach, zero where there is no entry.
    pub fn score(&self, coach_id: u32) -> (r: i16)
        ensures
            r == score_with(self.coaches@, coach_id),
            self.wf() ==> RAPPORT_MIN <= r <= RAPPORT_MAX,
    {
        match self.position(coach_id) {
            Some(i) => self.coaches[i].score,
            None => 0,
        }
    }

    /// A month passes: scores without contact drift to neutral, and neutral ones are forgotten
    /// after half a year.
    pub fn decay(&mut self, now: Date)
        requires
            old(self).wf(),
        ensures
            final(self).coaches@ == all_faded(old(self).coaches@, now),
            final(self).wf(),
    {
        let ghost before = self.coaches@;
        let mut kept: Vec<CoachRapport> = Vec::new();
        let mut i: usize = 0;
        assert(before.take(0) =~= Seq::empty());
        while i < self.coaches.len()
            invariant
                self.coaches@ == before,
                i <= before.len(),
                kept@ == all_faded(before.take(i as int), now),
                self.wf(),
            decreases before.len() - i,
        {
            let mut e = self.coaches[i];
            assert(before.take(i + 1).drop_last() =~= before.take(i as int));
            assert(before.take(i + 1).last() == e);
            let days: i64 = now.days_since(e.last_touched);
            if days < 21 {
                kept.push(e);
            } else {
                if e.score > 0 {
                    e.score = e.score - 1;
                } else if e.score < 0 {
                    e.score = e.score + 1;
                }
                if e.score != 0 || days < 180 {
                    kept.push(e);
                }
            }
            i = i + 1;
        }
        assert(before.take(i as int) =~= before);
        proof {
            lemma_faded_wf(*self, now);
        }
        self.coaches = kept;
    }

    /// The factor on training gains under a coach, in ten-thousandths.
    pub fn training_multiplier(&self, coach_id: u32) -> (r: u32)
        ensures
            r == training_factor(
                score_with(self.coaches@, coach_id),
                if knows(self.coaches@, coach_id) {
                    self.coaches@[choose|i: int| first_at(self.coaches@, coach_id, i)].shared_days
                        as int
                } else {
                    0
                },
            ),
    {
        match self.position(coach_id) {
            Some(i) => {
                let e = self.coaches[i];
                let score: i32 = e.score as i32;
                let mut factor: i32 = if score >= 0 {
                    10000 + 15 * score
                } else {
                    10000 + 30 * score
                };
                if e.shared_days > 200 {
                    factor = factor + 200;
                }
                if factor < 8500 {
                    8500
                } else if factor > 12000 {
                    12000
                } else {
                    factor as u32
                }
            },
            None => 10000,
        }
    }

    /// The factor on the effect of a team talk by a coach, in thousandths.
    pub fn talk_reception_multiplier(&self, coach_id: u32, positive_tone: bool) -> (r: u32)
        ensures
            r == talk_factor(score_with(self.coaches@, coach_id), positive_tone),
    {
        let score: i32 = self.score(coach_id) as i32;
        if positive_tone {
            let factor: i32 = 1000 + 4 * score;
            if factor < 600 {
                600
            } else if factor > 1400 {
                1400
            } else {
                factor as u32
            }
        } else if score >= 0 {
            let factor: i32 = 1000 - 3 * score;
            if factor < 700 {
                700
            } else {
                factor as u32
            }
        } else {
            let factor: i32 = 1000 - 5 * score;
            if factor > 1500 {
                1500
            } else {
                factor as u32
            }
        }
    }
}

impl Default for PlayerRapport {
    fn default() -> (r: Self)
        ensures
            r.coaches@ == Seq::<CoachRapport>::empty(),
    {
        PlayerRapport::new()
    }
}

proof fn lemma_faded_wf(r: PlayerRapport, now: Date)
    requires
        r.wf(),
    ensures
        forall|i: int|
            0 <= i < all_faded(r.coaches@, now).len() ==> RAPPORT_MIN <= (#[trigger] all_faded(
                r.coaches@,
                now,
            )[i]).score <= RAPPORT_MAX,
        forall|i: int, j: int|
            0 <= i < j < all_faded(r.coaches@, now).len() ==> (#[trigger] all_faded(
                r.coaches@,
                now,
            )[i]).coach_id != (#[trigger] all_faded(r.coaches@, now)[j]).coach_id,
{
    lemma_faded_parts(r.coaches@, now);
    let s = r.coaches@;
    let t = all_faded(s, now);
    assert forall|i: int| 0 <= i < t.len() implies RAPPORT_MIN <= (#[trigger] t[i]).score
        <= RAPPORT_MAX by {
        let k = faded_sources(s, now)[i];
        assert(faded(s[k], now) == Some(t[i]));
    }
    assert forall|i: int, j: int| 0 <= i < j < t.len() implies (#[trigger] t[i]).coach_id != (
    #[trigger] t[j]).coach_id by {
        let a = faded_sources(s, now)[i];
        let b = faded_sources(s, now)[j];
        assert(s[a].coach_id != s[b].coach_id);
    }
}

/// The places of `s` that the entries of `all_faded(s, now)` come from.
spec fn faded_sources(s: Seq<CoachRapport>, now: Date) -> Seq<int>
    decreases s.len(),
{
    if s.len() == 0 {
        Seq::empty()
    } else {
        let rest = faded_sources(s.drop_last(), now);
        match faded(s.last(), now) {
            Some(e) => rest.push(s.len() - 1),
            None => rest,
        }
    }
}

proof fn lemma_faded_parts(s: Seq<CoachRapport>, now: Date)
    ensures
        faded_sources(s, now).len() == all_faded(s, now).len(),
        forall|i: int|
            0 <= i < all_faded(s, now).len() ==> {
                let k = #[trigger] faded_sources(s, now)[i];
                0 <= k < s.len() && faded(s[k], now) == Some(all_faded(s, now)[i])
            },
        forall|i: int, j: int|
            0 <= i < j < all_faded(s, now).len() ==> (#[trigger] faded_sources(s, now)[i]) < (
            #[trigger] faded_sources(s, now)[j]),
    decreases s.len(),
{
    if s.len() > 0 {
        lemma_faded_parts(s.drop_last(), now);
    }
}

/// Decay never turns trust into distrust or the other way round, and never strengthens either.
pub proof fn lemma_decay_drifts_to_neutral(e: CoachRapport, now: Date)
    ensures
        match faded(e, now) {
            Some(f) => {
                &&& f.coach_id == e.coach_id
                &&& e.score >= 0 ==> 0 <= f.score <= e.score
                &&& e.score <= 0 ==> e.score <= f.score <= 0
            },
            None => -1 <= e.score <= 1,
        },
{
}

/// After an event the score is what the event left, and every other coach's score is as it was.
pub proof fn lemma_upsert(s: Seq<CoachRapport>, e: CoachRapport, other: u32)
    requires
        other != e.coach_id,
    ensures
        score_with(upsert(s, e), e.coach_id) == e.score,
        score_with(upsert(s, e), other) == score_with(s, other),
{
    let t = upsert(s, e);
    if knows(s, e.coach_id) {
        let n = choose|n: int| 0 <= n < s.len() && (#[trigger] s[n]).coach_id == e.coach_id;
        lemma_knows_first(s, e.coach_id, n);
        let i = choose|i: int| first_at(s, e.coach_id, i);
        assert(first_at(t, e.coach_id, i));
        lemma_first_unique(t, e.coach_id, i);
        if knows(s, other) {
            let m = choose|m: int| 0 <= m < s.len() && (#[trigger] s[m]).coach_id == other;
            lemma_knows_first(s, other, m);
            let j = choose|j: int| first_at(s, other, j);
            assert(first_at(t, other, j));
            lemma_first_unique(t, other, j);
        } else {
            assert(!knows(t, other)) by {
                if knows(t, other) {
                    let m = choose|m: int| 0 <= m < t.len() && (#[trigger] t[m]).coach_id == other;
                    assert(m != i);
                    assert(s[m].coach_id == other);
                }
            }
        }
    } else {
        assert(first_at(t, e.coach_id, s.len() as int)) by {
            assert forall|j: int| 0 <= j < s.len() implies (#[trigger] t[j]).coach_id
                != e.coach_id by {
                assert(s[j].coach_id != e.coach_id);
            }
        }
        lemma_first_unique(t, e.coach_id, s.len() as int);
        if knows(s, other) {
            let m = choose|m: int| 0 <= m < s.len() && (#[trigger] s[m]).coach_id == other;
            lemma_knows_first(s, other, m);
            let j = choose|j: int| first_at(s, other, j);
            assert(first_at(t, other, j));
            lemma_first_unique(t, other, j);
        } else {
            assert(!knows(t, other)) by {
                if knows(t, other) {
                    let m = choose|m: int| 0 <= m < t.len() && (#[trigger] t[m]).coach_id == other;
                    assert(m != s.len());
                    assert(s[m].coach_id == other);
                }
            }
        }
    }
}

/// Trust is easier lost than won: a bad event never costs less than an equal good one earns.
pub proof fn lemma_hard_to_build_easy_to_lose(amount: i16)
    requires
        0 <= amount <= 10000,
    ensures
        hit(amount) >= amount,
        2 * hit(amount) <= 3 * amount <= 2 * hit(amount) + 1,
{
}

/// A trusted coach's praise lands harder and his criticism softer; from a coach who lost the
/// player it is the other way round.
pub proof fn lemma_trust_shapes_talks(low: int, high: int)
    requires
        RAPPORT_MIN <= low <= high <= RAPPORT_MAX,
    ensures
        talk_factor(low, true) <= talk_factor(high, true),
        talk_factor(high, false) <= talk_factor(low, false),
        talk_factor(0, true) == 1000,
        talk_factor(0, false) == 1000,
        low < 0 ==> talk_factor(low, true) < 1000 < talk_factor(low, false),
        high > 0 ==> talk_factor(high, false) < 1000 < talk_factor(high, true),
        training_factor(low, 0) <= training_factor(high, 0),
        8500 <= training_factor(low, 0) && training_factor(high, 0) <= 11500,
{
}

/// What training together does: the days add up, and the score rises by a point as long as it is
/// below twenty, no further.
pub proof fn lemma_training_together(e: CoachRapport, now: Date, days: u8)
    requires
        -50 <= e.score <= 100,
    ensures
        ({
            let t = trained(e, now, days);
            &&& e.score < 20 ==> t.score == e.score + 1
            &&& e.score >= 20 ==> t.score == e.score
            &&& e.shared_days + days <= u32::MAX ==> t.shared_days == e.shared_days + days
            &&& t.last_touched == now && t.coach_id == e.coach_id
        }),
{
}

/// What rapport is worth in training, point by point: 15 ten-thousandths for one of trust, twice as
/// much off for one of strain, 200 more after more than 200 days together, and never less than
/// 8500 nor more than 12000.
pub proof fn lemma_rapport_in_training(score: int, days: int)
    requires
        -50 <= score <= 100,
    ensures
        training_factor(0, 0) == 10000,
        0 <= score < 100 ==> training_factor(score + 1, 0) == training_factor(score, 0) + 15,
        -50 <= score < 0 ==> training_factor(score + 1, 0) == training_factor(score, 0) + 30,
        training_factor(-50, 0) == 8500,
        training_factor(score, days) == training_factor(score, 0) + if days > 200 {
            200int
        } else {
            0
        },
        8500 <= training_factor(score, days) <= 12000,
        training_factor(-200, days) == 8500,
        training_factor(200, 201) == 12000,
{
}

/// What rapport is worth in a talk, point by point: four thousandths for praise; for criticism
/// three less from a coach he trusts, and five more from one he does not.
pub proof fn lemma_rapport_in_talks(score: int)
    requires
        -50 <= score < 100,
    ensures
        talk_factor(score + 1, true) == talk_factor(score, true) + 4,
        score >= 0 ==> talk_factor(score + 1, false) == talk_factor(score, false) - 3,
        score < 0 ==> talk_factor(score + 1, false) == talk_factor(score, false) - 5,
        talk_factor(0, true) == 1000,
        talk_factor(0, false) == 1000,
{
}

/// How rapport fades: not within three weeks of contact, then by a point toward neutral each time;
/// and what is neutral is forgotten after half a year.
pub proof fn lemma_rapport_fades(e: CoachRapport, now: Date)
    ensures
        ({
            let days = now.days - e.last_touched.days;
            let f = faded(e, now);
            &&& days < 21 ==> f == Some(e)
            &&& days >= 21 && e.score > 1 ==> f is Some && f->0.score == e.score - 1
            &&& days >= 21 && e.score < -1 ==> f is Some && f->0.score == e.score + 1
            &&& 21 <= days < 180 && -1 <= e.score <= 1 ==> f is Some && f->0.score == 0
            &&& days >= 180 && -1 <= e.score <= 1 ==> f is None
            &&& f is Some ==> f->0.shared_days == e.shared_days && f->0.last_touched
                == e.last_touched
        }),
{
}

/// Scores run from -50 to 100.
pub proof fn lemma_rapport_bounds(score: int)
    ensures
        -50 <= bounded(score) <= 100,
        -50 <= score <= 100 ==> bounded(score) == score,
        score <= -50 ==> bounded(score) == -50,
        score >= 100 ==> bounded(score) == 100,
{
}

/// However far a score were to go, praise counts from 0.6 to 1.4, and criticism from 0.7 to 1.5; and
/// a bad event turned round is a good one of the same size.
pub proof fn lemma_rapport_has_limits(score: int, amount: i16)
    requires
        -10000 <= amount <= 10000,
    ensures
        600 <= talk_factor(score, true) <= 1400,
        700 <= talk_factor(score, false) <= 1500,
        talk_factor(-100, true) == 600,
        talk_factor(100, true) == 1400,
        talk_factor(100, false) == 700,
        talk_factor(-100, false) == 1500,
        hit((-amount) as i16) == -hit(amount),
{
}

/// Praise lifts a score by its size and blame lowers it by half as much again, as far as the scale
/// goes; neither forgets the days together, and each counts as contact. Praise and then as much
/// blame leaves less trust than there was.
pub proof fn lemma_praise_and_blame(e: CoachRapport, now: Date, amount: i16)
    requires
        -50 <= e.score <= 100,
        0 <= amount <= 10000,
    ensures
        ({
            let (p, b) = (praised(e, now, amount), blamed(e, now, amount));
            &&& e.score + amount <= 100 ==> p.score == e.score + amount
            &&& e.score + amount >= 100 ==> p.score == 100
            &&& amount % 2 == 0 && e.score - 3 * (amount / 2) >= -50 ==> b.score == e.score - 3 * (
            amount / 2)
            &&& 2 * (e.score + 50) <= 3 * amount ==> b.score <= -49
            &&& b.score <= e.score <= p.score
            &&& p.last_touched == now && b.last_touched == now
            &&& p.shared_days == e.shared_days && b.shared_days == e.shared_days && p.coach_id
                == e.coach_id && b.coach_id == e.coach_id
            &&& amount > 0 && e.score > -50 ==> blamed(p, now, amount).score <= e.score
        }),
{
}

} // verus!
