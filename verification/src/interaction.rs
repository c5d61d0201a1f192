//! The talks between a player and his manager.

use crate::date::Date;
use crate::measure::Measure;
#[allow(unused_imports)]
use vstd::prelude::*;

verus! {

/// What a talk is about.
#[derive(Clone, Copy, Debug, PartialEq, Eq, Structural)]
pub enum InteractionTopic {
    PlayingTime,
    TacticalRole,
    PoorForm,
    GoodForm,
    Discipline,
    LoanRequest,
    TransferRequest,
    ContractStatus,
    IntegrationSupport,
    Leadership,
    MediaPressure,
    PersonalIssue,
}

/// How the manager puts it.
#[derive(Clone, Copy, Debug, PartialEq, Eq, Structural)]
pub enum InteractionTone {
    Calm,
    Demanding,
    Supportive,
    Honest,
    Evasive,
    Authoritarian,
    Apologetic,
}

/// What comes out of a talk.
#[derive(Clone, Copy, Debug, PartialEq, Eq, Structural)]
pub enum InteractionOutcome {
    Positive,
    Negative,
    Neutral,
    PromiseMade,
}

/// One talk.
#[derive(Clone, Copy, Debug, PartialEq, Eq, Structural)]
pub struct ManagerInteraction {
    pub date: Date,
    pub staff_id: u32,
    pub topic: InteractionTopic,
    pub tone: InteractionTone,
    pub player_mood_before: Measure,
    pub outcome: InteractionOutcome,
    pub promise_created: bool,
    pub relationship_delta: Measure,
    pub morale_delta: Measure,
    /// The first day on which the topic may come up again.
    pub cooldown_until: Date,
}

/// The recent talks, oldest first. At most [`MAX_INTERACTIONS`] are kept.
#[derive(Clone, Debug)]
pub struct ManagerInteractionLog {
    pub entries: Vec<ManagerInteraction>,
}

/// How many talks are kept.
pub const MAX_INTERACTIONS: usize = 32;

/// For how many days a talk is kept.
pub const RETENTION_DAYS: i64 = 365;

/// Whether the topic may not come up on `today`.
pub open spec fn on_cooldown(
    entries: Seq<ManagerInteraction>,
    topic: InteractionTopic,
    today: Date,
) -> bool {
    exists|i: int|
        0 <= i < entries.len() && (#[trigger] entries[i]).topic == topic
            && entries[i].cooldown_until.days > today.days
}

/// Whether `i` is the place of the last talk about the topic.
pub open spec fn last_at(
    entries: Seq<ManagerInteraction>,
    topic: InteractionTopic,
    i: int,
) -> bool {
    &&& 0 <= i < entries.len()
    &&& entries[i].topic == topic
    &&& forall|j: int| i < j < entries.len() ==> (#[trigger] entries[j]).topic != topic
}

/// Whether the talk ended a promise badly, at most `window_days` before `today`.
pub open spec fn broken_promise(e: ManagerInteraction, today: Date, window_days: int) -> bool {
    e.outcome is Negative && e.promise_created && today.days - e.date.days <= window_days
}

/// Whether the talk is recent enough to be kept.
pub open spec fn retained(e: ManagerInteraction, today: Date) -> bool {
    today.days - e.date.days <= RETENTION_DAYS
}

/// The talks after one more: past the bound the oldest is dropped.
pub open spec fn remembered(entries: Seq<ManagerInteraction>, e: ManagerInteraction) -> Seq<
    ManagerInteraction,
> {
    if entries.len() < MAX_INTERACTIONS {
        entries.push(e)
    } else {
        entries.push(e).drop_first()
    }
}

impl ManagerInteractionLog {
    /// Whether the log is within its bound.
    pub open spec fn wf(self) -> bool {
        self.entries@.len() <= MAX_INTERACTIONS
    }

    /// An empty log.
    pub fn new() -> (r: Self)
        ensures
            r.entries@ == Seq::<ManagerInteraction>::empty(),
            r.wf(),
    {
        ManagerInteractionLog { entries: Vec::new() }
    }

    /// Adds a talk. A log that grows past its bound drops the oldest one.
    pub fn push(&mut self, entry: ManagerInteraction)
        ensures
            final(self).entries@ == remembered(old(self).entries@, entry),
            old(self).wf() ==> final(self).wf(),
    {
        self.entries.push(entry);
        if self.entries.len() > MAX_INTERACTIONS {
            self.entries.remove(0);
            assert(self.entries@ =~= old(self).entries@.push(entry).drop_first());
        }
    }

    /// Whether the topic may not come up on `today`, whoever raised it last.
    pub fn topic_on_cooldown(&self, topic: InteractionTopic, today: Date) -> (r: bool)
        ensures
            r == on_cooldown(self.entries@, topic, today),
    {
        let mut i: usize = 0;
        while i < self.entries.len()
            invariant
                i <= self.entries@.len(),
                forall|j: int|
                    0 <= j < i ==> !((#[trigger] self.entries@[j]).topic == topic
                        && self.entries@[j].cooldown_until.days > today.days),
            decreases self.entries@.len() - i,
        {
            let e = &self.entries[i];
            if e.topic == topic && e.cooldown_until.days > today.days {
                assert(self.entries@[i as int].topic == topic);
                return true;
            }
            i = i + 1;
        }
        false
    }

    /// The last talk about a topic.
    pub fn last_for_topic(&self, topic: InteractionTopic) -> (r: Option<&ManagerInteraction>)
        ensures
            match r {
                Some(e) => exists|i: int|
                    #[trigger] last_at(self.entries@, topic, i) && *e == self.entries@[i],
                None => forall|i: int|
                    0 <= i < self.entries@.len() ==> (#[trigger] self.entries@[i]).topic != topic,
            },
    {
        let mut i: usize = self.entries.len();
        while i > 0
            invariant
                i <= self.entries@.len(),
                forall|j: int|
                    i <= j < self.entries@.len() ==> (#[trigger] self.entries@[j]).topic != topic,
            decreases i,
        {
            i = i - 1;
            if self.entries[i].topic == topic {
                assert(last_at(self.entries@, topic, i as int));
                return Some(&self.entries[i]);
            }
        }
        None
    }

    /// How many promises were broken in the last `window_days` days.
    pub fn broken_promise_count(&self, today: Date, window_days: i64) -> (r: usize)
        ensures
            r == self.entries@.filter(
                |e: ManagerInteraction| broken_promise(e, today, window_days as int),
            ).len(),
    {
        let ghost pred = |e: ManagerInteraction| broken_promise(e, today, window_days as int);
        let mut count: usize = 0;
        let mut i: usize = 0;
        assert(self.entries@.take(0) =~= Seq::empty());
        reveal(Seq::filter);
        while i < self.entries.len()
            invariant
                i <= self.entries@.len(),
                count <= i,
                pred == (|e: ManagerInteraction| broken_promise(e, today, window_days as int)),
                count == self.entries@.take(i as int).filter(pred).len(),
            decreases self.entries@.len() - i,
        {
            let e = &self.entries[i];
            assert(self.entries@.take(i + 1).drop_last() =~= self.entries@.take(i as int));
            assert(self.entries@.take(i + 1).last() == *e);
            reveal(Seq::filter);
            if matches!(e.outcome, InteractionOutcome::Negative) && e.promise_created
                && today.days_since(e.date) <= window_days {
                count = count + 1;
            }
            i = i + 1;
        }
        assert(self.entries@.take(i as int) =~= self.entries@);
        count
    }

    /// Drops the talks that are older than a year.
    pub fn decay(&mut self, today: Date)
        ensures
            final(self).entries@ == old(self).entries@.filter(
                |e: ManagerInteraction| retained(e, today),
            ),
            old(self).wf() ==> final(self).wf(),
    {
        let ghost before = self.entries@;
        let ghost pred = |e: ManagerInteraction| retained(e, today);
        let mut kept: Vec<ManagerInteraction> = Vec::new();
        let mut i: usize = 0;
        assert(before.take(0) =~= Seq::empty());
        reveal(Seq::filter);
        while i < self.entries.len()
            invariant
                self.entries@ == before,
                i <= before.len(),
                pred == (|e: ManagerInteraction| retained(e, today)),
                kept@ == before.take(i as int).filter(pred),
            decreases before.len() - i,
        {
            let e = self.entries[i];
            assert(before.take(i + 1).drop_last() =~= before.take(i as int));
            assert(before.take(i + 1).last() == e);
            reveal(Seq::filter);
            if today.days_since(e.date) <= RETENTION_DAYS {
                kept.push(e);
            }
            i = i + 1;
        }
        assert(before.take(i as int) =~= before);
        proof {
            before.lemma_filter_len(pred);
        }
        self.entries = kept;
    }
}

impl Default for ManagerInteractionLog {
    fn default() -> (r: Self)
        ensures
            r.entries@ == Seq::<ManagerInteraction>::empty(),
    {
        ManagerInteractionLog::new()
    }
}

/// For how many days a topic rests after a talk.
pub open spec fn cooldown_days(topic: InteractionTopic) -> int {
    match topic {
        InteractionTopic::PoorForm
        | InteractionTopic::GoodForm
        | InteractionTopic::IntegrationSupport
        | InteractionTopic::MediaPressure => 14,
        InteractionTopic::PlayingTime | InteractionTopic::PersonalIssue => 21,
        InteractionTopic::TacticalRole | InteractionTopic::Discipline => 28,
        InteractionTopic::LoanRequest
        | InteractionTopic::TransferRequest
        | InteractionTopic::Leadership => 60,
        InteractionTopic::ContractStatus => 90,
    }
}

/// For how many days a topic rests after a talk.
pub fn default_cooldown_days(topic: InteractionTopic) -> (r: i64)
    ensures
        r == cooldown_days(topic),
{
    match topic {
        InteractionTopic::PlayingTime => 21,
        InteractionTopic::TacticalRole => 28,
        InteractionTopic::PoorForm => 14,
        InteractionTopic::GoodForm => 14,
        InteractionTopic::Discipline => 28,
        InteractionTopic::LoanRequest => 60,
        InteractionTopic::TransferRequest => 60,
        InteractionTopic::ContractStatus => 90,
        InteractionTopic::IntegrationSupport => 14,
        InteractionTopic::Leadership => 60,
        InteractionTopic::MediaPressure => 14,
        InteractionTopic::PersonalIssue => 21,
    }
}

/// The newest talk is always in the log: pushing it keeps every earlier one but the oldest, and
/// the topic rests until its cooldown is over.
pub proof fn lemma_push_keeps_newest(
    before: Seq<ManagerInteraction>,
    entry: ManagerInteraction,
    after: Seq<ManagerInteraction>,
    today: Date,
)
    requires
        before.len() <= MAX_INTERACTIONS,
        after == if before.len() < MAX_INTERACTIONS {
            before.push(entry)
        } else {
            before.push(entry).drop_first()
        },
    ensures
        after.last() == entry,
        last_at(after, entry.topic, after.len() - 1),
        entry.cooldown_until.days > today.days ==> on_cooldown(after, entry.topic, today),
        forall|i: int| 0 <= i < after.len() - 1 ==> before.contains(#[trigger] after[i]),
{
    assert(after[after.len() - 1] == entry);
    let dropped: int = if before.len() < MAX_INTERACTIONS {
        0
    } else {
        1
    };
    assert forall|i: int| 0 <= i < after.len() - 1 implies before.contains(#[trigger] after[i]) by {
        assert(after[i] == before[i + dropped]);
    }
}

/// A cooldown that is over stays over: a day later no new topic rests.
pub proof fn lemma_cooldown_runs_out(
    entries: Seq<ManagerInteraction>,
    topic: InteractionTopic,
    today: Date,
    later: Date,
)
    requires
        today.days <= later.days,
        on_cooldown(entries, topic, later),
    ensures
        on_cooldown(entries, topic, today),
{
    let i = choose|i: int|
        0 <= i < entries.len() && (#[trigger] entries[i]).topic == topic
            && entries[i].cooldown_until.days > later.days;
    assert(entries[i].topic == topic);
}

/// Long-term worries rest longer than routine talks about form.
pub proof fn lemma_cooldown_order(topic: InteractionTopic)
    ensures
        14 <= cooldown_days(topic) <= cooldown_days(InteractionTopic::ContractStatus),
        cooldown_days(InteractionTopic::PoorForm) < cooldown_days(InteractionTopic::LoanRequest),
        cooldown_days(InteractionTopic::PoorForm) < cooldown_days(
            InteractionTopic::TransferRequest,
        ),
{
}

/// For how long a topic rests: two weeks after talk of form, integration or the media, three after
/// playing time or personal matters, four after tactics or discipline, sixty days after a request to
/// leave or the captaincy, ninety after a contract.
pub proof fn lemma_how_long_topics_rest(topic: InteractionTopic)
    ensures
        cooldown_days(topic) == 14 <==> topic is PoorForm || topic is GoodForm || topic
            is IntegrationSupport || topic is MediaPressure,
        cooldown_days(topic) == 21 <==> topic is PlayingTime || topic is PersonalIssue,
        cooldown_days(topic) == 28 <==> topic is TacticalRole || topic is Discipline,
        cooldown_days(topic) == 60 <==> topic is LoanRequest || topic is TransferRequest || topic
            is Leadership,
        cooldown_days(topic) == 90 <==> topic is ContractStatus,
{
}

/// What the log of talks keeps and counts: 32 of them, for a year; and as a broken promise a talk
/// that made one and ended badly, for as many days as are asked about.
pub proof fn lemma_what_talks_are_kept(
    log: ManagerInteractionLog,
    e: ManagerInteraction,
    today: Date,
    window_days: int,
)
    ensures
        log.wf() <==> log.entries@.len() < 33,
        retained(e, today) <==> today.days <= e.date.days + 365,
        broken_promise(e, today, window_days) ==> e.promise_created && e.outcome is Negative,
        e.promise_created && e.outcome is Negative ==> (broken_promise(e, today, window_days)
            <==> today.days <= e.date.days + window_days),
{
}

/// When a topic may come up again: on the day on which the last of its cooldowns is over, whoever
/// the talk was with.
pub proof fn lemma_when_a_topic_may_come_up(
    entries: Seq<ManagerInteraction>,
    topic: InteractionTopic,
    today: Date,
)
    ensures
        !on_cooldown(entries, topic, today) <==> forall|i: int|
            0 <= i < entries.len() && (#[trigger] entries[i]).topic == topic
                ==> entries[i].cooldown_until.days <= today.days,
{
}

/// What the log remembers: the new talk last, and of the others all but the oldest, which is dropped
/// where there are 32 already.
pub proof fn lemma_what_is_remembered(
    entries: Seq<ManagerInteraction>,
    e: ManagerInteraction,
    i: int,
)
    requires
        entries.len() <= 32,
    ensures
        ({
            let after = remembered(entries, e);
            &&& after.last() == e
            &&& entries.len() < 32 ==> after.len() == entries.len() + 1
            &&& entries.len() == 32 ==> after.len() == 32
            &&& entries.len() < 32 && 0 <= i < entries.len() ==> after[i] == entries[i]
            &&& entries.len() == 32 && 1 <= i < 32 ==> after[i - 1] == entries[i]
        }),
{
}

} // verus!
