//! The register of decisions taken about a player.

use crate::date::Date;
#[allow(unused_imports)]
use vstd::prelude::*;

verus! {

/// One entry of the register.
#[derive(Debug)]
pub struct PlayerDecision {
    pub date: Date,
    pub movement: String,
    pub decision: String,
    pub decided_by: String,
}

/// The content of a [`PlayerDecision`].
pub struct DecisionView {
    pub date: Date,
    pub movement: Seq<char>,
    pub decision: Seq<char>,
    pub decided_by: Seq<char>,
}

impl View for PlayerDecision {
    type V = DecisionView;

    open spec fn view(&self) -> DecisionView {
        DecisionView {
            date: self.date,
            movement: self.movement@,
            decision: self.decision@,
            decided_by: self.decided_by@,
        }
    }
}

/// The decisions taken about a player, oldest first.
#[derive(Debug)]
pub struct PlayerDecisionHistory {
    pub items: Vec<PlayerDecision>,
}

impl View for PlayerDecisionHistory {
    type V = Seq<DecisionView>;

    open spec fn view(&self) -> Seq<DecisionView> {
        self.items@.map_values(|d: PlayerDecision| d@)
    }
}

/// The words `from → to`, with ` · fee` behind them where a fee was paid.
pub open spec fn move_label(from: Seq<char>, to: Seq<char>, fee: Option<Seq<char>>) -> Seq<char> {
    match fee {
        Some(f) => from + " → "@ + to + " · "@ + f,
        None => from + " → "@ + to,
    }
}

impl PlayerDecisionHistory {
    /// An empty register.
    pub fn new() -> (r: Self)
        ensures
            r@ == Seq::<DecisionView>::empty(),
    {
        let r = PlayerDecisionHistory { items: Vec::new() };
        assert(r@ =~= Seq::<DecisionView>::empty());
        r
    }

    /// Adds an entry.
    pub fn add(&mut self, date: Date, movement: String, decision: String, decided_by: String)
        ensures
            final(self)@ == old(self)@.push(
                (DecisionView {
                    date,
                    movement: movement@,
                    decision: decision@,
                    decided_by: decided_by@,
                }),
            ),
    {
        self.items.push(PlayerDecision { date, movement, decision, decided_by });
        assert(self@ =~= old(self)@.push(
            DecisionView {
                date,
                movement: movement@,
                decision: decision@,
                decided_by: decided_by@,
            },
        ));
    }

    /// Adds an entry about a move between two clubs. `fee` is the amount in words, where one
    /// was paid.
    pub fn add_move(&mut self, date: Date, from: &str, to: &str, fee: Option<&str>, decision: &str)
        ensures
            final(self)@ == old(self)@.push(
                (DecisionView {
                    date,
                    movement: move_label(
                        from@,
                        to@,
                        match fee {
                            Some(f) => Some(f@),
                            None => None,
                        },
                    ),
                    decision: decision@,
                    decided_by: Seq::<char>::empty(),
                }),
            ),
    {
        let mut movement = from.to_owned();
        movement.append(" → ");
        movement.append(to);
        match fee {
            Some(f) => {
                movement.append(" · ");
                movement.append(f);
            },
            None => {},
        }
        self.add(date, movement, decision.to_owned(), String::new());
    }
}

/// A move is written from the old club to the new one, and a fee behind both where one was paid:
/// the words begin with where the player came from and end with the fee or with where he went.
pub proof fn lemma_moves_are_written(from: Seq<char>, to: Seq<char>, fee: Seq<char>)
    ensures
        from.is_prefix_of(move_label(from, to, None)),
        to.is_suffix_of(move_label(from, to, None)),
        move_label(from, to, None).len() == from.len() + 3 + to.len(),
        move_label(from, to, None).is_prefix_of(move_label(from, to, Some(fee))),
        fee.is_suffix_of(move_label(from, to, Some(fee))),
        move_label(from, to, Some(fee)).len() == from.len() + 3 + to.len() + 3 + fee.len(),
{
    reveal_strlit(" → ");
    reveal_strlit(" · ");
    let short = move_label(from, to, None);
    let long = move_label(from, to, Some(fee));
    assert(short.subrange(0, from.len() as int) =~= from);
    assert(short.subrange(short.len() - to.len(), short.len() as int) =~= to);
    assert(long.subrange(0, short.len() as int) =~= short);
    assert(long.subrange(long.len() - fee.len(), long.len() as int) =~= fee);
}

} // verus!
