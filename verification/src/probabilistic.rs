//! What can happen next, with its weight, before anything has been drawn.
//!
//! Every weight is a whole number of thirty-seconds: the six outcomes of a
//! cast of five sticks weigh 1, 5, 10, 10, 5 and 1, and the weights of a
//! distribution add up to thirty-two.

use rand::Rng;
use vstd::pervasive::cloned;
use vstd::prelude::*;
use vstd::std_specs::convert::FromSpecImpl;

verus! {

/// The distribution of the next state. Which state is reached depends on a
/// cast of the sticks, or on the draw of who moves first.
#[derive(Debug, Clone)]
pub enum Probabilistic<T> {
    /// One outcome, which is certain.
    Pure(T),
    /// A water-entry cast: it fails on a cast of 0, 1 or 2 and succeeds on a
    /// cast of 3, 4 or 5.
    Water { failure: T, success: T },
    /// A cast of the sticks, with one outcome for each value from 0 to 5.
    Sticks { s0: T, s1: T, s2: T, s3: T, s4: T, s5: T },
    /// The draw of who moves first, with even chances.
    WhoGoesFirst { ia_first: T, a_first: T },
}

/// A list of outcomes, each with its weight in thirty-seconds.
pub struct Prob<T>(pub Vec<(T, u32)>);

/// The weight of the whole: thirty-two thirty-seconds.
pub open spec fn whole() -> int {
    32
}

/// The weights of `entries` added up.
pub open spec fn total_weight<T>(entries: Seq<(T, u32)>) -> int
    decreases entries.len(),
{
    if entries.len() == 0 {
        0
    } else {
        total_weight(entries.drop_last()) + entries.last().1
    }
}

/// Whether a ticket `rand` picks the entry at `i`: the weights before it add
/// up to `rand` at most, and with its own weight to more.
pub open spec fn picks<T>(entries: Seq<(T, u32)>, rand: int, i: int) -> bool {
    0 <= i < entries.len() && total_weight(entries.take(i)) <= rand < total_weight(
        entries.take(i + 1),
    )
}

impl<T> Probabilistic<T> {
    /// The outcomes in the order in which they are listed, each with the
    /// cast that leads to it, if a cast does, and its weight.
    pub open spec fn flattened(self) -> Seq<(T, Option<usize>, int)> {
        match self {
            Probabilistic::WhoGoesFirst { ia_first, a_first } => seq![
                (ia_first, None, 16),
                (a_first, None, 16),
            ],
            Probabilistic::Pure(t) => seq![(t, None, 32)],
            Probabilistic::Water { failure, success } => seq![
                (failure, Some(0), 1),
                (failure, Some(1), 5),
                (failure, Some(2), 10),
                (success, Some(3), 10),
                (success, Some(4), 5),
                (success, Some(5), 1),
            ],
            Probabilistic::Sticks { s0, s1, s2, s3, s4, s5 } => seq![
                (s0, Some(0), 1),
                (s1, Some(1), 5),
                (s2, Some(2), 10),
                (s3, Some(3), 10),
                (s4, Some(4), 5),
                (s5, Some(5), 1),
            ],
        }
    }

    /// Whether a cast of the sticks decides between the outcomes.
    pub open spec fn has_ciurl(self) -> bool {
        self is Water || self is Sticks
    }

    /// The distribution of `f` applied to the outcome.
    pub open spec fn map_outcomes<U>(self, f: spec_fn(T) -> U) -> Probabilistic<U> {
        match self {
            Probabilistic::Pure(t) => Probabilistic::Pure(f(t)),
            Probabilistic::Water { failure, success } => Probabilistic::Water {
                failure: f(failure),
                success: f(success),
            },
            Probabilistic::Sticks { s0, s1, s2, s3, s4, s5 } => Probabilistic::Sticks {
                s0: f(s0),
                s1: f(s1),
                s2: f(s2),
                s3: f(s3),
                s4: f(s4),
                s5: f(s5),
            },
            Probabilistic::WhoGoesFirst { ia_first, a_first } => Probabilistic::WhoGoesFirst {
                ia_first: f(ia_first),
                a_first: f(a_first),
            },
        }
    }
}

/// The weights of a flattened distribution added up.
pub open spec fn flattened_weight<T>(outcomes: Seq<(T, Option<usize>, int)>) -> int
    decreases outcomes.len(),
{
    if outcomes.len() == 0 {
        0
    } else {
        flattened_weight(outcomes.drop_last()) + outcomes.last().2
    }
}

/// Whether `drawn` is the outcome `listed`, or a clone of it where clones
/// are admitted.
pub open spec fn stands_for<T: Clone>(listed: T, drawn: T, clones: bool) -> bool {
    if clones {
        cloned(listed, drawn)
    } else {
        listed == drawn
    }
}

/// Whether `entries` lists `outcomes` in their order, each with its cast
/// and its weight: the outcomes themselves, or clones of them where clones
/// are admitted.
pub open spec fn lists<T: Clone>(
    entries: Seq<((T, Option<usize>), u32)>,
    outcomes: Seq<(T, Option<usize>, int)>,
    clones: bool,
) -> bool {
    entries.len() == outcomes.len() && forall|i: int|
        0 <= i < entries.len() ==> {
            let entry = #[trigger] entries[i];
            let outcome = outcomes[i];
            let drawn = entry.0;
            stands_for(outcome.0, drawn.0, clones) && drawn.1 == outcome.1 && entry.1 == outcome.2
        }
}

/// The flattened outcomes weigh thirty-two thirty-seconds together, whatever
/// the distribution.
pub proof fn flattened_weighs_the_whole<T>(p: Probabilistic<T>)
    ensures
        flattened_weight(p.flattened()) == whole(),
{
    reveal_with_fuel(flattened_weight, 8);
}

/// A list of the outcomes with their weights has the weights' total.
pub proof fn listed_weight<T: Clone>(
    entries: Seq<((T, Option<usize>), u32)>,
    outcomes: Seq<(T, Option<usize>, int)>,
    clones: bool,
)
    requires
        lists(entries, outcomes, clones),
    ensures
        total_weight(entries) == flattened_weight(outcomes),
    decreases entries.len(),
{
    if entries.len() > 0 {
        assert(entries.last() == entries[entries.len() - 1]);
        assert forall|i: int| 0 <= i < entries.drop_last().len() implies {
            let entry = #[trigger] entries.drop_last()[i];
            let outcome = outcomes.drop_last()[i];
            let drawn = entry.0;
            stands_for(outcome.0, drawn.0, clones) && drawn.1 == outcome.1 && entry.1 == outcome.2
        } by {
            assert(entries.drop_last()[i] == entries[i]);
        }
        listed_weight(entries.drop_last(), outcomes.drop_last(), clones);
    }
}

impl<T: Clone> Probabilistic<T> {
    /// Lists the outcomes with their casts and weights. The two outcomes of
    /// a water-entry cast are listed three times each, as clones.
    pub fn flatten(self) -> (r: Prob<(T, Option<usize>)>)
        ensures
            lists(r.0@, self.flattened(), self is Water),
            total_weight(r.0@) == whole(),
    {
        let entries = match self {
            Probabilistic::WhoGoesFirst { ia_first, a_first } => vec![
                ((ia_first, None), 16u32),
                ((a_first, None), 16u32),
            ],
            Probabilistic::Pure(t) => vec![((t, None), 32u32)],
            Probabilistic::Water { failure, success } => vec![
                ((failure.clone(), Some(0usize)), 1u32),
                ((failure.clone(), Some(1usize)), 5u32),
                ((failure, Some(2usize)), 10u32),
                ((success.clone(), Some(3usize)), 10u32),
                ((success.clone(), Some(4usize)), 5u32),
                ((success, Some(5usize)), 1u32),
            ],
            Probabilistic::Sticks { s0, s1, s2, s3, s4, s5 } => vec![
                ((s0, Some(0usize)), 1u32),
                ((s1, Some(1usize)), 5u32),
                ((s2, Some(2usize)), 10u32),
                ((s3, Some(3usize)), 10u32),
                ((s4, Some(4usize)), 5u32),
                ((s5, Some(5usize)), 1u32),
            ],
        };
        proof {
            listed_weight(entries@, self.flattened(), self is Water);
            flattened_weighs_the_whole(self);
        }
        Prob(entries)
    }

    /// Whether a draw from this distribution can give `outcome` with `cast`:
    /// it is an outcome of the distribution, or a clone of one after a
    /// water-entry cast, and `cast` is the cast that leads to it.
    pub open spec fn may_yield(self, outcome: T, cast: Option<usize>) -> bool {
        exists|i: int|
            0 <= i < self.flattened().len() && stands_for(
                (#[trigger] self.flattened()[i]).0,
                outcome,
                self is Water,
            ) && self.flattened()[i].1 == cast && self.flattened()[i].2 > 0
    }

    /// Draws an outcome, and tells the cast that led to it where a cast
    /// decided.
    #[must_use]
    pub fn choose_at_random(self) -> (r: (T, Option<usize>))
        ensures
            self.may_yield(r.0, r.1),
    {
        let prob = self.flatten();
        let ghost entries = prob.0@;
        let r = prob.choose_at_random();
        proof {
            let i = choose|i: int| 0 <= i < entries.len() && entries[i].0 == r && entries[i].1 > 0;
            let drawn = entries[i].0;
            assert(stands_for(self.flattened()[i].0, drawn.0, self is Water));
        }
        r
    }

    /// Draws an outcome from a distribution that no cast decides.
    #[must_use]
    pub fn choose_when_no_ciurl(self) -> (r: T)
        requires
            !self.has_ciurl(),
        ensures
            self.may_yield(r, None),
    {
        let prob = self.flatten();
        let ghost entries = prob.0@;
        let r = prob.choose_at_random();
        proof {
            let i = choose|i: int| 0 <= i < entries.len() && entries[i].0 == r && entries[i].1 > 0;
            let drawn = entries[i].0;
            assert(stands_for(self.flattened()[i].0, drawn.0, self is Water));
        }
        r.0
    }
}

impl<T> Prob<T> {
    /// Picks the entry in whose share of the whole the ticket `rand` falls,
    /// where `rand` counts the thirty-seconds that lie below a value drawn
    /// evenly from zero up to, but not including, one.
    #[must_use]
    pub fn choose_by_uniform_random_variable(self, rand: u32) -> (r: T)
        requires
            rand < whole(),
            rand < total_weight(self.0@),
        ensures
            exists|i: int| picks(self.0@, rand as int, i) && r == (#[trigger] self.0@[i]).0,
    {
        let mut entries = self.0;
        let mut threshold: u32 = 0;
        let mut i: usize = 0;
        while i < entries.len()
            invariant
                entries@ == self.0@,
                i <= entries.len(),
                threshold == total_weight(entries@.take(i as int)),
                threshold <= rand,
                rand < total_weight(entries@),
            decreases entries.len() - i,
        {
            let weight = entries[i].1;
            proof {
                assert(entries@.take(i + 1).drop_last() =~= entries@.take(i as int));
            }
            if rand - threshold < weight {
                let picked = entries.remove(i);
                assert(picks(self.0@, rand as int, i as int));
                return picked.0;
            }
            threshold = threshold + weight;
            i += 1;
        }
        proof {
            assert(entries@.take(i as int) =~= entries@);
        }
        unreached()
    }

    /// Draws an entry, each with the chance that its weight gives it.
    #[must_use]
    pub fn choose_at_random(self) -> (r: T)
        requires
            total_weight(self.0@) == whole(),
        ensures
            exists|i: int| 0 <= i < self.0@.len() && r == (#[trigger] self.0@[i]).0 && self.0@[i].1 > 0,
    {
        let rand = gen_range(32);
        let ghost entries = self.0@;
        let r = self.choose_by_uniform_random_variable(rand);
        proof {
            let i = choose|i: int| picks(entries, rand as int, i) && r == (#[trigger] entries[i]).0;
            assert(entries.take(i + 1).drop_last() =~= entries.take(i));
        }
        r
    }
}

impl<T: Clone> From<Probabilistic<T>> for Prob<(T, Option<usize>)> {
    fn from(s: Probabilistic<T>) -> (r: Self)
        ensures
            lists(r.0@, s.flattened(), s is Water),
            total_weight(r.0@) == whole(),
    {
        s.flatten()
    }
}

impl<T: Clone> FromSpecImpl<Probabilistic<T>> for Prob<(T, Option<usize>)> {
    /// The list holds clones, which no function of the distribution gives.
    open spec fn obeys_from_spec() -> bool {
        false
    }

    open spec fn from_spec(s: Probabilistic<T>) -> Self {
        arbitrary()
    }
}

/// `rand::Rng::gen_range` on the generator of the thread, for the range
/// from zero up to, but not including, `bound`: a number of that range.
#[verifier::external_body]
pub(crate) fn gen_range(bound: u32) -> (r: u32)
    requires
        bound > 0,
    ensures
        r < bound,
{
    rand::thread_rng().gen_range(0..bound)
}

} // verus!
