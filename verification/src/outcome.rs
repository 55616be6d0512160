//! Outcomes of processing a run of items, and counting them.

use core::fmt::Debug;
use core::ops::Rem;
use vstd::prelude::*;
use vstd::std_specs::cmp::PartialEqSpec;
use vstd::std_specs::convert::FromSpec;
use vstd::std_specs::iter::IteratorSpec;
use vstd::std_specs::ops::RemSpec;

verus! {

/// How the processing of one item ended.
#[derive(Clone, Copy, Debug, PartialEq, Eq, Structural)]
pub enum Outcome {
    Okay,
    SomethingWentWrong,
    IDontKnow,
}

/// The outcome for one item: `Okay` where the item is even, else
/// `SomethingWentWrong` where it is three, else `IDontKnow`.
pub open spec fn outcome_of<T>(item: T) -> Outcome where
    T: PartialEq + Rem<Output = T> + From<u8>,
{
    if item.rem_spec(T::from_spec(2u8)).eq_spec(&T::from_spec(0u8)) {
        Outcome::Okay
    } else if item.eq_spec(&T::from_spec(3u8)) {
        Outcome::SomethingWentWrong
    } else {
        Outcome::IDontKnow
    }
}

/// Processes each item of `input` on its own and gives the outcomes, in the
/// order of the items.
///
/// The item type has to make two, zero and three out of a `u8` as its
/// `from_spec` says, and has to let every item be divided by two. For a
/// type whose `==` and `%` obey `eq_spec` and `rem_spec`, each outcome is
/// then the one that `outcome_of` gives for its item.
pub fn process_stuff<T: Debug>(input: impl Iterator<Item = T>) -> (outcomes: Vec<Outcome>) where
    T: Debug + PartialEq + Rem<Output = T> + From<u8> + Copy,

    requires
        input.obeys_prophetic_iter_laws(),
        input.decrease() is Some,
        <T as FromSpec<u8>>::obeys_from_spec(),
        forall|x: T| #[trigger] x.rem_req(T::from_spec(2u8)),
    ensures
        outcomes@.len() == input.remaining().len(),
        <T as PartialEqSpec>::obeys_eq_spec() && <T as RemSpec>::obeys_rem_spec() ==> outcomes@
            == input.remaining().map_values(|x: T| outcome_of(x)),
{
    let mut input = input;
    let ghost all = input.remaining();
    let mut outcomes: Vec<Outcome> = Vec::new();
    loop
        invariant
            input.obeys_prophetic_iter_laws(),
            input.decrease() is Some,
            <T as FromSpec<u8>>::obeys_from_spec(),
            forall|x: T| #[trigger] x.rem_req(T::from_spec(2u8)),
            outcomes@.len() + input.remaining().len() == all.len(),
            all.subrange(outcomes@.len() as int, all.len() as int) == input.remaining(),
            <T as PartialEqSpec>::obeys_eq_spec() && <T as RemSpec>::obeys_rem_spec() ==> outcomes@
                == all.subrange(0, outcomes@.len() as int).map_values(|x: T| outcome_of(x)),
        ensures
            outcomes@.len() == all.len(),
            <T as PartialEqSpec>::obeys_eq_spec() && <T as RemSpec>::obeys_rem_spec() ==> outcomes@
                == all.map_values(|x: T| outcome_of(x)),
        decreases input.decrease()->0,
    {
        match input.next() {
            Some(item) => {
                let two: T = T::from(2u8);
                let zero: T = T::from(0u8);
                let three: T = T::from(3u8);
                if item % two == zero {
                    outcomes.push(Outcome::Okay);
                } else if item == three {
                    outcomes.push(Outcome::SomethingWentWrong);
                } else {
                    outcomes.push(Outcome::IDontKnow);
                }
            },
            None => {
                break ;
            },
        }
    }
    outcomes
}

/// How many of `outcomes` are `which`.
pub open spec fn count_of(outcomes: Seq<Outcome>, which: Outcome) -> nat {
    outcomes.filter(|o: Outcome| o == which).len()
}

/// One more outcome adds one to the count of its own kind and nothing to the
/// others.
pub proof fn lemma_count_push(outcomes: Seq<Outcome>, last: Outcome, which: Outcome)
    ensures
        count_of(outcomes.push(last), which) == count_of(outcomes, which) + if last == which {
            1nat
        } else {
            0nat
        },
{
    reveal(Seq::filter);
    assert(outcomes.push(last).drop_last() =~= outcomes);
}

/// Every outcome is counted once: the three counts add up to the length.
pub proof fn lemma_counts_cover(outcomes: Seq<Outcome>)
    ensures
        count_of(outcomes, Outcome::Okay) + count_of(outcomes, Outcome::SomethingWentWrong)
            + count_of(outcomes, Outcome::IDontKnow) == outcomes.len(),
    decreases outcomes.len(),
{
    if outcomes.len() == 0 {
        reveal(Seq::filter);
    } else {
        let front = outcomes.drop_last();
        lemma_counts_cover(front);
        assert(front.push(outcomes.last()) =~= outcomes);
        lemma_count_push(front, outcomes.last(), Outcome::Okay);
        lemma_count_push(front, outcomes.last(), Outcome::SomethingWentWrong);
        lemma_count_push(front, outcomes.last(), Outcome::IDontKnow);
    }
}

fn count_matching(outcomes: &Vec<Outcome>, which: Outcome) -> (n: usize)
    ensures
        n == count_of(outcomes@, which),
{
    let mut n: usize = 0;
    let mut i: usize = 0;
    proof {
        reveal(Seq::filter);
        assert(outcomes@.take(0) =~= Seq::<Outcome>::empty());
    }
    while i < outcomes.len()
        invariant
            i <= outcomes.len(),
            n <= i,
            n == count_of(outcomes@.take(i as int), which),
        decreases outcomes.len() - i,
    {
        proof {
            lemma_count_push(outcomes@.take(i as int), outcomes@[i as int], which);
            assert(outcomes@.take(i as int).push(outcomes@[i as int]) =~= outcomes@.take(i + 1));
        }
        if outcomes[i] == which {
            n = n + 1;
        }
        i = i + 1;
    }
    proof {
        assert(outcomes@.take(outcomes.len() as int) =~= outcomes@);
    }
    n
}

/// How many of `outcomes` are `Okay`.
pub fn ok_count(outcomes: Vec<Outcome>) -> (n: usize)
    ensures
        n == count_of(outcomes@, Outcome::Okay),
{
    count_matching(&outcomes, Outcome::Okay)
}

/// How many of `outcomes` are `SomethingWentWrong`.
pub fn something_went_wrong_count(outcomes: Vec<Outcome>) -> (n: usize)
    ensures
        n == count_of(outcomes@, Outcome::SomethingWentWrong),
{
    count_matching(&outcomes, Outcome::SomethingWentWrong)
}

/// How many of `outcomes` are `IDontKnow`.
pub fn i_dont_know_count(outcomes: Vec<Outcome>) -> (n: usize)
    ensures
        n == count_of(outcomes@, Outcome::IDontKnow),
{
    count_matching(&outcomes, Outcome::IDontKnow)
}

/// The counts, as methods of whatever holds a run of outcomes.
pub trait OutcomeCount {
    /// The outcomes held, in order.
    spec fn outcomes(&self) -> Seq<Outcome>;

    /// How many of the outcomes are `Okay`.
    fn ok_count(&self) -> (n: usize)
        ensures
            n == count_of(self.outcomes(), Outcome::Okay),
    ;

    /// How many of the outcomes are `SomethingWentWrong`.
    fn something_went_wrong_count(&self) -> (n: usize)
        ensures
            n == count_of(self.outcomes(), Outcome::SomethingWentWrong),
    ;

    /// How many of the outcomes are `IDontKnow`.
    fn i_dont_know_count(&self) -> (n: usize)
        ensures
            n == count_of(self.outcomes(), Outcome::IDontKnow),
    ;
}

impl OutcomeCount for Vec<Outcome> {
    open spec fn outcomes(&self) -> Seq<Outcome> {
        self@
    }

    fn ok_count(&self) -> (n: usize) {
        count_matching(self, Outcome::Okay)
    }

    fn i_dont_know_count(&self) -> (n: usize) {
        count_matching(self, Outcome::IDontKnow)
    }

    fn something_went_wrong_count(&self) -> (n: usize) {
        count_matching(self, Outcome::SomethingWentWrong)
    }
}

} // verus!
