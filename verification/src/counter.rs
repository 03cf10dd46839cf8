//! The counter application: reads the counter's cell, builds the solution
//! that increments it, and decodes queried state.
//!
//! The counter contract stores a single word under one storage key. An
//! increment reads the current value, adds one, and proposes a solution whose
//! single state mutation writes the new value back to that key. The network
//! round trips (the state query and the submission) happen outside the
//! library; the functions here compute everything between them.

use vstd::prelude::*;

use crate::error::Error;
use crate::types::{Key, Mutation, PredicateAddress, Solution, SolutionData, Word};

verus! {

/// The storage key of the counter's single cell: the contract's first (and
/// only) storage slot.
pub open spec fn counter_key_spec() -> Seq<Word> {
    seq![0i64]
}

/// The value a counter cell holds: an absent cell reads as zero, otherwise
/// the single word stored there.
pub open spec fn counter_value_of(cell: Seq<Word>) -> Word {
    if cell.len() == 0 {
        0
    } else {
        cell[0]
    }
}

/// A well-formed counter cell holds at most one word; anything wider is
/// state corruption.
pub open spec fn counter_cell_ok(cell: Seq<Word>) -> bool {
    cell.len() <= 1
}

/// Does `s` have the exact shape of an increment request: one entry, solving
/// `addr`, no decision variables, and a single mutation writing `new_count`
/// to the counter's key?
pub open spec fn is_increment_solution(s: Solution, addr: PredicateAddress, new_count: Word) -> bool {
    &&& s.data@.len() == 1
    &&& s.data@[0].predicate_to_solve == addr
    &&& s.data@[0].decision_variables@.len() == 0
    &&& s.data@[0].state_mutations@.len() == 1
    &&& s.data@[0].state_mutations@[0].key@ == counter_key_spec()
    &&& s.data@[0].state_mutations@[0].value@ == seq![new_count]
}

/// The counter application: holds the address of the predicate that governs
/// incrementing. The submission client that carries its requests to the
/// platform is supplied by the caller.
pub struct App {
    /// The address of the increment predicate.
    pub increment_predicate_address: PredicateAddress,
}

impl App {
    /// Creates a new instance of the counter application from the address of
    /// the increment predicate.
    pub fn new(increment_predicate_address: PredicateAddress) -> (app: Self)
        ensures
            app.increment_predicate_address == increment_predicate_address,
    {
        App { increment_predicate_address }
    }

    /// The storage key of the counter's cell, as handed to a state query.
    pub fn counter_key(&self) -> (k: Key)
        ensures
            k@ == counter_key_spec(),
    {
        let mut k: Vec<Word> = Vec::new();
        k.push(0);
        proof {
            assert(k@ =~= counter_key_spec());
        }
        k
    }

    /// Decodes the words a state query returned for the counter's key: an
    /// empty result means the counter was never initialized and reads as
    /// zero, a single word is the current value, and anything wider is
    /// corrupted state surfaced as an error.
    pub fn decode_counter_value(&self, queried: &Vec<Word>) -> (r: Result<Word, Error>)
        ensures
            counter_cell_ok(queried@) ==> r == Ok::<Word, Error>(counter_value_of(queried@)),
            !counter_cell_ok(queried@) ==> r == Err::<Word, Error>(Error::UnexpectedStateWords),
    {
        if queried.len() == 0 {
            Ok(0)
        } else if queried.len() == 1 {
            Ok(queried[0])
        } else {
            Err(Error::UnexpectedStateWords)
        }
    }

    /// The value the counter shall take next: one more than the current one.
    pub fn next_counter_value(&self, current: Word) -> (n: Word)
        requires
            current < Word::MAX,
        ensures
            n == current + 1,
    {
        current + 1
    }

    /// Builds the solution that sets the counter to `new_count`: a single
    /// entry solving the increment predicate, with no decision variables and
    /// one state mutation writing `new_count` to the counter's key.
    pub fn increment_solution(&self, new_count: Word) -> (s: Solution)
        ensures
            is_increment_solution(s, self.increment_predicate_address, new_count),
    {
        let key = self.counter_key();
        let mut value: Vec<Word> = Vec::new();
        value.push(new_count);
        let mutation = Mutation { key, value };
        let mut state_mutations: Vec<Mutation> = Vec::new();
        state_mutations.push(mutation);
        let entry = SolutionData {
            predicate_to_solve: self.increment_predicate_address,
            decision_variables: Vec::new(),
            state_mutations,
        };
        let mut data: Vec<SolutionData> = Vec::new();
        data.push(entry);
        let s = Solution { data };
        proof {
            assert(s.data@[0].state_mutations@[0].value@ =~= seq![new_count]);
        }
        s
    }
}

/// What a solution's mutation does to the counter's cell when the platform
/// accepts it: a mutation of the counter's key replaces the cell with the
/// mutation's value; any other key leaves the cell alone.
pub open spec fn apply_mutation(cell: Seq<Word>, m: Mutation) -> Seq<Word> {
    if m.key@ == counter_key_spec() {
        m.value@
    } else {
        cell
    }
}

/// An accepted increment request overwrites the counter's cell with exactly
/// the one word it proposed, whatever the cell held before.
pub proof fn lemma_increment_updates_cell(cell: Seq<Word>, s: Solution, addr: PredicateAddress, new_count: Word)
    requires
        is_increment_solution(s, addr, new_count),
    ensures
        apply_mutation(cell, s.data@[0].state_mutations@[0]) == seq![new_count],
        counter_value_of(apply_mutation(cell, s.data@[0].state_mutations@[0])) == new_count,
{
}

/// Is `run` a sequence of increment requests with no concurrent
/// interference? Each request in turn must be the increment solution built
/// for one more than what the cell, as the previous request left it, reads.
pub open spec fn is_increment_run(cell: Seq<Word>, run: Seq<Solution>, addr: PredicateAddress) -> bool
    decreases run.len(),
{
    run.len() == 0 || {
        &&& is_increment_solution(run[0], addr, (counter_value_of(cell) + 1) as Word)
        &&& is_increment_run(
            apply_mutation(cell, run[0].data@[0].state_mutations@[0]),
            run.skip(1),
            addr,
        )
    }
}

/// The counter's cell after the solutions of `run` are applied in turn.
pub open spec fn cell_after_run(cell: Seq<Word>, run: Seq<Solution>) -> Seq<Word>
    decreases run.len(),
{
    if run.len() == 0 {
        cell
    } else {
        cell_after_run(apply_mutation(cell, run[0].data@[0].state_mutations@[0]), run.skip(1))
    }
}

/// For every sequence of increment requests applied with no concurrent
/// interference, the counter ends exactly the run's length above where it
/// began.
pub proof fn lemma_increment_run(cell: Seq<Word>, run: Seq<Solution>, addr: PredicateAddress)
    requires
        counter_cell_ok(cell),
        counter_value_of(cell) + run.len() <= Word::MAX,
        is_increment_run(cell, run, addr),
    ensures
        counter_cell_ok(cell_after_run(cell, run)),
        counter_value_of(cell_after_run(cell, run)) == counter_value_of(cell) + run.len(),
    decreases run.len(),
{
    if run.len() > 0 {
        let next = apply_mutation(cell, run[0].data@[0].state_mutations@[0]);
        lemma_increment_updates_cell(
            cell,
            run[0],
            addr,
            (counter_value_of(cell) + 1) as Word,
        );
        lemma_increment_run(next, run.skip(1), addr);
    }
}

/// The counter's cell after `n` accepted increments from an uninitialized
/// cell: each one reads the current value and writes one more back.
pub open spec fn cell_after_increments(n: nat) -> Seq<Word>
    decreases n,
{
    if n == 0 {
        Seq::empty()
    } else {
        seq![(counter_value_of(cell_after_increments((n - 1) as nat)) + 1) as Word]
    }
}

/// After a run of `n` increments with no interference, each applying its
/// mutation to the cell the previous one left, the counter reads `n`.
pub proof fn lemma_counter_after_increments(n: nat)
    requires
        n <= Word::MAX,
    ensures
        counter_value_of(cell_after_increments(n)) == n,
        counter_cell_ok(cell_after_increments(n)),
    decreases n,
{
    if n > 0 {
        lemma_counter_after_increments((n - 1) as nat);
    }
}

} // verus!
