//! The data model of a request: words, content addresses, predicate
//! addresses, state mutations, and solutions.
//!
//! A solution is the atomic unit of proposed change submitted to the
//! platform. It carries one entry per predicate to solve; each entry names
//! the predicate, supplies its decision variables, and proposes state
//! mutations that take effect only if the predicate accepts them.

use vstd::prelude::*;

verus! {

/// The platform's native scalar: a fixed-width signed integer.
pub type Word = i64;

/// A key into a contract's state: a variable-length list of words.
pub type Key = Vec<Word>;

/// A value held in a contract's state: a variable-length list of words.
pub type Value = Vec<Word>;

/// A content-derived identifier of an immutable piece of deployed code or
/// data: thirty-two bytes of hash.
#[derive(Debug, Clone, Copy, PartialEq, Eq)]
pub struct ContentAddress(pub [u8; 32]);

/// The address of a predicate: the content address of the contract it was
/// deployed with, and the content address of the predicate itself.
#[derive(Debug, Clone, Copy, PartialEq, Eq)]
pub struct PredicateAddress {
    /// Content address of the contract this predicate belongs to.
    pub contract: ContentAddress,
    /// Content address of the predicate.
    pub predicate: ContentAddress,
}

/// A proposed write of `value` to `key` in a contract's state, applied only
/// if the governing predicate accepts the solution that carries it.
#[derive(Debug, Clone, PartialEq, Eq)]
pub struct Mutation {
    /// The key to write to.
    pub key: Key,
    /// The new value. An empty value deletes the key.
    pub value: Value,
}

/// One entry of a solution: the predicate to solve, the decision variables
/// handed to its evaluation, and the state mutations it proposes.
#[derive(Debug, Clone, PartialEq, Eq)]
pub struct SolutionData {
    /// The predicate this entry attempts to solve.
    pub predicate_to_solve: PredicateAddress,
    /// The inputs to the predicate's evaluation, one list of words per slot.
    pub decision_variables: Vec<Value>,
    /// The state writes proposed by this entry.
    pub state_mutations: Vec<Mutation>,
}

/// An atomic request to the platform: an ordered sequence of entries.
#[derive(Debug, Clone, PartialEq, Eq)]
pub struct Solution {
    /// The entries of this request.
    pub data: Vec<SolutionData>,
}

/// Builds a one-word value, as decision-variable slots of scalar type expect.
pub fn scalar_value(w: Word) -> (v: Value)
    ensures
        v@ == seq![w],
{
    let mut v: Vec<Word> = Vec::new();
    v.push(w);
    proof {
        assert(v@ =~= seq![w]);
    }
    v
}

} // verus!
