//! The multisig wallet application: eight symmetric operations, each
//! resolving one or two account identities, building a one-entry solution
//! that fills the relevant predicate's decision variables, and handing it to
//! the caller for submission.
//!
//! No threshold, membership or proposal state is checked here: the remote
//! predicates enforce all of that. The client is a request former, and what
//! it promises is the exact shape of each request.
//!
//! Decision-variable slots follow the contract's declared order: a proposal
//! names the proposer's identity first, then what is proposed; an approval
//! names the approver's identity first, then the proposal id.

use vstd::prelude::*;

use crate::error::Error;
use crate::identity::{identity_from_public_key, identity_of, wallet_public_key};
use crate::types::{ContentAddress, PredicateAddress, Solution, SolutionData, Value, Word, scalar_value};

verus! {

/// The predicate addresses of the eight multisig operations, resolved once
/// at contract deployment and held for the application's lifetime.
#[derive(Debug, Clone, Copy, PartialEq, Eq)]
pub struct Addresses {
    /// The content address of the deployed multisig wallet contract.
    pub multisig_wallet: ContentAddress,
    /// Proposing a transaction.
    pub propose_transaction: PredicateAddress,
    /// Approving a proposed transaction.
    pub approve_transaction: PredicateAddress,
    /// Proposing to add a member.
    pub propose_add_member: PredicateAddress,
    /// Approving a proposed member addition.
    pub approve_add_member: PredicateAddress,
    /// Proposing to remove a member.
    pub propose_remove_member: PredicateAddress,
    /// Approving a proposed member removal.
    pub approve_remove_member: PredicateAddress,
    /// Proposing a new approval threshold.
    pub propose_update_min_approvals: PredicateAddress,
    /// Approving a proposed approval threshold.
    pub approve_update_min_approvals: PredicateAddress,
}

/// Does `s` consist of exactly one entry, solving `addr`, with no state
/// mutations? Every multisig request has this frame; only the decision
/// variables differ.
pub open spec fn is_single_entry_solution(s: Solution, addr: PredicateAddress) -> bool {
    &&& s.data@.len() == 1
    &&& s.data@[0].predicate_to_solve == addr
    &&& s.data@[0].state_mutations@.len() == 0
}

/// The decision variables of a one-entry solution, one list of words per
/// slot.
pub open spec fn entry_vars(s: Solution) -> Seq<Seq<Word>>
    recommends
        s.data@.len() == 1,
{
    s.data@[0].decision_variables@.map_values(|v: Value| v@)
}

/// Builds the decision-variable slot holding a four-word identity.
pub fn identity_value(id: [Word; 4]) -> (v: Value)
    ensures
        v@ == id@,
{
    let mut v: Vec<Word> = Vec::new();
    v.push(id[0]);
    v.push(id[1]);
    v.push(id[2]);
    v.push(id[3]);
    proof {
        assert(v@ =~= id@);
    }
    v
}

/// Builds the one-entry solution that solves `addr` with the given decision
/// variables and no state mutations.
pub fn single_entry_solution(addr: &PredicateAddress, vars: Vec<Value>) -> (s: Solution)
    ensures
        is_single_entry_solution(s, *addr),
        entry_vars(s) == vars@.map_values(|v: Value| v@),
{
    let entry = SolutionData {
        predicate_to_solve: *addr,
        decision_variables: vars,
        state_mutations: Vec::new(),
    };
    let mut data: Vec<SolutionData> = Vec::new();
    data.push(entry);
    let s = Solution { data };
    proof {
        assert(s.data@[0].state_mutations@ =~= Seq::<crate::types::Mutation>::empty());
    }
    s
}

/// Builds a transaction proposal: the proposer's identity, the recipient's
/// identity, and the amount to send.
pub fn propose_transaction_solution(
    addr: &PredicateAddress,
    proposer: [Word; 4],
    recipient: [Word; 4],
    amount: Word,
) -> (s: Solution)
    ensures
        is_single_entry_solution(s, *addr),
        entry_vars(s) == seq![proposer@, recipient@, seq![amount]],
{
    let mut vars: Vec<Value> = Vec::new();
    vars.push(identity_value(proposer));
    vars.push(identity_value(recipient));
    vars.push(scalar_value(amount));
    let s = single_entry_solution(addr, vars);
    proof {
        assert(entry_vars(s) =~= seq![proposer@, recipient@, seq![amount]]);
    }
    s
}

/// Builds a proposal naming two identities: the proposer's, then the member
/// to add or remove.
pub fn propose_member_solution(
    addr: &PredicateAddress,
    proposer: [Word; 4],
    member: [Word; 4],
) -> (s: Solution)
    ensures
        is_single_entry_solution(s, *addr),
        entry_vars(s) == seq![proposer@, member@],
{
    let mut vars: Vec<Value> = Vec::new();
    vars.push(identity_value(proposer));
    vars.push(identity_value(member));
    let s = single_entry_solution(addr, vars);
    proof {
        assert(entry_vars(s) =~= seq![proposer@, member@]);
    }
    s
}

/// Builds a request naming one identity and one scalar: an approval (the
/// approver's identity and the proposal id) or a threshold proposal (the
/// proposer's identity and the new threshold).
pub fn identity_scalar_solution(addr: &PredicateAddress, id: [Word; 4], scalar: Word) -> (s:
    Solution)
    ensures
        is_single_entry_solution(s, *addr),
        entry_vars(s) == seq![id@, seq![scalar]],
{
    let mut vars: Vec<Value> = Vec::new();
    vars.push(identity_value(id));
    vars.push(scalar_value(scalar));
    let s = single_entry_solution(addr, vars);
    proof {
        assert(entry_vars(s) =~= seq![id@, seq![scalar]]);
    }
    s
}

/// The multisig wallet application: the wallet that holds the members' keys
/// and the addresses of the deployed predicates. The submission client that
/// carries its requests to the platform is supplied by the caller.
pub struct App {
    /// The wallet collaborator holding each account's key pair.
    pub wallet: essential_wallet::Wallet,
    /// The predicate addresses of the deployed contract.
    pub addresses: Addresses,
}

impl App {
    /// Creates a new instance of the multisig wallet app from the deployed
    /// contract's addresses and the wallet holding the members' keys.
    pub fn new(addresses: Addresses, wallet: essential_wallet::Wallet) -> (app: Self)
        ensures
            app.addresses == addresses,
    {
        App { wallet, addresses }
    }

    /// Given an account name, produce the hash of its public key: the
    /// four-word identity the predicates compare against. Fails if the
    /// wallet cannot produce the key or holds one of an unsupported scheme;
    /// otherwise the identity is derived from the key's compressed bytes
    /// alone.
    pub fn get_hashed_key(&mut self, account_name: &str) -> (r: Result<[Word; 4], Error>)
        ensures
            final(self).addresses == old(self).addresses,
            r matches Ok(id) ==> exists|b: Seq<u8>| b.len() == 33 && id@ == identity_of(b),
            r matches Err(e) ==> e == Error::WalletAccess || e == Error::InvalidPublicKey,
    {
        let key = match wallet_public_key(&mut self.wallet, account_name) {
            Ok(k) => k,
            Err(e) => {
                return Err(e);
            },
        };
        identity_from_public_key(&key)
    }

    /// Propose a transaction to send `amount` to `recipient_name`: a
    /// one-entry solution of the transaction-proposal predicate whose slots
    /// are the proposer's identity, the recipient's identity, and the
    /// amount.
    pub fn propose_transaction(
        &mut self,
        proposer_name: &str,
        recipient_name: &str,
        amount: Word,
    ) -> (r: Result<Solution, Error>)
        ensures
            final(self).addresses == old(self).addresses,
            r matches Ok(s) ==> {
                &&& is_single_entry_solution(s, old(self).addresses.propose_transaction)
                &&& entry_vars(s).len() == 3
                &&& entry_vars(s)[0].len() == 4
                &&& entry_vars(s)[1].len() == 4
                &&& entry_vars(s)[2] == seq![amount]
            },
    {
        let proposer = match self.get_hashed_key(proposer_name) {
            Ok(id) => id,
            Err(e) => {
                return Err(e);
            },
        };
        let recipient = match self.get_hashed_key(recipient_name) {
            Ok(id) => id,
            Err(e) => {
                return Err(e);
            },
        };
        Ok(
            propose_transaction_solution(
                &self.addresses.propose_transaction,
                proposer,
                recipient,
                amount,
            ),
        )
    }

    /// Approve the proposed transaction with id `proposal_id`: a one-entry
    /// solution of the transaction-approval predicate whose slots are the
    /// approver's identity and the proposal id.
    pub fn approve_transaction(&mut self, approver_name: &str, proposal_id: Word) -> (r: Result<
        Solution,
        Error,
    >)
        ensures
            final(self).addresses == old(self).addresses,
            r matches Ok(s) ==> {
                &&& is_single_entry_solution(s, old(self).addresses.approve_transaction)
                &&& entry_vars(s).len() == 2
                &&& entry_vars(s)[0].len() == 4
                &&& entry_vars(s)[1] == seq![proposal_id]
            },
    {
        let approver = match self.get_hashed_key(approver_name) {
            Ok(id) => id,
            Err(e) => {
                return Err(e);
            },
        };
        Ok(identity_scalar_solution(&self.addresses.approve_transaction, approver, proposal_id))
    }

    /// Propose adding `new_member_name` as a member: a one-entry solution of
    /// the member-addition-proposal predicate whose slots are the proposer's
    /// identity and the new member's identity.
    pub fn propose_add_member(&mut self, proposer_name: &str, new_member_name: &str) -> (r: Result<
        Solution,
        Error,
    >)
        ensures
            final(self).addresses == old(self).addresses,
            r matches Ok(s) ==> {
                &&& is_single_entry_solution(s, old(self).addresses.propose_add_member)
                &&& entry_vars(s).len() == 2
                &&& entry_vars(s)[0].len() == 4
                &&& entry_vars(s)[1].len() == 4
            },
    {
        let proposer = match self.get_hashed_key(proposer_name) {
            Ok(id) => id,
            Err(e) => {
                return Err(e);
            },
        };
        let new_member = match self.get_hashed_key(new_member_name) {
            Ok(id) => id,
            Err(e) => {
                return Err(e);
            },
        };
        Ok(propose_member_solution(&self.addresses.propose_add_member, proposer, new_member))
    }

    /// Approve the proposed member addition with id `proposal_id`.
    pub fn approve_add_member(&mut self, approver_name: &str, proposal_id: Word) -> (r: Result<
        Solution,
        Error,
    >)
        ensures
            final(self).addresses == old(self).addresses,
            r matches Ok(s) ==> {
                &&& is_single_entry_solution(s, old(self).addresses.approve_add_member)
                &&& entry_vars(s).len() == 2
                &&& entry_vars(s)[0].len() == 4
                &&& entry_vars(s)[1] == seq![proposal_id]
            },
    {
        let approver = match self.get_hashed_key(approver_name) {
            Ok(id) => id,
            Err(e) => {
                return Err(e);
            },
        };
        Ok(identity_scalar_solution(&self.addresses.approve_add_member, approver, proposal_id))
    }

    /// Propose removing `member_to_remove_name` from the members: a
    /// one-entry solution of the member-removal-proposal predicate whose
    /// slots are the proposer's identity and the member's identity.
    pub fn propose_remove_member(
        &mut self,
        proposer_name: &str,
        member_to_remove_name: &str,
    ) -> (r: Result<Solution, Error>)
        ensures
            final(self).addresses == old(self).addresses,
            r matches Ok(s) ==> {
                &&& is_single_entry_solution(s, old(self).addresses.propose_remove_member)
                &&& entry_vars(s).len() == 2
                &&& entry_vars(s)[0].len() == 4
                &&& entry_vars(s)[1].len() == 4
            },
    {
        let proposer = match self.get_hashed_key(proposer_name) {
            Ok(id) => id,
            Err(e) => {
                return Err(e);
            },
        };
        let member_to_remove = match self.get_hashed_key(member_to_remove_name) {
            Ok(id) => id,
            Err(e) => {
                return Err(e);
            },
        };
        Ok(
            propose_member_solution(
                &self.addresses.propose_remove_member,
                proposer,
                member_to_remove,
            ),
        )
    }

    /// Approve the proposed member removal with id `proposal_id`.
    pub fn approve_remove_member(&mut self, approver_name: &str, proposal_id: Word) -> (r: Result<
        Solution,
        Error,
    >)
        ensures
            final(self).addresses == old(self).addresses,
            r matches Ok(s) ==> {
                &&& is_single_entry_solution(s, old(self).addresses.approve_remove_member)
                &&& entry_vars(s).len() == 2
                &&& entry_vars(s)[0].len() == 4
                &&& entry_vars(s)[1] == seq![proposal_id]
            },
    {
        let approver = match self.get_hashed_key(approver_name) {
            Ok(id) => id,
            Err(e) => {
                return Err(e);
            },
        };
        Ok(identity_scalar_solution(&self.addresses.approve_remove_member, approver, proposal_id))
    }

    /// Propose updating the minimum number of approvals to
    /// `new_min_approvals`: a one-entry solution of the threshold-proposal
    /// predicate whose slots are the proposer's identity and the new
    /// threshold.
    pub fn propose_update_min_approvals(
        &mut self,
        proposer_name: &str,
        new_min_approvals: Word,
    ) -> (r: Result<Solution, Error>)
        ensures
            final(self).addresses == old(self).addresses,
            r matches Ok(s) ==> {
                &&& is_single_entry_solution(s, old(self).addresses.propose_update_min_approvals)
                &&& entry_vars(s).len() == 2
                &&& entry_vars(s)[0].len() == 4
                &&& entry_vars(s)[1] == seq![new_min_approvals]
            },
    {
        let proposer = match self.get_hashed_key(proposer_name) {
            Ok(id) => id,
            Err(e) => {
                return Err(e);
            },
        };
        Ok(
            identity_scalar_solution(
                &self.addresses.propose_update_min_approvals,
                proposer,
                new_min_approvals,
            ),
        )
    }

    /// Approve the proposed threshold update with id `proposal_id`.
    pub fn approve_update_min_approvals(&mut self, approver_name: &str, proposal_id: Word) -> (r:
        Result<Solution, Error>)
        ensures
            final(self).addresses == old(self).addresses,
            r matches Ok(s) ==> {
                &&& is_single_entry_solution(s, old(self).addresses.approve_update_min_approvals)
                &&& entry_vars(s).len() == 2
                &&& entry_vars(s)[0].len() == 4
                &&& entry_vars(s)[1] == seq![proposal_id]
            },
    {
        let approver = match self.get_hashed_key(approver_name) {
            Ok(id) => id,
            Err(e) => {
                return Err(e);
            },
        };
        Ok(
            identity_scalar_solution(
                &self.addresses.approve_update_min_approvals,
                approver,
                proposal_id,
            ),
        )
    }
}

} // verus!
