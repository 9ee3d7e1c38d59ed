//! The completion pipeline: the gates a sweep transaction must pass before it
//! is broadcast, and the Completed claim recorded after the broadcast.

use vstd::prelude::*;
use crate::model::{BadRequestReason, AccountType, ClaimError, ClaimState, InheritanceClaim, InternalReason};
use crate::policy::{ClaimAction, authorize, denial, verdict};
use crate::machine::with_state;

verus! {

/// What the pipeline reads of a signed sweep transaction.
#[derive(Debug)]
pub struct SweepTransaction {
    /// The serialized transaction, kept with the Completed claim.
    pub reference: String,
    /// For each input, whether it carries a finalized signature.
    pub input_signed: Vec<bool>,
    /// The destination address of each output.
    pub outputs: Vec<String>,
}

/// How many of the inputs carry a finalized signature.
pub open spec fn signed_count(s: Seq<bool>) -> nat
    decreases s.len(),
{
    if s.len() == 0 {
        0
    } else {
        signed_count(s.drop_last()) + if s.last() { 1nat } else { 0nat }
    }
}

/// Whether `address` is on the compliance block-list.
pub open spec fn is_blocked(block_list: Seq<String>, address: Seq<char>) -> bool {
    exists|i: int| 0 <= i < block_list.len() && #[trigger] block_list[i]@ == address
}

/// The error that stops a completion before any broadcast, or `None`.
/// After the policy: exactly one input must carry a finalized signature, the
/// transaction must have one output, and that output's address must not be
/// on the block-list. A fee-bump of a Completed claim passes the same gates.
pub open spec fn completion_denial(
    c: InheritanceClaim,
    actor: Seq<char>,
    account: AccountType,
    tx: SweepTransaction,
    block_list: Seq<String>,
) -> Option<ClaimError> {
    if denial(c, actor, account, ClaimAction::Complete) is Some {
        denial(c, actor, account, ClaimAction::Complete)
    } else if signed_count(tx.input_signed@) != 1 {
        Some(ClaimError::Internal(InternalReason::SignatureCount))
    } else if tx.outputs.len() != 1 {
        Some(ClaimError::Internal(InternalReason::OutputCount))
    } else if is_blocked(block_list, tx.outputs@[0]@) {
        Some(ClaimError::ComplianceBlocked)
    } else {
        None
    }
}

/// Counts the inputs that carry a finalized signature.
pub fn count_signed_inputs(input_signed: &Vec<bool>) -> (r: usize)
    ensures
        r == signed_count(input_signed@),
{
    let mut n: usize = 0;
    let mut i: usize = 0;
    while i < input_signed.len()
        invariant
            i <= input_signed.len(),
            n == signed_count(input_signed@.subrange(0, i as int)),
            n <= i,
        decreases input_signed.len() - i,
    {
        proof {
            assert(input_signed@.subrange(0, i + 1).drop_last() =~= input_signed@.subrange(0, i as int));
        }
        if input_signed[i] {
            n = n + 1;
        }
        i = i + 1;
    }
    proof {
        assert(input_signed@.subrange(0, i as int) =~= input_signed@);
    }
    n
}

/// Whether `address` is on `block_list`.
pub fn on_block_list(block_list: &Vec<String>, address: &String) -> (r: bool)
    ensures
        r == is_blocked(block_list@, address@),
{
    let mut i: usize = 0;
    while i < block_list.len()
        invariant
            i <= block_list.len(),
            forall|j: int| 0 <= j < i ==> block_list@[j]@ != address@,
        decreases block_list.len() - i,
    {
        if block_list[i] == *address {
            return true;
        }
        i = i + 1;
    }
    false
}

/// Decides whether `tx` may be broadcast to complete `claim`: `Ok` means
/// that the broadcaster should be called; an error means it must not be.
pub fn plan_completion(
    claim: &InheritanceClaim,
    actor: &String,
    account: AccountType,
    tx: &SweepTransaction,
    block_list: &Vec<String>,
) -> (r: Result<(), ClaimError>)
    ensures
        r == verdict(completion_denial(*claim, actor@, account, *tx, block_list@)),
{
    if let Err(e) = authorize(actor, account, claim, ClaimAction::Complete) {
        return Err(e);
    }
    if count_signed_inputs(&tx.input_signed) != 1 {
        return Err(ClaimError::Internal(InternalReason::SignatureCount));
    }
    if tx.outputs.len() != 1 {
        return Err(ClaimError::Internal(InternalReason::OutputCount));
    }
    if on_block_list(block_list, &tx.outputs[0]) {
        return Err(ClaimError::ComplianceBlocked);
    }
    Ok(())
}

/// The error with which a completion ends after the broadcast, or `None`.
pub open spec fn finish_denial(c: InheritanceClaim, broadcast_succeeded: bool) -> Option<ClaimError> {
    if !(c.state is Locked || c.state is Completed) {
        Some(ClaimError::BadRequest(BadRequestReason::InvalidState))
    } else if !broadcast_succeeded {
        Some(ClaimError::Internal(InternalReason::BroadcastFailed))
    } else {
        None
    }
}

/// The Completed claim that records `tx`.
pub open spec fn completed_claim(c: InheritanceClaim, tx: SweepTransaction) -> InheritanceClaim {
    with_state(c, ClaimState::Completed { transaction: tx.reference })
}

/// Records the outcome of broadcasting `tx` for `claim`. A failed broadcast
/// leaves the claim as it was; a successful one completes it, or replaces the
/// transaction of a claim already completed.
pub fn finish_completion(claim: InheritanceClaim, tx: &SweepTransaction, broadcast_succeeded: bool) -> (r:
    Result<InheritanceClaim, ClaimError>)
    ensures
        r is Err <==> finish_denial(claim, broadcast_succeeded) is Some,
        r matches Err(e) ==> finish_denial(claim, broadcast_succeeded) == Some(e),
        r matches Ok(c) ==> c == completed_claim(claim, *tx),
{
    match claim.state {
        ClaimState::Locked { .. } | ClaimState::Completed { .. } => {},
        _ => {
            return Err(ClaimError::BadRequest(BadRequestReason::InvalidState));
        },
    }
    if !broadcast_succeeded {
        return Err(ClaimError::Internal(InternalReason::BroadcastFailed));
    }
    Ok(InheritanceClaim {
        common: claim.common,
        state: ClaimState::Completed { transaction: tx.reference.clone() },
    })
}

/// A transaction with two or more inputs carrying a finalized signature is
/// refused as an internal error before any broadcast.
pub proof fn lemma_extra_signatures_refused(
    c: InheritanceClaim,
    actor: Seq<char>,
    account: AccountType,
    tx: SweepTransaction,
    block_list: Seq<String>,
)
    requires
        denial(c, actor, account, ClaimAction::Complete) is None,
        signed_count(tx.input_signed@) >= 2,
    ensures
        completion_denial(c, actor, account, tx, block_list) == Some(
            ClaimError::Internal(InternalReason::SignatureCount),
        ),
{
}

/// A well-signed transaction whose sole output pays a blocked address is
/// refused as ComplianceBlocked before any broadcast.
pub proof fn lemma_blocked_destination_refused(
    c: InheritanceClaim,
    actor: Seq<char>,
    account: AccountType,
    tx: SweepTransaction,
    block_list: Seq<String>,
)
    requires
        denial(c, actor, account, ClaimAction::Complete) is None,
        signed_count(tx.input_signed@) == 1,
        tx.outputs.len() == 1,
        is_blocked(block_list, tx.outputs@[0]@),
    ensures
        completion_denial(c, actor, account, tx, block_list) == Some(ClaimError::ComplianceBlocked),
{
}

/// A Completed claim can be completed again by its beneficiary with a new
/// valid transaction (a fee bump): the broadcast is allowed, and after it
/// succeeds the claim records the newest transaction.
pub proof fn lemma_fee_bump(c: InheritanceClaim, actor: Seq<char>, tx: SweepTransaction, block_list: Seq<String>)
    requires
        c.state is Completed,
        actor == c.common.beneficiary_id@,
        signed_count(tx.input_signed@) == 1,
        tx.outputs.len() == 1,
        !is_blocked(block_list, tx.outputs@[0]@),
    ensures
        completion_denial(c, actor, AccountType::Full, tx, block_list) is None,
        finish_denial(c, true) is None,
        completed_claim(c, tx).state == (ClaimState::Completed { transaction: tx.reference }),
        completed_claim(c, tx).common == c.common,
{
}

} // verus!
