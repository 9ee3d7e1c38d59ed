//! Who may do what to a claim: the authorization policy.

use vstd::prelude::*;
use crate::model::{AccountType, BadRequestReason, ClaimError, ClaimState, InheritanceClaim};
use crate::relationships::{RecoveryRelationship, RelationshipStatus, TrustedContactRole};

verus! {

/// An action requested on an existing claim.
#[derive(Clone, Copy, Debug, PartialEq, Eq, Structural)]
pub enum ClaimAction {
    Cancel,
    Lock,
    UpdateDestination,
    Complete,
}

pub open spec fn is_benefactor(c: InheritanceClaim, actor: Seq<char>) -> bool {
    actor == c.common.benefactor_id@
}

pub open spec fn is_beneficiary(c: InheritanceClaim, actor: Seq<char>) -> bool {
    actor == c.common.beneficiary_id@
}

/// The error that denies `action` by `actor` on `c`, or `None` when it is allowed.
/// Lite accounts take part in no inheritance action; then the identity of the
/// authenticated actor is checked, then the state of the claim.
pub open spec fn denial(
    c: InheritanceClaim,
    actor: Seq<char>,
    account: AccountType,
    action: ClaimAction,
) -> Option<ClaimError> {
    if account == AccountType::Lite {
        Some(ClaimError::Forbidden)
    } else {
        match action {
            ClaimAction::Cancel => if !is_benefactor(c, actor) && !is_beneficiary(c, actor) {
                Some(ClaimError::Unauthorized)
            } else if c.state is Completed {
                Some(ClaimError::BadRequest(BadRequestReason::InvalidState))
            } else {
                None
            },
            ClaimAction::Lock => if !is_beneficiary(c, actor) {
                Some(ClaimError::Unauthorized)
            } else if !(c.state is Pending) {
                Some(ClaimError::BadRequest(BadRequestReason::InvalidState))
            } else {
                None
            },
            ClaimAction::UpdateDestination => if !is_beneficiary(c, actor) {
                Some(ClaimError::BadRequest(BadRequestReason::NotBeneficiary))
            } else if !c.state.spec_is_active() {
                Some(ClaimError::BadRequest(BadRequestReason::InvalidState))
            } else {
                None
            },
            ClaimAction::Complete => if !is_beneficiary(c, actor) {
                Some(ClaimError::Unauthorized)
            } else if !(c.state is Locked || c.state is Completed) {
                Some(ClaimError::BadRequest(BadRequestReason::InvalidState))
            } else {
                None
            },
        }
    }
}

/// `Ok` for no denial, else the denial as an error.
pub open spec fn verdict(d: Option<ClaimError>) -> Result<(), ClaimError> {
    match d {
        Some(e) => Err(e),
        None => Ok(()),
    }
}

/// Decides whether `actor`, an account of type `account`, may perform `action` on `claim`.
pub fn authorize(
    actor: &String,
    account: AccountType,
    claim: &InheritanceClaim,
    action: ClaimAction,
) -> (r: Result<(), ClaimError>)
    ensures
        r == verdict(denial(*claim, actor@, account, action)),
{
    if account == AccountType::Lite {
        return Err(ClaimError::Forbidden);
    }
    let benefactor = *actor == claim.common.benefactor_id;
    let beneficiary = *actor == claim.common.beneficiary_id;
    match action {
        ClaimAction::Cancel => {
            if !benefactor && !beneficiary {
                Err(ClaimError::Unauthorized)
            } else if let ClaimState::Completed { .. } = claim.state {
                Err(ClaimError::BadRequest(BadRequestReason::InvalidState))
            } else {
                Ok(())
            }
        },
        ClaimAction::Lock => {
            if !beneficiary {
                Err(ClaimError::Unauthorized)
            } else if let ClaimState::Pending { .. } = claim.state {
                Ok(())
            } else {
                Err(ClaimError::BadRequest(BadRequestReason::InvalidState))
            }
        },
        ClaimAction::UpdateDestination => {
            if !beneficiary {
                Err(ClaimError::BadRequest(BadRequestReason::NotBeneficiary))
            } else if !claim.is_active() {
                Err(ClaimError::BadRequest(BadRequestReason::InvalidState))
            } else {
                Ok(())
            }
        },
        ClaimAction::Complete => {
            if !beneficiary {
                Err(ClaimError::Unauthorized)
            } else {
                match claim.state {
                    ClaimState::Locked { .. } | ClaimState::Completed { .. } => Ok(()),
                    _ => Err(ClaimError::BadRequest(BadRequestReason::InvalidState)),
                }
            }
        },
    }
}

/// The error that denies starting a claim on `rel` by `actor`, or `None`.
/// `active_exists` tells whether the relationship already has an active claim.
pub open spec fn start_denial(
    rel: RecoveryRelationship,
    actor: Seq<char>,
    account: AccountType,
    active_exists: bool,
) -> Option<ClaimError> {
    if account == AccountType::Lite {
        Some(ClaimError::Forbidden)
    } else if !(rel.beneficiary_id is Some && rel.beneficiary_id.unwrap()@ == actor) {
        Some(ClaimError::Unauthorized)
    } else if rel.status != RelationshipStatus::Endorsed || !rel.spec_has_role(
        TrustedContactRole::Beneficiary,
    ) {
        Some(ClaimError::Forbidden)
    } else if active_exists {
        Some(ClaimError::Conflict)
    } else {
        None
    }
}

/// Decides whether `actor` may start a claim on `rel`.
pub fn authorize_start(
    actor: &String,
    account: AccountType,
    rel: &RecoveryRelationship,
    active_exists: bool,
) -> (r: Result<(), ClaimError>)
    ensures
        r == verdict(start_denial(*rel, actor@, account, active_exists)),
{
    if account == AccountType::Lite {
        return Err(ClaimError::Forbidden);
    }
    let is_contact = match &rel.beneficiary_id {
        Some(b) => *b == *actor,
        None => false,
    };
    if !is_contact {
        Err(ClaimError::Unauthorized)
    } else if rel.status != RelationshipStatus::Endorsed || !rel.has_role(
        &TrustedContactRole::Beneficiary,
    ) {
        Err(ClaimError::Forbidden)
    } else if active_exists {
        Err(ClaimError::Conflict)
    } else {
        Ok(())
    }
}

/// Cancel by the benefactor or by the beneficiary of a claim that is not
/// Completed is permitted; any other authenticated account is Unauthorized.
pub proof fn lemma_cancel_parties(c: InheritanceClaim, actor: Seq<char>)
    requires
        !(c.state is Completed),
    ensures
        actor == c.common.benefactor_id@ ==> denial(c, actor, AccountType::Full, ClaimAction::Cancel) is None,
        actor == c.common.beneficiary_id@ ==> denial(c, actor, AccountType::Full, ClaimAction::Cancel) is None,
        actor != c.common.benefactor_id@ && actor != c.common.beneficiary_id@ ==> denial(
            c,
            actor,
            AccountType::Full,
            ClaimAction::Cancel,
        ) == Some(ClaimError::Unauthorized),
{
}

} // verus!
