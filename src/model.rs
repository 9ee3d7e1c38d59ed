//! The data model shared by the policy, the state machine and the store.

use vstd::prelude::*;

verus! {

/// Seconds that must pass between the start of a claim and its earliest lock.
pub const CLAIM_DELAY_SECS: i64 = 604800;

/// Whether an account can hold keys (full) or only act as a contact (lite).
#[derive(Clone, Copy, Debug, PartialEq, Eq, Structural)]
pub enum AccountType {
    Full,
    Lite,
}

/// Where swept funds go: an address of this wallet or an outside one.
#[derive(Clone, Copy, Debug, PartialEq, Eq, Structural)]
pub enum DestinationKind {
    Internal,
    External,
}

/// A fund destination chosen by the beneficiary.
#[derive(Debug)]
pub struct Destination {
    pub address: String,
    pub kind: DestinationKind,
}

impl Clone for Destination {
    fn clone(&self) -> (r: Self)
        ensures
            r == *self,
    {
        Destination { address: self.address.clone(), kind: self.kind }
    }
}

/// The authentication keys of the claimant, captured when the claim starts.
#[derive(Debug)]
pub struct ClaimAuthKeys {
    pub app_pubkey: String,
    pub hardware_pubkey: String,
    pub recovery_pubkey: Option<String>,
}

/// Clones an optional string, keeping it equal.
fn clone_opt_string(s: &Option<String>) -> (r: Option<String>)
    ensures
        r == *s,
{
    match s {
        Some(v) => Some(v.clone()),
        None => None,
    }
}

impl Clone for ClaimAuthKeys {
    fn clone(&self) -> (r: Self)
        ensures
            r == *self,
    {
        ClaimAuthKeys {
            app_pubkey: self.app_pubkey.clone(),
            hardware_pubkey: self.hardware_pubkey.clone(),
            recovery_pubkey: clone_opt_string(&self.recovery_pubkey),
        }
    }
}

/// Fields that every claim carries, whatever its state.
#[derive(Debug)]
pub struct ClaimCommon {
    pub id: String,
    pub relationship_id: String,
    pub benefactor_id: String,
    pub beneficiary_id: String,
    pub auth_keys: ClaimAuthKeys,
    pub created_at: i64,
    pub destination: Option<Destination>,
    /// Bumped by every write to the store; a write names the revision it read.
    pub revision: u64,
}

impl Clone for ClaimCommon {
    fn clone(&self) -> (r: Self)
        ensures
            r == *self,
    {
        let destination = match &self.destination {
            Some(d) => Some(d.clone()),
            None => None,
        };
        ClaimCommon {
            id: self.id.clone(),
            relationship_id: self.relationship_id.clone(),
            benefactor_id: self.benefactor_id.clone(),
            beneficiary_id: self.beneficiary_id.clone(),
            auth_keys: self.auth_keys.clone(),
            created_at: self.created_at,
            destination,
            revision: self.revision,
        }
    }
}

/// The state of a claim, each variant holding only its own data.
#[derive(Debug)]
pub enum ClaimState {
    /// The waiting period runs until `delay_end_time`.
    Pending { delay_end_time: i64 },
    /// The delay elapsed and the challenge was met; the escrowed material and
    /// the benefactor's descriptor key-set are captured here.
    Locked { sealed_dek: String, sealed_mobile_key: String, benefactor_descriptor_keyset: String },
    /// Funds were swept by the given signed transaction.
    Completed { transaction: String },
    /// The claim was voided at `canceled_at`.
    Canceled { canceled_at: i64 },
}

impl Clone for ClaimState {
    fn clone(&self) -> (r: Self)
        ensures
            r == *self,
    {
        match self {
            ClaimState::Pending { delay_end_time } => ClaimState::Pending {
                delay_end_time: *delay_end_time,
            },
            ClaimState::Locked { sealed_dek, sealed_mobile_key, benefactor_descriptor_keyset } => {
                ClaimState::Locked {
                    sealed_dek: sealed_dek.clone(),
                    sealed_mobile_key: sealed_mobile_key.clone(),
                    benefactor_descriptor_keyset: benefactor_descriptor_keyset.clone(),
                }
            },
            ClaimState::Completed { transaction } => ClaimState::Completed {
                transaction: transaction.clone(),
            },
            ClaimState::Canceled { canceled_at } => ClaimState::Canceled {
                canceled_at: *canceled_at,
            },
        }
    }
}

/// An inheritance claim: the common fields and the state-specific data.
#[derive(Debug)]
pub struct InheritanceClaim {
    pub common: ClaimCommon,
    pub state: ClaimState,
}

impl Clone for InheritanceClaim {
    fn clone(&self) -> (r: Self)
        ensures
            r == *self,
    {
        InheritanceClaim { common: self.common.clone(), state: self.state.clone() }
    }
}

impl ClaimState {
    /// Pending and Locked claims are active; Completed and Canceled ones are terminal.
    pub open spec fn spec_is_active(&self) -> bool {
        self is Pending || self is Locked
    }

    /// The delay end time, if the state still carries one.
    pub open spec fn delay_end(&self) -> Option<i64> {
        match self {
            ClaimState::Pending { delay_end_time } => Some(*delay_end_time),
            _ => None,
        }
    }
}

impl InheritanceClaim {
    pub open spec fn spec_is_active(&self) -> bool {
        self.state.spec_is_active()
    }

    /// Whether the claim is Pending or Locked.
    pub fn is_active(&self) -> (r: bool)
        ensures
            r == self.spec_is_active(),
    {
        match self.state {
            ClaimState::Pending { .. } | ClaimState::Locked { .. } => true,
            _ => false,
        }
    }
}

/// Sealed key-escrow material that a benefactor uploads for one relationship.
#[derive(Debug)]
pub struct InheritancePackage {
    pub relationship_id: String,
    pub sealed_dek: String,
    pub sealed_mobile_key: String,
}

impl Clone for InheritancePackage {
    fn clone(&self) -> (r: Self)
        ensures
            r == *self,
    {
        InheritancePackage {
            relationship_id: self.relationship_id.clone(),
            sealed_dek: self.sealed_dek.clone(),
            sealed_mobile_key: self.sealed_mobile_key.clone(),
        }
    }
}

/// Why a request was rejected as malformed or out of order.
#[derive(Clone, Copy, Debug, PartialEq, Eq, Structural)]
pub enum BadRequestReason {
    /// The claim is not in a state that allows the action.
    InvalidState,
    /// The delay period has not elapsed yet.
    DelayNotElapsed,
    /// No escrow package exists for the relationship.
    MissingPackage,
    /// The challenge is not the canonical one for the claimant's keys.
    InvalidChallenge,
    /// The app or hardware signature over the challenge does not verify.
    InvalidSignature,
    /// Only the beneficiary may choose the destination.
    NotBeneficiary,
    /// The destination address is not valid for the wallet's network.
    InvalidDestination,
    /// A package names a relationship that is not endorsed for the caller.
    UnknownRelationship,
}

/// Why a request failed inside the server.
#[derive(Clone, Copy, Debug, PartialEq, Eq, Structural)]
pub enum InternalReason {
    /// The transaction does not have exactly one input with a finalized signature.
    SignatureCount,
    /// The transaction does not have exactly one output.
    OutputCount,
    /// The broadcaster did not accept the transaction.
    BroadcastFailed,
}

/// Every way an inheritance request can fail.
#[derive(Clone, Copy, Debug, PartialEq, Eq, Structural)]
pub enum ClaimError {
    Unauthorized,
    Forbidden,
    BadRequest(BadRequestReason),
    Conflict,
    ComplianceBlocked,
    NotFound,
    Internal(InternalReason),
}

impl ClaimError {
    /// The HTTP status under which the error is reported.
    pub fn status_code(&self) -> (r: u16)
        ensures
            r == self.spec_status_code(),
    {
        match self {
            ClaimError::Unauthorized => 401,
            ClaimError::Forbidden => 403,
            ClaimError::BadRequest(_) => 400,
            ClaimError::Conflict => 409,
            ClaimError::ComplianceBlocked => 451,
            ClaimError::NotFound => 404,
            ClaimError::Internal(_) => 500,
        }
    }

    pub open spec fn spec_status_code(&self) -> u16 {
        match self {
            ClaimError::Unauthorized => 401,
            ClaimError::Forbidden => 403,
            ClaimError::BadRequest(_) => 400,
            ClaimError::Conflict => 409,
            ClaimError::ComplianceBlocked => 451,
            ClaimError::NotFound => 404,
            ClaimError::Internal(_) => 500,
        }
    }
}

/// What a notification tells its recipient.
#[derive(Clone, Copy, Debug, PartialEq, Eq, Structural)]
pub enum NotificationKind {
    ClaimPeriodInitiated,
    ClaimPeriodCompleted,
    ClaimCanceled,
}

/// A notification that the dispatcher should deliver: now when `deliver_at`
/// is `None`, else at that time.
#[derive(Debug)]
pub struct Notification {
    pub kind: NotificationKind,
    pub recipient: String,
    pub deliver_at: Option<i64>,
}

} // verus!
