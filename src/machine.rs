//! The claim state machine: each operation checks the policy, computes the
//! next claim and declares the notifications to send.

use vstd::prelude::*;
use crate::chain::{address_is_valid, address_is_wsh, address_pays_to_wsh, address_valid_for, WalletNetwork};
use crate::model::{
    AccountType, BadRequestReason, CLAIM_DELAY_SECS, ClaimAuthKeys, ClaimCommon, ClaimError,
    ClaimState, Destination, DestinationKind, InheritanceClaim, InheritancePackage, Notification, NotificationKind,
};
use crate::policy::{ClaimAction, authorize, authorize_start, denial, start_denial};
use crate::relationships::RecoveryRelationship;

verus! {

/// A claim after an operation, with the notifications the operation declares.
#[derive(Debug)]
pub struct Transition {
    pub claim: InheritanceClaim,
    pub notifications: Vec<Notification>,
}

/// The same claim in another state.
pub open spec fn with_state(c: InheritanceClaim, s: ClaimState) -> InheritanceClaim {
    InheritanceClaim { common: c.common, state: s }
}

/// One notification of `kind` to each party of `c`, at `at` (`None`: now).
pub open spec fn to_both(c: InheritanceClaim, kind: NotificationKind, at: Option<i64>) -> Seq<Notification> {
    seq![
        Notification { kind, recipient: c.common.benefactor_id, deliver_at: at },
        Notification { kind, recipient: c.common.beneficiary_id, deliver_at: at },
    ]
}

/// The claim that a start creates.
pub open spec fn started_claim(
    rel: RecoveryRelationship,
    actor: String,
    keys: ClaimAuthKeys,
    id: String,
    now: i64,
) -> InheritanceClaim {
    InheritanceClaim {
        common: ClaimCommon {
            id,
            relationship_id: rel.id,
            benefactor_id: rel.benefactor_id,
            beneficiary_id: actor,
            auth_keys: keys,
            created_at: now,
            destination: None,
            revision: 0,
        },
        state: ClaimState::Pending { delay_end_time: (now + CLAIM_DELAY_SECS) as i64 },
    }
}

/// Both parties hear now that the claim period began, and again when it ends.
pub open spec fn start_notifications(c: InheritanceClaim) -> Seq<Notification> {
    to_both(c, NotificationKind::ClaimPeriodInitiated, None) + to_both(
        c,
        NotificationKind::ClaimPeriodCompleted,
        c.state.delay_end(),
    )
}

fn notify_both(claim: &InheritanceClaim, kind: NotificationKind, at: Option<i64>, out: &mut Vec<Notification>)
    ensures
        final(out)@ == old(out)@ + to_both(*claim, kind, at),
{
    out.push(Notification { kind, recipient: claim.common.benefactor_id.clone(), deliver_at: at });
    out.push(Notification { kind, recipient: claim.common.beneficiary_id.clone(), deliver_at: at });
    proof {
        assert(final(out)@ =~= old(out)@ + to_both(*claim, kind, at));
    }
}

/// Starts a claim on `rel` for `actor`, with the claimant's keys and a fresh id.
/// The delay ends `CLAIM_DELAY_SECS` after `now`.
pub fn start_claim(
    rel: &RecoveryRelationship,
    actor: &String,
    account: AccountType,
    auth_keys: ClaimAuthKeys,
    claim_id: String,
    now: i64,
    active_exists: bool,
) -> (r: Result<Transition, ClaimError>)
    requires
        now <= i64::MAX - CLAIM_DELAY_SECS,
    ensures
        r is Err <==> start_denial(*rel, actor@, account, active_exists) is Some,
        r matches Err(e) ==> start_denial(*rel, actor@, account, active_exists) == Some(e),
        r matches Ok(t) ==> t.claim == started_claim(*rel, *actor, auth_keys, claim_id, now)
            && t.notifications@ == start_notifications(t.claim),
{
    match authorize_start(actor, account, rel, active_exists) {
        Err(e) => Err(e),
        Ok(()) => {
            let claim = InheritanceClaim {
                common: ClaimCommon {
                    id: claim_id,
                    relationship_id: rel.id.clone(),
                    benefactor_id: rel.benefactor_id.clone(),
                    beneficiary_id: actor.clone(),
                    auth_keys,
                    created_at: now,
                    destination: None,
                    revision: 0,
                },
                state: ClaimState::Pending { delay_end_time: now + CLAIM_DELAY_SECS },
            };
            let mut notifications: Vec<Notification> = Vec::new();
            notify_both(&claim, NotificationKind::ClaimPeriodInitiated, None, &mut notifications);
            notify_both(
                &claim,
                NotificationKind::ClaimPeriodCompleted,
                Some(now + CLAIM_DELAY_SECS),
                &mut notifications,
            );
            proof {
                assert(notifications@ =~= start_notifications(claim));
            }
            Ok(Transition { claim, notifications })
        },
    }
}

/// The claim after a permitted cancel: a Canceled claim stays as it is.
pub open spec fn canceled_claim(c: InheritanceClaim, now: i64) -> InheritanceClaim {
    if c.state is Canceled {
        c
    } else {
        with_state(c, ClaimState::Canceled { canceled_at: now })
    }
}

/// Both parties hear of a cancel that changed the claim; a repeated cancel is silent.
pub open spec fn cancel_notifications(c: InheritanceClaim) -> Seq<Notification> {
    if c.state is Canceled {
        Seq::empty()
    } else {
        to_both(c, NotificationKind::ClaimCanceled, None)
    }
}

/// Cancels `claim` on behalf of `actor` at time `now`.
pub fn cancel_claim(claim: InheritanceClaim, actor: &String, account: AccountType, now: i64) -> (r:
    Result<Transition, ClaimError>)
    ensures
        r is Err <==> denial(claim, actor@, account, ClaimAction::Cancel) is Some,
        r matches Err(e) ==> denial(claim, actor@, account, ClaimAction::Cancel) == Some(e),
        r matches Ok(t) ==> t.claim == canceled_claim(claim, now) && t.notifications@
            == cancel_notifications(claim),
{
    match authorize(actor, account, &claim, ClaimAction::Cancel) {
        Err(e) => Err(e),
        Ok(()) => {
            let mut notifications: Vec<Notification> = Vec::new();
            if let ClaimState::Canceled { .. } = claim.state {
                proof {
                    assert(notifications@ =~= cancel_notifications(claim));
                }
                Ok(Transition { claim, notifications })
            } else {
                notify_both(&claim, NotificationKind::ClaimCanceled, None, &mut notifications);
                proof {
                    assert(notifications@ =~= cancel_notifications(claim));
                }
                Ok(Transition {
                    claim: InheritanceClaim {
                        common: claim.common,
                        state: ClaimState::Canceled { canceled_at: now },
                    },
                    notifications,
                })
            }
        },
    }
}

/// The challenge that both of the claimant's keys must sign to lock a claim:
/// a fixed prefix, then the hardware, app and (if any) recovery public keys.
pub open spec fn spec_canonical_challenge(keys: ClaimAuthKeys) -> Seq<char> {
    "LockInheritanceClaim"@ + keys.hardware_pubkey@ + keys.app_pubkey@ + match keys.recovery_pubkey {
        Some(k) => k@,
        None => Seq::empty(),
    }
}

/// Builds the canonical lock challenge for `keys`.
pub fn canonical_challenge(keys: &ClaimAuthKeys) -> (r: String)
    ensures
        r@ == spec_canonical_challenge(*keys),
{
    let mut challenge = String::from_str("LockInheritanceClaim");
    challenge.append(keys.hardware_pubkey.as_str());
    challenge.append(keys.app_pubkey.as_str());
    if let Some(k) = &keys.recovery_pubkey {
        challenge.append(k.as_str());
    }
    proof {
        assert(challenge@ =~= spec_canonical_challenge(*keys));
    }
    challenge
}

/// Whether `package` holds the escrow material of the claim's relationship.
pub open spec fn package_for(c: InheritanceClaim, package: Option<InheritancePackage>) -> bool {
    package is Some && package.unwrap().relationship_id@ == c.common.relationship_id@
}

/// The error that denies a lock, or `None`. Beyond the policy, the delay must
/// have elapsed, the escrow package must exist, the challenge must be the
/// canonical one, and both signatures over it must verify.
pub open spec fn lock_denial(
    c: InheritanceClaim,
    actor: Seq<char>,
    account: AccountType,
    now: i64,
    package: Option<InheritancePackage>,
    challenge: Seq<char>,
    app_signature_valid: bool,
    hardware_signature_valid: bool,
) -> Option<ClaimError> {
    if denial(c, actor, account, ClaimAction::Lock) is Some {
        denial(c, actor, account, ClaimAction::Lock)
    } else if now < c.state.delay_end().unwrap() {
        Some(ClaimError::BadRequest(BadRequestReason::DelayNotElapsed))
    } else if !package_for(c, package) {
        Some(ClaimError::BadRequest(BadRequestReason::MissingPackage))
    } else if challenge != spec_canonical_challenge(c.common.auth_keys) {
        Some(ClaimError::BadRequest(BadRequestReason::InvalidChallenge))
    } else if !app_signature_valid || !hardware_signature_valid {
        Some(ClaimError::BadRequest(BadRequestReason::InvalidSignature))
    } else {
        None
    }
}

/// The Locked claim that a permitted lock produces.
pub open spec fn locked_claim(c: InheritanceClaim, package: InheritancePackage, keyset: String) -> InheritanceClaim {
    with_state(
        c,
        ClaimState::Locked {
            sealed_dek: package.sealed_dek,
            sealed_mobile_key: package.sealed_mobile_key,
            benefactor_descriptor_keyset: keyset,
        },
    )
}

/// Locks `claim` for `actor` at `now`. The signature flags say whether the
/// app and hardware signatures verify over `challenge`; `descriptor_keyset`
/// is the benefactor's key-set at this moment, kept with the claim.
pub fn lock_claim(
    claim: InheritanceClaim,
    actor: &String,
    account: AccountType,
    now: i64,
    package: &Option<InheritancePackage>,
    challenge: &String,
    app_signature_valid: bool,
    hardware_signature_valid: bool,
    descriptor_keyset: String,
) -> (r: Result<InheritanceClaim, ClaimError>)
    ensures
        ({
            let d = lock_denial(
                claim,
                actor@,
                account,
                now,
                *package,
                challenge@,
                app_signature_valid,
                hardware_signature_valid,
            );
            &&& r is Err <==> d is Some
            &&& r matches Err(e) ==> d == Some(e)
            &&& r matches Ok(c) ==> c == locked_claim(claim, package.unwrap(), descriptor_keyset)
        }),
{
    if let Err(e) = authorize(actor, account, &claim, ClaimAction::Lock) {
        return Err(e);
    }
    let delay_end_time = match claim.state {
        ClaimState::Pending { delay_end_time } => delay_end_time,
        _ => {
            return Err(ClaimError::BadRequest(BadRequestReason::InvalidState));
        },
    };
    if now < delay_end_time {
        return Err(ClaimError::BadRequest(BadRequestReason::DelayNotElapsed));
    }
    let (sealed_dek, sealed_mobile_key) = match package {
        Some(p) => {
            if p.relationship_id != claim.common.relationship_id {
                return Err(ClaimError::BadRequest(BadRequestReason::MissingPackage));
            }
            (p.sealed_dek.clone(), p.sealed_mobile_key.clone())
        },
        None => {
            return Err(ClaimError::BadRequest(BadRequestReason::MissingPackage));
        },
    };
    let expected = canonical_challenge(&claim.common.auth_keys);
    if *challenge != expected {
        return Err(ClaimError::BadRequest(BadRequestReason::InvalidChallenge));
    }
    if !app_signature_valid || !hardware_signature_valid {
        return Err(ClaimError::BadRequest(BadRequestReason::InvalidSignature));
    }
    Ok(InheritanceClaim {
        common: claim.common,
        state: ClaimState::Locked {
            sealed_dek,
            sealed_mobile_key,
            benefactor_descriptor_keyset: descriptor_keyset,
        },
    })
}

/// The error that denies setting a destination, or `None`. Beyond the policy,
/// the address must be valid for the wallet's network and, for an internal
/// destination, be in the wallet's own address format.
pub open spec fn destination_denial(
    c: InheritanceClaim,
    actor: Seq<char>,
    account: AccountType,
    kind: DestinationKind,
    address_valid: bool,
    wallet_format: bool,
) -> Option<ClaimError> {
    if denial(c, actor, account, ClaimAction::UpdateDestination) is Some {
        denial(c, actor, account, ClaimAction::UpdateDestination)
    } else if !address_valid || (kind == DestinationKind::Internal && !wallet_format) {
        Some(ClaimError::BadRequest(BadRequestReason::InvalidDestination))
    } else {
        None
    }
}

/// The claim with `d` as its destination, in the same state.
pub open spec fn with_destination(c: InheritanceClaim, d: Destination) -> InheritanceClaim {
    InheritanceClaim { common: ClaimCommon { destination: Some(d), ..c.common }, state: c.state }
}

/// Sets the destination of `claim`, given whether its address is valid for
/// the wallet's network and whether it is in the wallet's own format; an
/// earlier destination is overwritten.
pub fn apply_destination(
    claim: InheritanceClaim,
    actor: &String,
    account: AccountType,
    destination: Destination,
    address_valid: bool,
    wallet_format: bool,
) -> (r: Result<InheritanceClaim, ClaimError>)
    ensures
        ({
            let d = destination_denial(claim, actor@, account, destination.kind, address_valid, wallet_format);
            &&& r is Err <==> d is Some
            &&& r matches Err(e) ==> d == Some(e)
            &&& r matches Ok(c) ==> c == with_destination(claim, destination)
        }),
{
    if let Err(e) = authorize(actor, account, &claim, ClaimAction::UpdateDestination) {
        return Err(e);
    }
    if !address_valid || (destination.kind == DestinationKind::Internal && !wallet_format) {
        return Err(ClaimError::BadRequest(BadRequestReason::InvalidDestination));
    }
    let mut claim = claim;
    claim.common.destination = Some(destination);
    Ok(claim)
}

/// The error that denies setting `d` as the destination on `network`, or `None`.
pub open spec fn update_denial(
    c: InheritanceClaim,
    actor: Seq<char>,
    account: AccountType,
    d: Destination,
    network: WalletNetwork,
) -> Option<ClaimError> {
    destination_denial(c, actor, account, d.kind, address_valid_for(d.address@, network), address_is_wsh(d.address@))
}

/// Sets the destination of `claim`, checking its address against `network`
/// and, for an internal destination, against the wallet's address format.
pub fn update_destination(
    claim: InheritanceClaim,
    actor: &String,
    account: AccountType,
    destination: Destination,
    network: WalletNetwork,
) -> (r: Result<InheritanceClaim, ClaimError>)
    ensures
        ({
            let d = update_denial(claim, actor@, account, destination, network);
            &&& r is Err <==> d is Some
            &&& r matches Err(e) ==> d == Some(e)
            &&& r matches Ok(c) ==> c == with_destination(claim, destination)
        }),
{
    let valid = address_is_valid(destination.address.as_str(), network);
    let wallet_format = address_pays_to_wsh(destination.address.as_str());
    apply_destination(claim, actor, account, destination, valid, wallet_format)
}

/// Two key sets with the same keys.
pub open spec fn same_keys(a: ClaimAuthKeys, b: ClaimAuthKeys) -> bool {
    &&& a.app_pubkey@ == b.app_pubkey@
    &&& a.hardware_pubkey@ == b.hardware_pubkey@
    &&& a.recovery_pubkey is Some <==> b.recovery_pubkey is Some
    &&& a.recovery_pubkey is Some ==> a.recovery_pubkey.unwrap()@ == b.recovery_pubkey.unwrap()@
}

/// Two optional destinations with the same address and kind.
pub open spec fn same_destination(a: Option<Destination>, b: Option<Destination>) -> bool {
    &&& a is Some <==> b is Some
    &&& a is Some ==> a.unwrap().address@ == b.unwrap().address@ && a.unwrap().kind == b.unwrap().kind
}

/// The fields that no operation may change: identity, parties, keys, creation time.
pub open spec fn same_identity(a: InheritanceClaim, b: InheritanceClaim) -> bool {
    &&& b.common.id@ == a.common.id@
    &&& b.common.relationship_id@ == a.common.relationship_id@
    &&& b.common.benefactor_id@ == a.common.benefactor_id@
    &&& b.common.beneficiary_id@ == a.common.beneficiary_id@
    &&& same_keys(a.common.auth_keys, b.common.auth_keys)
    &&& b.common.created_at == a.common.created_at
}

/// Two states that are the same state with the same data.
pub open spec fn same_state(a: ClaimState, b: ClaimState) -> bool {
    match (a, b) {
        (ClaimState::Pending { delay_end_time: x }, ClaimState::Pending { delay_end_time: y }) => x == y,
        (
            ClaimState::Locked { sealed_dek: d1, sealed_mobile_key: m1, benefactor_descriptor_keyset: k1 },
            ClaimState::Locked { sealed_dek: d2, sealed_mobile_key: m2, benefactor_descriptor_keyset: k2 },
        ) => d1@ == d2@ && m1@ == m2@ && k1@ == k2@,
        (ClaimState::Completed { transaction: x }, ClaimState::Completed { transaction: y }) => x@ == y@,
        (ClaimState::Canceled { canceled_at: x }, ClaimState::Canceled { canceled_at: y }) => x == y,
        _ => false,
    }
}

/// The forward-only steps between states: Pending to Locked or Canceled,
/// Locked to Completed or Canceled, a Completed claim to another completion
/// (a fee bump); otherwise the state stays as it was.
pub open spec fn state_step(a: ClaimState, b: ClaimState) -> bool {
    match a {
        ClaimState::Pending { .. } => same_state(a, b) || b is Locked || b is Canceled,
        ClaimState::Locked { .. } => same_state(a, b) || b is Completed || b is Canceled,
        ClaimState::Completed { .. } => b is Completed,
        ClaimState::Canceled { .. } => same_state(a, b),
    }
}

/// Whether `b` may replace `a` in the store: same identity, a forward step,
/// and a destination changed only while `a` was active.
pub open spec fn successor(a: InheritanceClaim, b: InheritanceClaim) -> bool {
    &&& same_identity(a, b)
    &&& state_step(a.state, b.state)
    &&& !same_destination(a.common.destination, b.common.destination) ==> a.state.spec_is_active()
}

/// Checks `successor` on two claims.
pub fn is_successor(a: &InheritanceClaim, b: &InheritanceClaim) -> (r: bool)
    ensures
        r == successor(*a, *b),
{
    if a.common.id != b.common.id || a.common.relationship_id != b.common.relationship_id
        || a.common.benefactor_id != b.common.benefactor_id || a.common.beneficiary_id
        != b.common.beneficiary_id || a.common.created_at != b.common.created_at {
        return false;
    }
    let ka = &a.common.auth_keys;
    let kb = &b.common.auth_keys;
    if ka.app_pubkey != kb.app_pubkey || ka.hardware_pubkey != kb.hardware_pubkey {
        return false;
    }
    let same_recovery = match (&ka.recovery_pubkey, &kb.recovery_pubkey) {
        (Some(x), Some(y)) => *x == *y,
        (None, None) => true,
        _ => false,
    };
    if !same_recovery {
        return false;
    }
    let step = match (&a.state, &b.state) {
        (ClaimState::Pending { delay_end_time: x }, ClaimState::Pending { delay_end_time: y }) => *x == *y,
        (ClaimState::Pending { .. }, ClaimState::Locked { .. }) => true,
        (ClaimState::Pending { .. }, ClaimState::Canceled { .. }) => true,
        (
            ClaimState::Locked { sealed_dek: d1, sealed_mobile_key: m1, benefactor_descriptor_keyset: k1 },
            ClaimState::Locked { sealed_dek: d2, sealed_mobile_key: m2, benefactor_descriptor_keyset: k2 },
        ) => *d1 == *d2 && *m1 == *m2 && *k1 == *k2,
        (ClaimState::Locked { .. }, ClaimState::Completed { .. }) => true,
        (ClaimState::Locked { .. }, ClaimState::Canceled { .. }) => true,
        (ClaimState::Completed { .. }, ClaimState::Completed { .. }) => true,
        (ClaimState::Canceled { canceled_at: x }, ClaimState::Canceled { canceled_at: y }) => *x == *y,
        _ => false,
    };
    if !step {
        return false;
    }
    let same_destination = match (&a.common.destination, &b.common.destination) {
        (Some(x), Some(y)) => x.address == y.address && x.kind == y.kind,
        (None, None) => true,
        _ => false,
    };
    same_destination || a.is_active()
}

/// Every permitted operation moves a claim forward: its result may replace it.
pub proof fn lemma_operations_step_forward(
    c: InheritanceClaim,
    now: i64,
    package: InheritancePackage,
    keyset: String,
    d: Destination,
    tx_reference: String,
)
    ensures
        c.state.spec_is_active() ==> successor(c, canceled_claim(c, now)),
        c.state is Canceled ==> successor(c, canceled_claim(c, now)),
        c.state is Pending ==> successor(c, locked_claim(c, package, keyset)),
        c.state.spec_is_active() ==> successor(c, with_destination(c, d)),
        c.state is Locked || c.state is Completed ==> successor(
            c,
            with_state(c, ClaimState::Completed { transaction: tx_reference }),
        ),
{
}

/// Once set at creation, the delay end time never changes: any claim that may
/// follow a claim and still carries a delay end time carries the same one.
pub proof fn lemma_delay_end_time_fixed(a: InheritanceClaim, b: InheritanceClaim)
    requires
        successor(a, b),
        b.state.delay_end() is Some,
    ensures
        a.state.delay_end() == b.state.delay_end(),
{
}

/// For a Pending claim and its beneficiary on a full account, a lock succeeds
/// exactly when the delay has elapsed, the escrow package exists, the
/// challenge is the canonical one and both signatures verify.
pub proof fn lemma_lock_conditions(
    c: InheritanceClaim,
    actor: Seq<char>,
    now: i64,
    package: Option<InheritancePackage>,
    challenge: Seq<char>,
    app_signature_valid: bool,
    hardware_signature_valid: bool,
)
    requires
        c.state is Pending,
        actor == c.common.beneficiary_id@,
    ensures
        lock_denial(
            c,
            actor,
            AccountType::Full,
            now,
            package,
            challenge,
            app_signature_valid,
            hardware_signature_valid,
        ) is None <==> {
            &&& now >= c.state.delay_end().unwrap()
            &&& package_for(c, package)
            &&& challenge == spec_canonical_challenge(c.common.auth_keys)
            &&& app_signature_valid
            &&& hardware_signature_valid
        },
{
}

/// Cancel is idempotent: once a permitted cancel has voided a claim, a second
/// cancel at any later time is permitted too, leaves the claim exactly as it
/// is (its cancellation time included) and notifies no one.
pub proof fn lemma_cancel_idempotent(c: InheritanceClaim, actor: Seq<char>, account: AccountType, t1: i64, t2: i64)
    requires
        denial(c, actor, account, ClaimAction::Cancel) is None,
    ensures
        denial(canceled_claim(c, t1), actor, account, ClaimAction::Cancel) is None,
        canceled_claim(canceled_claim(c, t1), t2) == canceled_claim(c, t1),
        cancel_notifications(canceled_claim(c, t1)).len() == 0,
        c.state is Canceled ==> canceled_claim(c, t1) == c,
{
}

/// Only the beneficiary of a full account may set the destination: the
/// benefactor and any other actor get a Bad Request, whatever the address.
/// The beneficiary, on an active claim and with an address that passes the
/// checks, succeeds and the claim then holds that destination.
pub proof fn lemma_destination_rules(
    c: InheritanceClaim,
    actor: Seq<char>,
    d: Destination,
    address_valid: bool,
    wallet_format: bool,
)
    ensures
        actor != c.common.beneficiary_id@ ==> destination_denial(
            c,
            actor,
            AccountType::Full,
            d.kind,
            address_valid,
            wallet_format,
        ) == Some(ClaimError::BadRequest(BadRequestReason::NotBeneficiary)),
        actor == c.common.beneficiary_id@ && c.state.spec_is_active() && address_valid && (d.kind
            == DestinationKind::External || wallet_format) ==> destination_denial(
            c,
            actor,
            AccountType::Full,
            d.kind,
            address_valid,
            wallet_format,
        ) is None && with_destination(c, d).common.destination == Some(d) && with_destination(c, d).state
            == c.state,
{
}

} // verus!
