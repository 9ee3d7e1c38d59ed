use recovery::chain::WalletNetwork;
use recovery::completion::{finish_completion, plan_completion, SweepTransaction};
use recovery::machine::{
    apply_destination, cancel_claim, canonical_challenge, lock_claim, start_claim, update_destination,
};
use recovery::model::{
    AccountType, BadRequestReason, ClaimAuthKeys, ClaimError, ClaimState, Destination, DestinationKind,
    InheritanceClaim, InheritancePackage, InternalReason, NotificationKind, CLAIM_DELAY_SECS,
};
use recovery::packages::PackageStore;
use recovery::relationships::{RecoveryRelationship, RelationshipStatus, TrustedContactRole};
use recovery::store::ClaimStore;

const NOW: i64 = 1_700_000_000;
const VALID_TESTNET: &str = "tb1qx70e787fwv2wzy39denc86vkdzgaf8804g4lsylh5cv5dz5xlj9skzcl7c";
const OTHER_TESTNET: &str = "tb1q3fd3hf4ccfa0qsne3hcj3k7h6272sg00g4458q";
const MAINNET: &str = "bc1qw508d6qejxtdg4y5r3zarvary0c5xw7kv8f3t4";

fn s(v: &str) -> String {
    v.to_string()
}

fn relationship(status: RelationshipStatus) -> RecoveryRelationship {
    RecoveryRelationship {
        id: s("rel-1"),
        benefactor_id: s("benefactor"),
        beneficiary_id: Some(s("beneficiary")),
        roles: vec![TrustedContactRole::Beneficiary],
        status,
    }
}

fn keys() -> ClaimAuthKeys {
    ClaimAuthKeys { app_pubkey: s("02aa"), hardware_pubkey: s("03bb"), recovery_pubkey: Some(s("02cc")) }
}

fn package() -> InheritancePackage {
    InheritancePackage {
        relationship_id: s("rel-1"),
        sealed_dek: s("RANDOM_SEALED_DEK"),
        sealed_mobile_key: s("RANDOM_SEALED_MOBILE_KEY"),
    }
}

fn pending_claim() -> InheritanceClaim {
    let rel = relationship(RelationshipStatus::Endorsed);
    start_claim(&rel, &s("beneficiary"), AccountType::Full, keys(), s("claim-1"), NOW, false)
        .unwrap()
        .claim
}

fn locked_claim() -> InheritanceClaim {
    let challenge = canonical_challenge(&keys());
    lock_claim(
        pending_claim(),
        &s("beneficiary"),
        AccountType::Full,
        NOW + CLAIM_DELAY_SECS,
        &Some(package()),
        &challenge,
        true,
        true,
        s("KEYSET"),
    )
    .unwrap()
}

fn sweep(reference: &str, signed: Vec<bool>, outputs: Vec<&str>) -> SweepTransaction {
    SweepTransaction {
        reference: s(reference),
        input_signed: signed,
        outputs: outputs.into_iter().map(s).collect(),
    }
}

#[test]
fn start_inheritance_claim_test() {
    let rel = relationship(RelationshipStatus::Endorsed);
    let mut store = ClaimStore::new();
    let t = store
        .start(&rel, &s("beneficiary"), AccountType::Full, keys(), s("claim-1"), NOW)
        .unwrap();
    assert!(matches!(t.claim.state, ClaimState::Pending { delay_end_time } if delay_end_time == NOW + 604800));
    assert_eq!(t.claim.common.benefactor_id, "benefactor");
    assert_eq!(t.claim.common.beneficiary_id, "beneficiary");
    assert_eq!(t.claim.common.revision, 0);
    assert_eq!(t.notifications.len(), 4);
    assert_eq!(t.notifications[0].kind, NotificationKind::ClaimPeriodInitiated);
    assert_eq!(t.notifications[0].recipient, "benefactor");
    assert_eq!(t.notifications[0].deliver_at, None);
    assert_eq!(t.notifications[1].recipient, "beneficiary");
    assert_eq!(t.notifications[2].kind, NotificationKind::ClaimPeriodCompleted);
    assert_eq!(t.notifications[2].deliver_at, Some(NOW + 604800));
    assert_eq!(t.notifications[3].recipient, "beneficiary");
    assert_eq!(store.claims_for_relationship(&s("rel-1")).len(), 1);

    // A lite account may not start a claim.
    let mut lite = ClaimStore::new();
    let r = lite.start(&rel, &s("beneficiary"), AccountType::Lite, keys(), s("claim-2"), NOW);
    assert_eq!(r.unwrap_err(), ClaimError::Forbidden);

    // A second claim while one is active is a conflict.
    let r = store.start(&rel, &s("beneficiary"), AccountType::Full, keys(), s("claim-2"), NOW);
    assert_eq!(r.unwrap_err(), ClaimError::Conflict);
    assert_eq!(store.len(), 1);
}

#[test]
fn start_requires_endorsed_relationship_and_its_beneficiary() {
    let mut store = ClaimStore::new();
    let accepted = relationship(RelationshipStatus::Accepted);
    let r = store.start(&accepted, &s("beneficiary"), AccountType::Full, keys(), s("c"), NOW);
    assert_eq!(r.unwrap_err(), ClaimError::Forbidden);
    let endorsed = relationship(RelationshipStatus::Endorsed);
    let r = store.start(&endorsed, &s("stranger"), AccountType::Full, keys(), s("c"), NOW);
    assert_eq!(r.unwrap_err(), ClaimError::Unauthorized);
    let mut other_role = relationship(RelationshipStatus::Endorsed);
    other_role.roles = vec![TrustedContactRole::SocialRecoveryContact];
    let r = store.start(&other_role, &s("beneficiary"), AccountType::Full, keys(), s("c"), NOW);
    assert_eq!(r.unwrap_err(), ClaimError::Forbidden);
    assert_eq!(store.len(), 0);
}

#[test]
fn start_after_cancel_is_allowed_and_reused_id_conflicts() {
    let rel = relationship(RelationshipStatus::Endorsed);
    let mut store = ClaimStore::new();
    store.start(&rel, &s("beneficiary"), AccountType::Full, keys(), s("claim-1"), NOW).unwrap();
    store.cancel(&s("claim-1"), &s("benefactor"), AccountType::Full, NOW + 5).unwrap();
    let r = store.start(&rel, &s("beneficiary"), AccountType::Full, keys(), s("claim-1"), NOW + 6);
    assert_eq!(r.unwrap_err(), ClaimError::Conflict);
    store.start(&rel, &s("beneficiary"), AccountType::Full, keys(), s("claim-2"), NOW + 7).unwrap();
    let history = store.claims_for_relationship(&s("rel-1"));
    assert_eq!(history.len(), 2);
    assert_eq!(history[0].common.id, "claim-1");
    assert_eq!(history[1].common.id, "claim-2");
}

#[test]
fn package_upload_test() {
    let rels = vec![relationship(RelationshipStatus::Endorsed)];
    let mut packages = PackageStore::new();
    assert!(packages.upload_packages(&s("benefactor"), &rels, vec![package()]).is_ok());
    assert_eq!(packages.get(&s("rel-1")).unwrap().sealed_dek, "RANDOM_SEALED_DEK");

    let unknown = InheritancePackage {
        relationship_id: s("urn:wallet-recovery-relationship:01J7P50S2SPMZJPQTERANGC0FE"),
        sealed_dek: s("a"),
        sealed_mobile_key: s("b"),
    };
    let r = packages.upload_packages(&s("benefactor"), &rels, vec![unknown]);
    assert_eq!(r.unwrap_err(), ClaimError::BadRequest(BadRequestReason::UnknownRelationship));

    // Only the benefactor of an endorsed relationship may upload.
    let r = packages.upload_packages(&s("beneficiary"), &rels, vec![package()]);
    assert!(r.is_err());
    let unendorsed = vec![relationship(RelationshipStatus::Accepted)];
    let mut fresh = PackageStore::new();
    assert!(fresh.upload_packages(&s("benefactor"), &unendorsed, vec![package()]).is_err());
    assert!(fresh.get(&s("rel-1")).is_none());

    // A later upload replaces the earlier one.
    let newer = InheritancePackage { relationship_id: s("rel-1"), sealed_dek: s("NEW"), sealed_mobile_key: s("NEW_KEY") };
    packages.upload_packages(&s("benefactor"), &rels, vec![newer]).unwrap();
    assert_eq!(packages.get(&s("rel-1")).unwrap().sealed_dek, "NEW");
}

#[test]
fn cancel_inheritance_claim() {
    for (actor, precancel, expected) in [
        ("benefactor", false, Ok(())),
        ("beneficiary", false, Ok(())),
        ("external", false, Err(ClaimError::Unauthorized)),
        ("benefactor", true, Ok(())),
        ("beneficiary", true, Ok(())),
        ("external", true, Err(ClaimError::Unauthorized)),
    ] {
        let rel = relationship(RelationshipStatus::Endorsed);
        let mut store = ClaimStore::new();
        store.start(&rel, &s("beneficiary"), AccountType::Full, keys(), s("claim-1"), NOW).unwrap();
        if precancel {
            store.cancel(&s("claim-1"), &s("benefactor"), AccountType::Full, NOW + 1).unwrap();
        }
        let r = store.cancel(&s("claim-1"), &s(actor), AccountType::Full, NOW + 2);
        assert_eq!(r.as_ref().map(|_| ()).map_err(|e| *e), expected);
        if let Ok(t) = r {
            let at = if precancel { NOW + 1 } else { NOW + 2 };
            assert!(matches!(t.claim.state, ClaimState::Canceled { canceled_at } if canceled_at == at));
            assert_eq!(t.notifications.len(), if precancel { 0 } else { 2 });
        }
    }
}

#[test]
fn cancel_twice_keeps_the_first_cancellation() {
    let first = cancel_claim(pending_claim(), &s("beneficiary"), AccountType::Full, NOW + 10).unwrap();
    assert_eq!(first.notifications.len(), 2);
    assert_eq!(first.notifications[0].kind, NotificationKind::ClaimCanceled);
    let second = cancel_claim(first.claim, &s("beneficiary"), AccountType::Full, NOW + 20).unwrap();
    let third = cancel_claim(second.claim, &s("benefactor"), AccountType::Full, NOW + 30).unwrap();
    assert!(matches!(third.claim.state, ClaimState::Canceled { canceled_at } if canceled_at == NOW + 10));
    assert!(third.notifications.is_empty());

    let mut store = ClaimStore::new();
    let rel = relationship(RelationshipStatus::Endorsed);
    store.start(&rel, &s("beneficiary"), AccountType::Full, keys(), s("claim-1"), NOW).unwrap();
    store.cancel(&s("claim-1"), &s("benefactor"), AccountType::Full, NOW + 1).unwrap();
    let rev = store.fetch(&s("claim-1")).unwrap().common.revision;
    store.cancel(&s("claim-1"), &s("benefactor"), AccountType::Full, NOW + 2).unwrap();
    store.cancel(&s("claim-1"), &s("beneficiary"), AccountType::Full, NOW + 3).unwrap();
    let after = store.fetch(&s("claim-1")).unwrap();
    assert_eq!(after.common.revision, rev);
    assert!(matches!(after.state, ClaimState::Canceled { canceled_at } if canceled_at == NOW + 1));
}

#[test]
fn cancel_completed_claim_is_refused() {
    let completed = finish_completion(locked_claim(), &sweep("tx", vec![true], vec![VALID_TESTNET]), true).unwrap();
    let r = cancel_claim(completed, &s("benefactor"), AccountType::Full, NOW);
    assert_eq!(r.unwrap_err(), ClaimError::BadRequest(BadRequestReason::InvalidState));
}

#[test]
fn update_inheritance_claim_test() {
    let dest = |a: &str, kind| Destination { address: s(a), kind };
    let ok = update_destination(
        pending_claim(),
        &s("beneficiary"),
        AccountType::Full,
        dest(VALID_TESTNET, DestinationKind::Internal),
        WalletNetwork::Testnet,
    )
    .unwrap();
    assert_eq!(ok.common.destination.unwrap().address, VALID_TESTNET);
    for actor in ["benefactor", "external"] {
        let r = update_destination(
            pending_claim(),
            &s(actor),
            AccountType::Full,
            dest(VALID_TESTNET, DestinationKind::Internal),
            WalletNetwork::Testnet,
        );
        assert_eq!(r.unwrap_err(), ClaimError::BadRequest(BadRequestReason::NotBeneficiary));
    }
    for bad in ["not-an-address", MAINNET] {
        let r = update_destination(
            pending_claim(),
            &s("beneficiary"),
            AccountType::Full,
            dest(bad, DestinationKind::External),
            WalletNetwork::Testnet,
        );
        assert_eq!(r.unwrap_err(), ClaimError::BadRequest(BadRequestReason::InvalidDestination));
    }
    // A valid address outside the wallet's own format is refused as internal.
    let r = update_destination(
        pending_claim(),
        &s("beneficiary"),
        AccountType::Full,
        dest(OTHER_TESTNET, DestinationKind::Internal),
        WalletNetwork::Testnet,
    );
    assert_eq!(r.unwrap_err(), ClaimError::BadRequest(BadRequestReason::InvalidDestination));
    let main = update_destination(
        pending_claim(),
        &s("beneficiary"),
        AccountType::Full,
        dest(MAINNET, DestinationKind::External),
        WalletNetwork::Bitcoin,
    );
    assert!(main.is_ok());
    let other = update_destination(
        locked_claim(),
        &s("beneficiary"),
        AccountType::Full,
        dest(OTHER_TESTNET, DestinationKind::External),
        WalletNetwork::Signet,
    );
    assert!(other.is_ok());
}

#[test]
fn destination_update_is_visible_on_fetch() {
    let rel = relationship(RelationshipStatus::Endorsed);
    let mut store = ClaimStore::new();
    store.start(&rel, &s("beneficiary"), AccountType::Full, keys(), s("claim-1"), NOW).unwrap();
    let first = Destination { address: s(OTHER_TESTNET), kind: DestinationKind::External };
    store
        .update_destination(&s("claim-1"), &s("beneficiary"), AccountType::Full, first, WalletNetwork::Testnet)
        .unwrap();
    let second = Destination { address: s(VALID_TESTNET), kind: DestinationKind::Internal };
    let stored = store
        .update_destination(&s("claim-1"), &s("beneficiary"), AccountType::Full, second, WalletNetwork::Testnet)
        .unwrap();
    assert_eq!(stored.common.revision, 2);
    let fetched = store.fetch(&s("claim-1")).unwrap();
    let d = fetched.common.destination.unwrap();
    assert_eq!(d.address, VALID_TESTNET);
    assert_eq!(d.kind, DestinationKind::Internal);
    assert!(matches!(fetched.state, ClaimState::Pending { .. }));
    let r = store.update_destination(
        &s("claim-1"),
        &s("benefactor"),
        AccountType::Full,
        Destination { address: s(VALID_TESTNET), kind: DestinationKind::External },
        WalletNetwork::Testnet,
    );
    assert_eq!(r.unwrap_err(), ClaimError::BadRequest(BadRequestReason::NotBeneficiary));
    let r = store.update_destination(&s("claim-9"), &s("beneficiary"), AccountType::Full,
        Destination { address: s(VALID_TESTNET), kind: DestinationKind::External }, WalletNetwork::Testnet);
    assert_eq!(r.unwrap_err(), ClaimError::NotFound);
}

#[test]
fn apply_destination_follows_the_validity_flag() {
    let d = Destination { address: s("x"), kind: DestinationKind::External };
    let r = apply_destination(pending_claim(), &s("beneficiary"), AccountType::Full, d, false, true);
    assert_eq!(r.unwrap_err(), ClaimError::BadRequest(BadRequestReason::InvalidDestination));
    let d = Destination { address: s("x"), kind: DestinationKind::External };
    let r = apply_destination(pending_claim(), &s("beneficiary"), AccountType::Full, d, true, false).unwrap();
    assert_eq!(r.common.destination.unwrap().address, "x");
    let d = Destination { address: s("x"), kind: DestinationKind::Internal };
    let r = apply_destination(pending_claim(), &s("beneficiary"), AccountType::Full, d, true, false);
    assert_eq!(r.unwrap_err(), ClaimError::BadRequest(BadRequestReason::InvalidDestination));
    let d = Destination { address: s("x"), kind: DestinationKind::External };
    let r = apply_destination(pending_claim(), &s("beneficiary"), AccountType::Lite, d, true, true);
    assert_eq!(r.unwrap_err(), ClaimError::Forbidden);
}

#[test]
fn canonical_challenge_concatenates_keys() {
    assert_eq!(canonical_challenge(&keys()), "LockInheritanceClaim03bb02aa02cc");
    let no_recovery = ClaimAuthKeys { app_pubkey: s("A"), hardware_pubkey: s("H"), recovery_pubkey: None };
    assert_eq!(canonical_challenge(&no_recovery), "LockInheritanceClaimHA");
}

#[test]
fn test_lock_inheritance_claim_success() {
    let claim = locked_claim();
    match claim.state {
        ClaimState::Locked { sealed_dek, sealed_mobile_key, benefactor_descriptor_keyset } => {
            assert_eq!(sealed_dek, "RANDOM_SEALED_DEK");
            assert_eq!(sealed_mobile_key, "RANDOM_SEALED_MOBILE_KEY");
            assert_eq!(benefactor_descriptor_keyset, "KEYSET");
        }
        other => panic!("expected a locked claim, got {:?}", other),
    }
    assert_eq!(claim.common.id, "claim-1");
}

#[test]
fn lock_denials_name_the_missing_condition() {
    let challenge = canonical_challenge(&keys());
    let lock = |now: i64, pkg: Option<InheritancePackage>, ch: &str, app: bool, hw: bool| {
        lock_claim(pending_claim(), &s("beneficiary"), AccountType::Full, now, &pkg, &s(ch), app, hw, s("K"))
            .map(|_| ())
    };
    let later = NOW + CLAIM_DELAY_SECS;
    assert_eq!(lock(later, Some(package()), &challenge, true, true), Ok(()));
    assert_eq!(
        lock(later - 1, Some(package()), &challenge, true, true),
        Err(ClaimError::BadRequest(BadRequestReason::DelayNotElapsed))
    );
    assert_eq!(lock(later, None, &challenge, true, true), Err(ClaimError::BadRequest(BadRequestReason::MissingPackage)));
    let foreign = InheritancePackage { relationship_id: s("rel-2"), sealed_dek: s("d"), sealed_mobile_key: s("m") };
    assert_eq!(
        lock(later, Some(foreign), &challenge, true, true),
        Err(ClaimError::BadRequest(BadRequestReason::MissingPackage))
    );
    assert_eq!(
        lock(later, Some(package()), "LockInheritanceClaim", true, true),
        Err(ClaimError::BadRequest(BadRequestReason::InvalidChallenge))
    );
    assert_eq!(
        lock(later, Some(package()), &challenge, false, true),
        Err(ClaimError::BadRequest(BadRequestReason::InvalidSignature))
    );
    assert_eq!(
        lock(later, Some(package()), &challenge, true, false),
        Err(ClaimError::BadRequest(BadRequestReason::InvalidSignature))
    );
    let by_benefactor = lock_claim(
        pending_claim(), &s("benefactor"), AccountType::Full, later, &Some(package()), &challenge, true, true, s("K"));
    assert_eq!(by_benefactor.unwrap_err(), ClaimError::Unauthorized);
    let relock = lock_claim(
        locked_claim(), &s("beneficiary"), AccountType::Full, later, &Some(package()), &challenge, true, true, s("K"));
    assert_eq!(relock.unwrap_err(), ClaimError::BadRequest(BadRequestReason::InvalidState));
}

#[test]
fn test_lock_inheritance_claim_lite_account_forbidden() {
    let r = lock_claim(
        pending_claim(),
        &s("beneficiary"),
        AccountType::Lite,
        NOW + CLAIM_DELAY_SECS,
        &Some(package()),
        &s("fake_challenge"),
        false,
        false,
        s("K"),
    );
    assert_eq!(r.unwrap_err(), ClaimError::Forbidden);
}

#[test]
fn test_complete_inheritance_claim_lite_account_forbidden() {
    let tx = sweep("psbt", vec![true], vec![VALID_TESTNET]);
    let r = plan_completion(&locked_claim(), &s("beneficiary"), AccountType::Lite, &tx, &vec![]);
    assert_eq!(r.unwrap_err(), ClaimError::Forbidden);
}

#[test]
fn test_complete_inheritance_claim_success() {
    let tx = sweep("psbt-1", vec![true], vec![VALID_TESTNET]);
    let claim = locked_claim();
    assert!(plan_completion(&claim, &s("beneficiary"), AccountType::Full, &tx, &vec![s(OTHER_TESTNET)]).is_ok());
    let done = finish_completion(claim, &tx, true).unwrap();
    assert!(matches!(done.state, ClaimState::Completed { ref transaction } if transaction == "psbt-1"));
    assert_eq!(done.common.relationship_id, "rel-1");
}

#[test]
fn test_complete_inheritance_claim_rbf_success() {
    let first = sweep("psbt-1", vec![true], vec![VALID_TESTNET]);
    let done = finish_completion(locked_claim(), &first, true).unwrap();
    let bumped = sweep("psbt-2", vec![true], vec![VALID_TESTNET]);
    assert!(plan_completion(&done, &s("beneficiary"), AccountType::Full, &bumped, &vec![]).is_ok());
    let again = finish_completion(done, &bumped, true).unwrap();
    assert!(matches!(again.state, ClaimState::Completed { ref transaction } if transaction == "psbt-2"));
}

#[test]
fn test_complete_inheritance_claim_sanctions_failure() {
    let tx = sweep("psbt", vec![true], vec![VALID_TESTNET]);
    let r = plan_completion(&locked_claim(), &s("beneficiary"), AccountType::Full, &tx, &vec![s("x"), s(VALID_TESTNET)]);
    assert_eq!(r.unwrap_err(), ClaimError::ComplianceBlocked);
    assert_eq!(ClaimError::ComplianceBlocked.status_code(), 451);
}

#[test]
fn test_complete_inheritance_claim_unsigned_psbt_fails() {
    let tx = sweep("psbt", vec![false, false], vec![VALID_TESTNET]);
    let r = plan_completion(&locked_claim(), &s("beneficiary"), AccountType::Full, &tx, &vec![]);
    let e = r.unwrap_err();
    assert_eq!(e, ClaimError::Internal(InternalReason::SignatureCount));
    assert_eq!(e.status_code(), 500);
}

#[test]
fn complete_with_two_signed_inputs_fails() {
    let tx = sweep("psbt", vec![true, true], vec![VALID_TESTNET]);
    let r = plan_completion(&locked_claim(), &s("beneficiary"), AccountType::Full, &tx, &vec![s(VALID_TESTNET)]);
    assert_eq!(r.unwrap_err(), ClaimError::Internal(InternalReason::SignatureCount));
    let tx = sweep("psbt", vec![false, true, false], vec![VALID_TESTNET, OTHER_TESTNET]);
    let r = plan_completion(&locked_claim(), &s("beneficiary"), AccountType::Full, &tx, &vec![]);
    assert_eq!(r.unwrap_err(), ClaimError::Internal(InternalReason::OutputCount));
}

#[test]
fn complete_requires_locked_claim_and_beneficiary() {
    let tx = sweep("psbt", vec![true], vec![VALID_TESTNET]);
    let r = plan_completion(&pending_claim(), &s("beneficiary"), AccountType::Full, &tx, &vec![]);
    assert_eq!(r.unwrap_err(), ClaimError::BadRequest(BadRequestReason::InvalidState));
    let r = plan_completion(&locked_claim(), &s("benefactor"), AccountType::Full, &tx, &vec![]);
    assert_eq!(r.unwrap_err(), ClaimError::Unauthorized);
    let r = finish_completion(locked_claim(), &tx, false);
    assert_eq!(r.unwrap_err(), ClaimError::Internal(InternalReason::BroadcastFailed));
    let r = finish_completion(pending_claim(), &tx, true);
    assert_eq!(r.unwrap_err(), ClaimError::BadRequest(BadRequestReason::InvalidState));
}

#[test]
fn status_codes_match_the_taxonomy() {
    assert_eq!(ClaimError::Unauthorized.status_code(), 401);
    assert_eq!(ClaimError::Forbidden.status_code(), 403);
    assert_eq!(ClaimError::BadRequest(BadRequestReason::MissingPackage).status_code(), 400);
    assert_eq!(ClaimError::Conflict.status_code(), 409);
    assert_eq!(ClaimError::NotFound.status_code(), 404);
}

#[test]
fn stale_revision_is_a_conflict() {
    let rel = relationship(RelationshipStatus::Endorsed);
    let mut store = ClaimStore::new();
    store.start(&rel, &s("beneficiary"), AccountType::Full, keys(), s("claim-1"), NOW).unwrap();
    let read = store.fetch(&s("claim-1")).unwrap();
    let canceled = cancel_claim(read.clone(), &s("benefactor"), AccountType::Full, NOW + 1).unwrap().claim;
    assert_eq!(store.put_if_revision(canceled.clone(), 0).unwrap().common.revision, 1);
    assert_eq!(store.put_if_revision(canceled, 0).unwrap_err(), ClaimError::Conflict);
    // A write may not move a claim backwards.
    assert_eq!(
        store.put_if_revision(read, 1).unwrap_err(),
        ClaimError::BadRequest(BadRequestReason::InvalidState)
    );
    let missing = InheritanceClaim { common: pending_claim().common, state: ClaimState::Pending { delay_end_time: 0 } };
    let mut missing = missing;
    missing.common.id = s("nope");
    assert_eq!(store.put_if_revision(missing, 0).unwrap_err(), ClaimError::NotFound);
}

#[test]
fn end_to_end_claim_scenario() {
    let rels = vec![relationship(RelationshipStatus::Endorsed)];
    let mut store = ClaimStore::new();
    let mut packages = PackageStore::new();
    let started = store
        .start(&rels[0], &s("beneficiary"), AccountType::Full, keys(), s("claim-1"), NOW)
        .unwrap();
    let delay_end = NOW + 7 * 24 * 60 * 60;
    assert!(matches!(started.claim.state, ClaimState::Pending { delay_end_time } if delay_end_time == delay_end));

    let challenge = canonical_challenge(&keys());
    let early = store.lock(
        &s("claim-1"), &s("beneficiary"), AccountType::Full, NOW, &packages.get(&s("rel-1")), &challenge, true, true, s("KEYSET"));
    assert_eq!(early.unwrap_err(), ClaimError::BadRequest(BadRequestReason::DelayNotElapsed));

    packages.upload_packages(&s("benefactor"), &rels, vec![package()]).unwrap();
    let later = delay_end + 1;
    let locked = store
        .lock(&s("claim-1"), &s("beneficiary"), AccountType::Full, later, &packages.get(&s("rel-1")), &challenge, true, true, s("KEYSET"))
        .unwrap();
    assert!(matches!(locked.state, ClaimState::Locked { .. }));

    let tx = sweep("signed-sweep", vec![true], vec![VALID_TESTNET]);
    let revision = store
        .plan_completion(&s("claim-1"), &s("beneficiary"), AccountType::Full, &tx, &vec![])
        .unwrap();
    let mut broadcasts = 0;
    broadcasts += 1;
    let failed = store.record_completion(&s("claim-1"), &tx, false, revision);
    assert_eq!(failed.unwrap_err(), ClaimError::Internal(InternalReason::BroadcastFailed));
    assert!(matches!(store.fetch(&s("claim-1")).unwrap().state, ClaimState::Locked { .. }));
    let done = store.record_completion(&s("claim-1"), &tx, true, revision).unwrap();
    assert_eq!(broadcasts, 1);
    let fetched = store.fetch(&s("claim-1")).unwrap();
    assert!(matches!(fetched.state, ClaimState::Completed { ref transaction } if transaction == "signed-sweep"));
    assert_eq!(done.common.revision, fetched.common.revision);
    // The completion read at an older revision cannot be recorded twice.
    assert_eq!(store.record_completion(&s("claim-1"), &tx, true, revision).unwrap_err(), ClaimError::Conflict);
}
