//! The claim store: claims keyed by id, read by relationship in creation
//! order, written only through revision-checked puts, and holding at most one
//! active claim per relationship.

use vstd::prelude::*;
use crate::chain::WalletNetwork;
use crate::completion::{
    SweepTransaction, completed_claim, completion_denial, finish_completion, finish_denial, plan_completion,
};
use crate::model::{
    AccountType, ClaimAuthKeys, ClaimCommon, ClaimError, Destination, InheritanceClaim, InheritancePackage,
    CLAIM_DELAY_SECS,
};
use crate::machine::{
    Transition, cancel_claim, cancel_notifications, canceled_claim, is_successor, lemma_operations_step_forward,
    lock_claim, lock_denial, locked_claim, start_claim, start_notifications, started_claim, successor,
    update_denial, update_destination, with_destination,
};
use crate::policy::{ClaimAction, denial, start_denial};
use crate::relationships::RecoveryRelationship;

verus! {

/// No two claims share an id.
pub open spec fn ids_unique(s: Seq<InheritanceClaim>) -> bool {
    forall|i: int, j: int|
        0 <= i < s.len() && 0 <= j < s.len() && i != j ==> #[trigger] s[i].common.id@ != #[trigger] s[j].common.id@
}

/// No relationship has two active claims.
pub open spec fn one_active_per_relationship(s: Seq<InheritanceClaim>) -> bool {
    forall|i: int, j: int|
        0 <= i < s.len() && 0 <= j < s.len() && i != j && #[trigger] s[i].spec_is_active()
            && #[trigger] s[j].spec_is_active() ==> s[i].common.relationship_id@ != s[j].common.relationship_id@
}

pub open spec fn has_id(s: Seq<InheritanceClaim>, id: Seq<char>) -> bool {
    exists|i: int| 0 <= i < s.len() && #[trigger] s[i].common.id@ == id
}

/// The position of the claim with `id`.
pub open spec fn index_of(s: Seq<InheritanceClaim>, id: Seq<char>) -> int {
    choose|i: int| 0 <= i < s.len() && #[trigger] s[i].common.id@ == id
}

/// Whether the relationship has an active claim.
pub open spec fn has_active(s: Seq<InheritanceClaim>, relationship_id: Seq<char>) -> bool {
    exists|i: int| 0 <= i < s.len() && #[trigger] s[i].spec_is_active() && s[i].common.relationship_id@ == relationship_id
}

/// The claims of a relationship, in the order they were created.
pub open spec fn of_relationship(s: Seq<InheritanceClaim>, relationship_id: Seq<char>) -> Seq<InheritanceClaim> {
    s.filter(|c: InheritanceClaim| c.common.relationship_id@ == relationship_id)
}

/// The claim as the store keeps it after a write that read `revision`.
pub open spec fn stored_as(c: InheritanceClaim, revision: u64) -> InheritanceClaim {
    InheritanceClaim { common: ClaimCommon { revision: (revision + 1) as u64, ..c.common }, state: c.state }
}

pub proof fn lemma_index_of(s: Seq<InheritanceClaim>, id: Seq<char>, i: int)
    requires
        ids_unique(s),
        0 <= i < s.len(),
        s[i].common.id@ == id,
    ensures
        index_of(s, id) == i,
{
    let j = index_of(s, id);
    assert(0 <= j < s.len() && s[j].common.id@ == id);
}

/// Claim records, in the order they were created.
pub struct ClaimStore {
    claims: Vec<InheritanceClaim>,
}

impl View for ClaimStore {
    type V = Seq<InheritanceClaim>;

    closed spec fn view(&self) -> Seq<InheritanceClaim> {
        self.claims@
    }
}

impl ClaimStore {
    /// Ids are unique and each relationship has at most one active claim.
    pub open spec fn wf(&self) -> bool {
        ids_unique(self@) && one_active_per_relationship(self@)
    }

    /// An empty store.
    pub fn new() -> (r: ClaimStore)
        ensures
            r@ == Seq::<InheritanceClaim>::empty(),
            r.wf(),
    {
        ClaimStore { claims: Vec::new() }
    }

    /// The number of claims held.
    pub fn len(&self) -> (r: usize)
        ensures
            r == self@.len(),
    {
        self.claims.len()
    }

    /// The position of the claim with `id`, if any.
    pub fn find(&self, id: &String) -> (r: Option<usize>)
        requires
            self.wf(),
        ensures
            r is Some <==> has_id(self@, id@),
            r matches Some(i) ==> i < self@.len() && i == index_of(self@, id@) && self@[i as int].common.id@ == id@,
    {
        let mut i: usize = 0;
        while i < self.claims.len()
            invariant
                self.wf(),
                i <= self.claims.len(),
                forall|j: int| 0 <= j < i ==> (#[trigger] self.claims@[j]).common.id@ != id@,
            decreases self.claims.len() - i,
        {
            if self.claims[i].common.id == *id {
                proof {
                    lemma_index_of(self@, id@, i as int);
                }
                return Some(i);
            }
            i = i + 1;
        }
        None
    }

    /// The claim with `id`, if any.
    pub fn fetch(&self, id: &String) -> (r: Option<InheritanceClaim>)
        requires
            self.wf(),
        ensures
            r is Some <==> has_id(self@, id@),
            r matches Some(c) ==> c == self@[index_of(self@, id@)],
    {
        match self.find(id) {
            Some(i) => Some(self.claims[i].clone()),
            None => None,
        }
    }

    /// Whether the relationship has an active claim.
    pub fn active_exists(&self, relationship_id: &String) -> (r: bool)
        ensures
            r == has_active(self@, relationship_id@),
    {
        let mut i: usize = 0;
        while i < self.claims.len()
            invariant
                i <= self.claims.len(),
                forall|j: int|
                    0 <= j < i ==> !(#[trigger] self.claims@[j].spec_is_active()
                        && self.claims@[j].common.relationship_id@ == relationship_id@),
            decreases self.claims.len() - i,
        {
            if self.claims[i].is_active() && self.claims[i].common.relationship_id == *relationship_id {
                return true;
            }
            i = i + 1;
        }
        false
    }

    /// Every claim ever created for the relationship, in creation order.
    pub fn claims_for_relationship(&self, relationship_id: &String) -> (r: Vec<InheritanceClaim>)
        ensures
            r@ == of_relationship(self@, relationship_id@),
    {
        let mut out: Vec<InheritanceClaim> = Vec::new();
        let mut i: usize = 0;
        proof {
            assert(self@.subrange(0, 0) =~= Seq::<InheritanceClaim>::empty());
            assert(of_relationship(self@.subrange(0, 0), relationship_id@) =~= Seq::<InheritanceClaim>::empty());
        }
        while i < self.claims.len()
            invariant
                i <= self.claims.len(),
                out@ == of_relationship(self@.subrange(0, i as int), relationship_id@),
            decreases self.claims.len() - i,
        {
            proof {
                assert(self@.subrange(0, i + 1).drop_last() =~= self@.subrange(0, i as int));
                reveal_with_fuel(Seq::filter, 1);
            }
            if self.claims[i].common.relationship_id == *relationship_id {
                out.push(self.claims[i].clone());
            }
            i = i + 1;
        }
        proof {
            assert(self@.subrange(0, i as int) =~= self@);
        }
        out
    }

    /// Replaces the claim with the same id as `claim`, if the stored one is at
    /// `expected_revision` and `claim` may follow it; the stored revision is
    /// bumped. A stale revision is a Conflict.
    pub fn put_if_revision(&mut self, claim: InheritanceClaim, expected_revision: u64) -> (r: Result<
        InheritanceClaim,
        ClaimError,
    >)
        requires
            old(self).wf(),
        ensures
            final(self).wf(),
            ({
                let s = old(self)@;
                let i = index_of(s, claim.common.id@);
                if !has_id(s, claim.common.id@) {
                    r == Err::<InheritanceClaim, ClaimError>(ClaimError::NotFound) && final(self)@ == s
                } else if s[i].common.revision != expected_revision || expected_revision == u64::MAX {
                    r == Err::<InheritanceClaim, ClaimError>(ClaimError::Conflict) && final(self)@ == s
                } else if !successor(s[i], claim) {
                    r == Err::<InheritanceClaim, ClaimError>(
                        ClaimError::BadRequest(crate::model::BadRequestReason::InvalidState),
                    ) && final(self)@ == s
                } else {
                    r == Ok::<InheritanceClaim, ClaimError>(stored_as(claim, expected_revision))
                        && final(self)@ == s.update(i, stored_as(claim, expected_revision))
                }
            }),
    {
        let i = match self.find(&claim.common.id) {
            Some(i) => i,
            None => {
                return Err(ClaimError::NotFound);
            },
        };
        if self.claims[i].common.revision != expected_revision || expected_revision == u64::MAX {
            return Err(ClaimError::Conflict);
        }
        if !is_successor(&self.claims[i], &claim) {
            return Err(ClaimError::BadRequest(crate::model::BadRequestReason::InvalidState));
        }
        let mut claim = claim;
        claim.common.revision = expected_revision + 1;
        let ghost s = self@;
        let ghost c = claim;
        self.claims.set(i, claim.clone());
        proof {
            assert(self@ == s.update(i as int, c));
            assert forall|a: int, b: int|
                0 <= a < self@.len() && 0 <= b < self@.len() && a != b implies #[trigger] self@[a].common.id@
                != #[trigger] self@[b].common.id@ by {
                assert(s[a].common.id@ != s[b].common.id@);
            }
            assert forall|a: int, b: int|
                0 <= a < self@.len() && 0 <= b < self@.len() && a != b && #[trigger] self@[a].spec_is_active()
                    && #[trigger] self@[b].spec_is_active() implies self@[a].common.relationship_id@
                != self@[b].common.relationship_id@ by {
                assert(s[a].spec_is_active() && s[b].spec_is_active());
                assert(s[a].common.relationship_id@ != s[b].common.relationship_id@);
            }
        }
        Ok(claim)
    }

    /// Starts a claim on `rel` for `actor` under the fresh id `claim_id`. A
    /// relationship with an active claim gets a Conflict, as does an id in use.
    pub fn start(
        &mut self,
        rel: &RecoveryRelationship,
        actor: &String,
        account: AccountType,
        auth_keys: ClaimAuthKeys,
        claim_id: String,
        now: i64,
    ) -> (r: Result<Transition, ClaimError>)
        requires
            old(self).wf(),
            now <= i64::MAX - CLAIM_DELAY_SECS,
        ensures
            final(self).wf(),
            ({
                let s = old(self)@;
                let d = start_denial(*rel, actor@, account, has_active(s, rel.id@));
                if d is Some {
                    r == Err::<Transition, ClaimError>(d.unwrap()) && final(self)@ == s
                } else if has_id(s, claim_id@) {
                    r == Err::<Transition, ClaimError>(ClaimError::Conflict) && final(self)@ == s
                } else {
                    &&& r matches Ok(t)
                    &&& t.claim == started_claim(*rel, *actor, auth_keys, claim_id, now)
                    &&& t.notifications@ == start_notifications(t.claim)
                    &&& final(self)@ == s.push(t.claim)
                }
            }),
    {
        let active = self.active_exists(&rel.id);
        let taken = self.find(&claim_id).is_some();
        let ghost id = claim_id@;
        let t = match start_claim(rel, actor, account, auth_keys, claim_id, now, active) {
            Ok(t) => t,
            Err(e) => {
                return Err(e);
            },
        };
        if taken {
            return Err(ClaimError::Conflict);
        }
        let ghost s = self@;
        self.claims.push(t.claim.clone());
        proof {
            assert(self@ == s.push(t.claim));
            assert(!has_id(s, id));
            assert forall|a: int, b: int|
                0 <= a < self@.len() && 0 <= b < self@.len() && a != b implies #[trigger] self@[a].common.id@
                != #[trigger] self@[b].common.id@ by {
                if a < s.len() && b < s.len() {
                    assert(s[a].common.id@ != s[b].common.id@);
                } else if a < s.len() {
                    assert(s[a].common.id@ != id);
                } else {
                    assert(s[b].common.id@ != id);
                }
            }
            assert forall|a: int, b: int|
                0 <= a < self@.len() && 0 <= b < self@.len() && a != b && #[trigger] self@[a].spec_is_active()
                    && #[trigger] self@[b].spec_is_active() implies self@[a].common.relationship_id@
                != self@[b].common.relationship_id@ by {
                if a < s.len() && b < s.len() {
                    assert(s[a].common.relationship_id@ != s[b].common.relationship_id@);
                } else if a < s.len() {
                    assert(!(s[a].spec_is_active() && s[a].common.relationship_id@ == rel.id@));
                } else {
                    assert(!(s[b].spec_is_active() && s[b].common.relationship_id@ == rel.id@));
                }
            }
        }
        Ok(t)
    }

    /// Cancels the claim with `id` on behalf of `actor`. A Canceled claim is
    /// returned as it is, with no write and no notification.
    pub fn cancel(&mut self, id: &String, actor: &String, account: AccountType, now: i64) -> (r: Result<
        Transition,
        ClaimError,
    >)
        requires
            old(self).wf(),
        ensures
            final(self).wf(),
            ({
                let s = old(self)@;
                let i = index_of(s, id@);
                let c = s[i];
                let d = denial(c, actor@, account, ClaimAction::Cancel);
                if !has_id(s, id@) {
                    r == Err::<Transition, ClaimError>(ClaimError::NotFound) && final(self)@ == s
                } else if d is Some {
                    r == Err::<Transition, ClaimError>(d.unwrap()) && final(self)@ == s
                } else if c.state is Canceled {
                    &&& r matches Ok(t)
                    &&& t.claim == c
                    &&& t.notifications@.len() == 0
                    &&& final(self)@ == s
                } else if c.common.revision == u64::MAX {
                    r == Err::<Transition, ClaimError>(ClaimError::Conflict) && final(self)@ == s
                } else {
                    &&& r matches Ok(t)
                    &&& t.claim == stored_as(canceled_claim(c, now), c.common.revision)
                    &&& t.notifications@ == cancel_notifications(c)
                    &&& final(self)@ == s.update(i, t.claim)
                }
            }),
    {
        let current = match self.fetch(id) {
            Some(c) => c,
            None => {
                return Err(ClaimError::NotFound);
            },
        };
        let revision = current.common.revision;
        let ghost c = current;
        let t = match cancel_claim(current, actor, account, now) {
            Ok(t) => t,
            Err(e) => {
                return Err(e);
            },
        };
        if t.notifications.len() == 0 {
            return Ok(t);
        }
        proof {
            lemma_operations_step_forward(c, now, arbitrary(), arbitrary(), arbitrary(), arbitrary());
        }
        match self.put_if_revision(t.claim, revision) {
            Ok(stored) => Ok(Transition { claim: stored, notifications: t.notifications }),
            Err(e) => Err(e),
        }
    }

    /// Locks the claim with `id` for `actor` at `now`; see `lock_claim`.
    pub fn lock(
        &mut self,
        id: &String,
        actor: &String,
        account: AccountType,
        now: i64,
        package: &Option<InheritancePackage>,
        challenge: &String,
        app_signature_valid: bool,
        hardware_signature_valid: bool,
        descriptor_keyset: String,
    ) -> (r: Result<InheritanceClaim, ClaimError>)
        requires
            old(self).wf(),
        ensures
            final(self).wf(),
            ({
                let s = old(self)@;
                let i = index_of(s, id@);
                let c = s[i];
                let d = lock_denial(
                    c,
                    actor@,
                    account,
                    now,
                    *package,
                    challenge@,
                    app_signature_valid,
                    hardware_signature_valid,
                );
                if !has_id(s, id@) {
                    r == Err::<InheritanceClaim, ClaimError>(ClaimError::NotFound) && final(self)@ == s
                } else if d is Some {
                    r == Err::<InheritanceClaim, ClaimError>(d.unwrap()) && final(self)@ == s
                } else if c.common.revision == u64::MAX {
                    r == Err::<InheritanceClaim, ClaimError>(ClaimError::Conflict) && final(self)@ == s
                } else {
                    let n = stored_as(locked_claim(c, package.unwrap(), descriptor_keyset), c.common.revision);
                    r == Ok::<InheritanceClaim, ClaimError>(n) && final(self)@ == s.update(i, n)
                }
            }),
    {
        let current = match self.fetch(id) {
            Some(c) => c,
            None => {
                return Err(ClaimError::NotFound);
            },
        };
        let revision = current.common.revision;
        let ghost c = current;
        let ghost k = descriptor_keyset;
        let next = match lock_claim(
            current,
            actor,
            account,
            now,
            package,
            challenge,
            app_signature_valid,
            hardware_signature_valid,
            descriptor_keyset,
        ) {
            Ok(n) => n,
            Err(e) => {
                return Err(e);
            },
        };
        proof {
            lemma_operations_step_forward(c, now, package.unwrap(), k, arbitrary(), arbitrary());
        }
        self.put_if_revision(next, revision)
    }

    /// Sets the destination of the claim with `id`; see `update_destination`.
    pub fn update_destination(
        &mut self,
        id: &String,
        actor: &String,
        account: AccountType,
        destination: Destination,
        network: WalletNetwork,
    ) -> (r: Result<InheritanceClaim, ClaimError>)
        requires
            old(self).wf(),
        ensures
            final(self).wf(),
            ({
                let s = old(self)@;
                let i = index_of(s, id@);
                let c = s[i];
                let d = update_denial(c, actor@, account, destination, network);
                if !has_id(s, id@) {
                    r == Err::<InheritanceClaim, ClaimError>(ClaimError::NotFound) && final(self)@ == s
                } else if d is Some {
                    r == Err::<InheritanceClaim, ClaimError>(d.unwrap()) && final(self)@ == s
                } else if c.common.revision == u64::MAX {
                    r == Err::<InheritanceClaim, ClaimError>(ClaimError::Conflict) && final(self)@ == s
                } else {
                    let n = stored_as(with_destination(c, destination), c.common.revision);
                    r == Ok::<InheritanceClaim, ClaimError>(n) && final(self)@ == s.update(i, n)
                }
            }),
    {
        let current = match self.fetch(id) {
            Some(c) => c,
            None => {
                return Err(ClaimError::NotFound);
            },
        };
        let revision = current.common.revision;
        let ghost c = current;
        let ghost dest = destination;
        let next = match update_destination(current, actor, account, destination, network) {
            Ok(n) => n,
            Err(e) => {
                return Err(e);
            },
        };
        proof {
            lemma_operations_step_forward(c, 0, arbitrary(), arbitrary(), dest, arbitrary());
        }
        self.put_if_revision(next, revision)
    }

    /// Decides whether `tx` may be broadcast to complete the claim with `id`;
    /// on `Ok`, gives the revision that the completion must be recorded against.
    pub fn plan_completion(
        &self,
        id: &String,
        actor: &String,
        account: AccountType,
        tx: &SweepTransaction,
        block_list: &Vec<String>,
    ) -> (r: Result<u64, ClaimError>)
        requires
            self.wf(),
        ensures
            ({
                let s = self@;
                let c = s[index_of(s, id@)];
                let d = completion_denial(c, actor@, account, *tx, block_list@);
                if !has_id(s, id@) {
                    r == Err::<u64, ClaimError>(ClaimError::NotFound)
                } else if d is Some {
                    r == Err::<u64, ClaimError>(d.unwrap())
                } else {
                    r == Ok::<u64, ClaimError>(c.common.revision)
                }
            }),
    {
        let current = match self.fetch(id) {
            Some(c) => c,
            None => {
                return Err(ClaimError::NotFound);
            },
        };
        match plan_completion(&current, actor, account, tx, block_list) {
            Ok(()) => Ok(current.common.revision),
            Err(e) => Err(e),
        }
    }

    /// Records the outcome of broadcasting `tx` for the claim with `id`, read
    /// at `revision` when the completion was planned. A failed broadcast
    /// leaves the store as it was.
    pub fn record_completion(
        &mut self,
        id: &String,
        tx: &SweepTransaction,
        broadcast_succeeded: bool,
        revision: u64,
    ) -> (r: Result<InheritanceClaim, ClaimError>)
        requires
            old(self).wf(),
        ensures
            final(self).wf(),
            ({
                let s = old(self)@;
                let i = index_of(s, id@);
                let c = s[i];
                if !has_id(s, id@) {
                    r == Err::<InheritanceClaim, ClaimError>(ClaimError::NotFound) && final(self)@ == s
                } else if finish_denial(c, broadcast_succeeded) is Some {
                    r == Err::<InheritanceClaim, ClaimError>(finish_denial(c, broadcast_succeeded).unwrap())
                        && final(self)@ == s
                } else if c.common.revision != revision || revision == u64::MAX {
                    r == Err::<InheritanceClaim, ClaimError>(ClaimError::Conflict) && final(self)@ == s
                } else {
                    let n = stored_as(completed_claim(c, *tx), revision);
                    r == Ok::<InheritanceClaim, ClaimError>(n) && final(self)@ == s.update(i, n)
                }
            }),
    {
        let current = match self.fetch(id) {
            Some(c) => c,
            None => {
                return Err(ClaimError::NotFound);
            },
        };
        let ghost c = current;
        let next = match finish_completion(current, tx, broadcast_succeeded) {
            Ok(n) => n,
            Err(e) => {
                return Err(e);
            },
        };
        proof {
            lemma_operations_step_forward(c, 0, arbitrary(), arbitrary(), arbitrary(), tx.reference);
        }
        self.put_if_revision(next, revision)
    }
}

/// In a well-formed store, two active claims of the same relationship are the
/// same record.
pub proof fn lemma_one_active_claim(store: &ClaimStore, i: int, j: int)
    requires
        store.wf(),
        0 <= i < store@.len(),
        0 <= j < store@.len(),
        store@[i].spec_is_active(),
        store@[j].spec_is_active(),
        store@[i].common.relationship_id@ == store@[j].common.relationship_id@,
    ensures
        i == j,
{
}

/// Starting a claim on a relationship that already has an active claim is a
/// Conflict, for the endorsed beneficiary on a full account.
pub proof fn lemma_second_start_conflicts(store: &ClaimStore, rel: RecoveryRelationship, actor: Seq<char>)
    requires
        has_active(store@, rel.id@),
        rel.beneficiary_id is Some && rel.beneficiary_id.unwrap()@ == actor,
        rel.status == crate::relationships::RelationshipStatus::Endorsed,
        rel.spec_has_role(crate::relationships::TrustedContactRole::Beneficiary),
    ensures
        start_denial(rel, actor, AccountType::Full, has_active(store@, rel.id@)) == Some(ClaimError::Conflict),
{
}

/// After the record of a claim is replaced by one with the same id, a fetch
/// by that id finds the new record.
pub proof fn lemma_fetch_after_write(s: Seq<InheritanceClaim>, id: Seq<char>, n: InheritanceClaim)
    requires
        ids_unique(s),
        has_id(s, id),
        n.common.id@ == id,
    ensures
        has_id(s.update(index_of(s, id), n), id),
        ids_unique(s.update(index_of(s, id), n)),
        s.update(index_of(s, id), n)[index_of(s.update(index_of(s, id), n), id)] == n,
{
    let i = index_of(s, id);
    let t = s.update(i, n);
    assert(t[i].common.id@ == id);
    assert forall|a: int, b: int| 0 <= a < t.len() && 0 <= b < t.len() && a != b implies #[trigger] t[a].common.id@
        != #[trigger] t[b].common.id@ by {
        assert(s[a].common.id@ != s[b].common.id@);
    }
    lemma_index_of(t, id, i);
}

} // verus!
