//! Escrow packages that benefactors upload ahead of any claim.

use vstd::prelude::*;
use crate::model::{BadRequestReason, ClaimError, InheritancePackage};
use crate::relationships::{RecoveryRelationship, RelationshipStatus};

verus! {

/// The package most recently uploaded for the relationship, if any.
pub open spec fn latest_package(s: Seq<InheritancePackage>, relationship_id: Seq<char>) -> Option<InheritancePackage>
    decreases s.len(),
{
    if s.len() == 0 {
        None
    } else if s.last().relationship_id@ == relationship_id {
        Some(s.last())
    } else {
        latest_package(s.drop_last(), relationship_id)
    }
}

/// Whether `relationship_id` names a relationship endorsed for the benefactor `caller`.
pub open spec fn endorsed_for(rels: Seq<RecoveryRelationship>, caller: Seq<char>, relationship_id: Seq<char>) -> bool {
    exists|i: int|
        0 <= i < rels.len() && #[trigger] rels[i].id@ == relationship_id && rels[i].benefactor_id@ == caller
            && rels[i].status == RelationshipStatus::Endorsed
}

/// Uploaded packages, oldest first; a later upload for a relationship
/// overrides the earlier ones.
pub struct PackageStore {
    packages: Vec<InheritancePackage>,
}

impl View for PackageStore {
    type V = Seq<InheritancePackage>;

    closed spec fn view(&self) -> Seq<InheritancePackage> {
        self.packages@
    }
}

/// Whether some relationship in `rels` with the given id is endorsed for `caller`.
fn is_endorsed_for(rels: &Vec<RecoveryRelationship>, caller: &String, relationship_id: &String) -> (r: bool)
    ensures
        r == endorsed_for(rels@, caller@, relationship_id@),
{
    let mut i: usize = 0;
    while i < rels.len()
        invariant
            i <= rels.len(),
            forall|j: int|
                0 <= j < i ==> !(#[trigger] rels@[j].id@ == relationship_id@ && rels@[j].benefactor_id@ == caller@
                    && rels@[j].status == RelationshipStatus::Endorsed),
        decreases rels.len() - i,
    {
        if rels[i].id == *relationship_id && rels[i].benefactor_id == *caller && rels[i].status
            == RelationshipStatus::Endorsed {
            return true;
        }
        i = i + 1;
    }
    false
}

impl PackageStore {
    pub fn new() -> (r: PackageStore)
        ensures
            r@ == Seq::<InheritancePackage>::empty(),
    {
        PackageStore { packages: Vec::new() }
    }

    /// The package most recently uploaded for the relationship.
    pub fn get(&self, relationship_id: &String) -> (r: Option<InheritancePackage>)
        ensures
            r == latest_package(self@, relationship_id@),
    {
        let mut i: usize = self.packages.len();
        proof {
            assert(self@.subrange(0, i as int) =~= self@);
        }
        while i > 0
            invariant
                i <= self.packages.len(),
                latest_package(self@, relationship_id@) == latest_package(self@.subrange(0, i as int), relationship_id@),
            decreases i,
        {
            proof {
                assert(self@.subrange(0, i as int).drop_last() =~= self@.subrange(0, i - 1));
            }
            if self.packages[i - 1].relationship_id == *relationship_id {
                return Some(self.packages[i - 1].clone());
            }
            i = i - 1;
        }
        proof {
            assert(self@.subrange(0, 0) =~= Seq::<InheritancePackage>::empty());
        }
        None
    }

    /// Stores the packages that the benefactor `caller` uploads, all or none:
    /// each must name a relationship endorsed for `caller`.
    pub fn upload_packages(
        &mut self,
        caller: &String,
        relationships: &Vec<RecoveryRelationship>,
        packages: Vec<InheritancePackage>,
    ) -> (r: Result<(), ClaimError>)
        ensures
            ({
                let all_known = forall|k: int|
                    0 <= k < packages.len() ==> endorsed_for(
                        relationships@,
                        caller@,
                        #[trigger] packages@[k].relationship_id@,
                    );
                &&& all_known ==> r is Ok && final(self)@ == old(self)@ + packages@
                &&& !all_known ==> r == Err::<(), ClaimError>(
                    ClaimError::BadRequest(BadRequestReason::UnknownRelationship),
                ) && final(self)@ == old(self)@
            }),
    {
        let mut k: usize = 0;
        while k < packages.len()
            invariant
                k <= packages.len(),
                forall|j: int|
                    0 <= j < k ==> endorsed_for(relationships@, caller@, #[trigger] packages@[j].relationship_id@),
            decreases packages.len() - k,
        {
            if !is_endorsed_for(relationships, caller, &packages[k].relationship_id) {
                return Err(ClaimError::BadRequest(BadRequestReason::UnknownRelationship));
            }
            k = k + 1;
        }
        let mut packages = packages;
        self.packages.append(&mut packages);
        Ok(())
    }
}

} // verus!
