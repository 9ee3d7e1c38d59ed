//! Recovery relationships between a benefactor and a trusted contact, and the
//! role filter applied when an account lists its relationships.

use vstd::prelude::*;

verus! {

/// The part a trusted contact plays for a customer.
#[derive(Clone, Copy, Debug, PartialEq, Eq, Structural)]
pub enum TrustedContactRole {
    SocialRecoveryContact,
    Beneficiary,
}

/// How far a relationship has come: invited, accepted, or endorsed by the benefactor.
#[derive(Clone, Copy, Debug, PartialEq, Eq, Structural)]
pub enum RelationshipStatus {
    Invited,
    Accepted,
    Endorsed,
}

/// A pairing of a benefactor (the customer) with a trusted contact.
#[derive(Debug)]
pub struct RecoveryRelationship {
    pub id: String,
    pub benefactor_id: String,
    /// The trusted contact's account, once the invitation was accepted.
    pub beneficiary_id: Option<String>,
    pub roles: Vec<TrustedContactRole>,
    pub status: RelationshipStatus,
}

impl RecoveryRelationship {
    pub open spec fn spec_has_role(&self, role: TrustedContactRole) -> bool {
        self.roles@.contains(role)
    }

    /// Whether the relationship grants `role` to the trusted contact.
    pub fn has_role(&self, role: &TrustedContactRole) -> (r: bool)
        ensures
            r == self.spec_has_role(*role),
    {
        let mut i: usize = 0;
        while i < self.roles.len()
            invariant
                i <= self.roles.len(),
                forall|j: int| 0 <= j < i ==> self.roles@[j] != *role,
            decreases self.roles.len() - i,
        {
            if self.roles[i] == *role {
                return true;
            }
            i = i + 1;
        }
        false
    }
}

/// The relationships of one account, grouped as the registry returns them.
pub struct RecoveryRelationshipsForAccount {
    pub invitations: Vec<RecoveryRelationship>,
    pub endorsed_trusted_contacts: Vec<RecoveryRelationship>,
    pub unendorsed_trusted_contacts: Vec<RecoveryRelationship>,
    pub customers: Vec<RecoveryRelationship>,
}

/// The relationships that an account is shown.
pub struct GetRecoveryRelationshipsOutput {
    pub invitations: Vec<RecoveryRelationship>,
    pub endorsed_trusted_contacts: Vec<RecoveryRelationship>,
    pub unendorsed_trusted_contacts: Vec<RecoveryRelationship>,
    pub customers: Vec<RecoveryRelationship>,
}

impl From<RecoveryRelationshipsForAccount> for GetRecoveryRelationshipsOutput {
    fn from(relationships: RecoveryRelationshipsForAccount) -> (r: Self)
        ensures
            r.invitations == relationships.invitations,
            r.endorsed_trusted_contacts == relationships.endorsed_trusted_contacts,
            r.unendorsed_trusted_contacts == relationships.unendorsed_trusted_contacts,
            r.customers == relationships.customers,
    {
        GetRecoveryRelationshipsOutput {
            invitations: relationships.invitations,
            endorsed_trusted_contacts: relationships.endorsed_trusted_contacts,
            unendorsed_trusted_contacts: relationships.unendorsed_trusted_contacts,
            customers: relationships.customers,
        }
    }
}

impl vstd::std_specs::convert::FromSpecImpl<RecoveryRelationshipsForAccount> for GetRecoveryRelationshipsOutput {
    open spec fn obeys_from_spec() -> bool {
        true
    }

    open spec fn from_spec(relationships: RecoveryRelationshipsForAccount) -> Self {
        GetRecoveryRelationshipsOutput {
            invitations: relationships.invitations,
            endorsed_trusted_contacts: relationships.endorsed_trusted_contacts,
            unendorsed_trusted_contacts: relationships.unendorsed_trusted_contacts,
            customers: relationships.customers,
        }
    }
}

/// The relationships of `s` that grant `role`, in their order.
pub open spec fn with_role(s: Seq<RecoveryRelationship>, role: TrustedContactRole) -> Seq<RecoveryRelationship> {
    s.filter(|r: RecoveryRelationship| r.spec_has_role(role))
}

/// Keeps the relationships that grant `role`, in their order.
pub fn filter_by_role(relationships: Vec<RecoveryRelationship>, role: &TrustedContactRole) -> (r: Vec<
    RecoveryRelationship,
>)
    ensures
        r@ == with_role(relationships@, *role),
{
    let ghost all = relationships@;
    let mut kept: Vec<RecoveryRelationship> = Vec::new();
    let mut rest = relationships;
    proof {
        assert(with_role(all.subrange(0, 0), *role) =~= Seq::<RecoveryRelationship>::empty());
    }
    while rest.len() > 0
        invariant
            rest.len() <= all.len(),
            rest@ == all.subrange(all.len() - rest.len(), all.len() as int),
            kept@ == with_role(all.subrange(0, all.len() - rest.len()), *role),
        decreases rest.len(),
    {
        let ghost done = (all.len() - rest.len()) as int;
        let item = rest.remove(0);
        proof {
            assert(item == all[done]);
            assert(all.subrange(0, done + 1).drop_last() =~= all.subrange(0, done));
            assert(all.subrange(0, done + 1).last() == item);
            assert(rest@ =~= all.subrange(done + 1, all.len() as int));
            reveal_with_fuel(Seq::filter, 1);
        }
        if item.has_role(role) {
            kept.push(item);
        }
    }
    proof {
        assert(all.subrange(0, all.len() as int) =~= all);
    }
    kept
}

/// Keeps, in each group of an account's relationships, those that grant `role`.
pub fn get_recovery_relationships(
    relationships: RecoveryRelationshipsForAccount,
    role: TrustedContactRole,
) -> (r: GetRecoveryRelationshipsOutput)
    ensures
        r.invitations@ == with_role(relationships.invitations@, role),
        r.endorsed_trusted_contacts@ == with_role(relationships.endorsed_trusted_contacts@, role),
        r.unendorsed_trusted_contacts@ == with_role(relationships.unendorsed_trusted_contacts@, role),
        r.customers@ == with_role(relationships.customers@, role),
{
    let filtered = RecoveryRelationshipsForAccount {
        invitations: filter_by_role(relationships.invitations, &role),
        endorsed_trusted_contacts: filter_by_role(relationships.endorsed_trusted_contacts, &role),
        unendorsed_trusted_contacts: filter_by_role(relationships.unendorsed_trusted_contacts, &role),
        customers: filter_by_role(relationships.customers, &role),
    };
    GetRecoveryRelationshipsOutput::from(filtered)
}

} // verus!
