//! The proof-of-existence pallet: accounts claim ownership of content.
//! Each piece of content has at most one owner at any time.

use vstd::prelude::*;
use vstd::hash_map::StringHashMap;
use crate::support::{DispatchError, DispatchResult};

verus! {

/// The owner a registry assigns to some content: the owning account, or
/// `None` when the content was never claimed (or its claim was revoked).
pub open spec fn owner_in(registry: Map<Seq<char>, String>, content: Seq<char>) -> Option<
    Seq<char>,
> {
    if registry.contains_key(content) {
        Some(registry[content]@)
    } else {
        None
    }
}

/// The result `create_claim` returns on registry `registry`: it fails with
/// `ClaimAlreadyExists` when the content has an owner and succeeds otherwise.
pub open spec fn create_outcome(
    registry: Map<Seq<char>, String>,
    content: Seq<char>,
) -> DispatchResult {
    if registry.contains_key(content) {
        Err(DispatchError::ClaimAlreadyExists)
    } else {
        Ok(())
    }
}

/// The registry after `create_claim`: unchanged when the content already has
/// an owner, and mapping the content to `caller` otherwise.
pub open spec fn create_state(
    registry: Map<Seq<char>, String>,
    caller: String,
    content: Seq<char>,
) -> Map<Seq<char>, String> {
    if registry.contains_key(content) {
        registry
    } else {
        registry.insert(content, caller)
    }
}

/// The result `revoke_claim` returns: `ClaimNotFound` when the content has
/// no owner, then `NotClaimOwner` when it is owned by an account other than
/// `caller`, and success otherwise.
pub open spec fn revoke_outcome(
    registry: Map<Seq<char>, String>,
    caller: Seq<char>,
    content: Seq<char>,
) -> DispatchResult {
    if !registry.contains_key(content) {
        Err(DispatchError::ClaimNotFound)
    } else if registry[content]@ != caller {
        Err(DispatchError::NotClaimOwner)
    } else {
        Ok(())
    }
}

/// The registry after `revoke_claim`: the content's entry is removed exactly
/// when the ownership check passed; on any failure nothing changes.
pub open spec fn revoke_state(
    registry: Map<Seq<char>, String>,
    caller: Seq<char>,
    content: Seq<char>,
) -> Map<Seq<char>, String> {
    if revoke_outcome(registry, caller, content) is Ok {
        registry.remove(content)
    } else {
        registry
    }
}

/// The calls this pallet exposes to extrinsic dispatch.
pub enum Call {
    CreateClaim { claim: String },
    RevokeClaim { claim: String },
}

/// Content claims and their owners. The view maps each claimed content to
/// the owning account.
pub struct Pallet {
    claims: StringHashMap<String>,
}

impl View for Pallet {
    type V = Map<Seq<char>, String>;

    closed spec fn view(&self) -> Map<Seq<char>, String> {
        self.claims@
    }
}

impl Pallet {
    /// An empty registry: no content has an owner.
    pub fn new() -> (result: Self)
        ensures
            result@ == Map::<Seq<char>, String>::empty(),
            forall|content: Seq<char>| #[trigger] owner_in(result@, content) is None,
    {
        Pallet { claims: StringHashMap::new() }
    }

    /// The owner (if any) of a claim.
    pub fn get_claim(&self, claim: &String) -> (result: Option<&String>)
        ensures
            match result {
                Some(owner) => owner_in(self@, claim@) == Some(owner@),
                None => owner_in(self@, claim@) is None,
            },
    {
        self.claims.get(claim.as_str())
    }

    /// Claim `claim` on behalf of `caller`. Fails with `ClaimAlreadyExists`,
    /// leaving the registry unchanged, exactly when the content already has
    /// an owner; otherwise records `caller` as its owner.
    pub fn create_claim(&mut self, caller: String, claim: String) -> (result: DispatchResult)
        ensures
            result == create_outcome(old(self)@, claim@),
            final(self)@ == create_state(old(self)@, caller, claim@),
            result is Ok <==> owner_in(old(self)@, claim@) is None,
            result is Ok ==> owner_in(final(self)@, claim@) == Some(caller@),
            result is Err ==> final(self)@ == old(self)@,
    {
        if self.claims.contains_key(claim.as_str()) {
            Err(DispatchError::ClaimAlreadyExists)
        } else {
            self.claims.insert(claim, caller);
            Ok(())
        }
    }

    /// Revoke the claim on `claim`. Fails with `ClaimNotFound` when no owner
    /// exists and with `NotClaimOwner` when the owner is not `caller`; both
    /// failures leave the registry unchanged. On success the claim is gone.
    /// The ownership check and the removal act on the same registry state:
    /// nothing is removed unless the check passed on the entry removed.
    pub fn revoke_claim(&mut self, caller: String, claim: String) -> (result: DispatchResult)
        ensures
            result == revoke_outcome(old(self)@, caller@, claim@),
            final(self)@ == revoke_state(old(self)@, caller@, claim@),
            result is Ok <==> owner_in(old(self)@, claim@) == Some(caller@),
            result is Ok ==> owner_in(final(self)@, claim@) is None,
            result is Err ==> final(self)@ == old(self)@,
    {
        let owner_matches: bool = match self.get_claim(&claim) {
            None => {
                return Err(DispatchError::ClaimNotFound);
            },
            Some(owner) => *owner == caller,
        };
        if !owner_matches {
            return Err(DispatchError::NotClaimOwner);
        }
        self.claims.remove(claim.as_str());
        Ok(())
    }
}

/// Law: claims round-trip. On a registry where `content` is unclaimed,
/// creating it for `caller` succeeds and makes `caller` its owner; a second
/// create for any account fails with `ClaimAlreadyExists` and leaves the
/// owner as it was.
pub proof fn lemma_claim_round_trip(
    registry: Map<Seq<char>, String>,
    caller: String,
    other: String,
    content: Seq<char>,
)
    requires
        owner_in(registry, content) is None,
    ensures
        create_outcome(registry, content) is Ok,
        owner_in(create_state(registry, caller, content), content) == Some(caller@),
        create_outcome(create_state(registry, caller, content), content) == Err::<
            (),
            DispatchError,
        >(DispatchError::ClaimAlreadyExists),
        create_state(create_state(registry, caller, content), other, content) == create_state(
            registry,
            caller,
            content,
        ),
        owner_in(create_state(create_state(registry, caller, content), other, content), content)
            == Some(caller@),
{
}

/// Law: revoking is guarded by ownership. On a registry where `content` is
/// owned by `owner`, a revoke by an account with any other name fails with
/// `NotClaimOwner` and the owner stays; a revoke by the owner succeeds and
/// afterwards the content has no owner.
pub proof fn lemma_revoke_authorization(
    registry: Map<Seq<char>, String>,
    owner: Seq<char>,
    intruder: Seq<char>,
    content: Seq<char>,
)
    requires
        owner_in(registry, content) == Some(owner),
        intruder != owner,
    ensures
        revoke_outcome(registry, intruder, content) == Err::<(), DispatchError>(
            DispatchError::NotClaimOwner,
        ),
        revoke_state(registry, intruder, content) == registry,
        owner_in(revoke_state(registry, intruder, content), content) == Some(owner),
        revoke_outcome(registry, owner, content) is Ok,
        owner_in(revoke_state(registry, owner, content), content) is None,
{
}

} // verus!
