use vstd::prelude::*;
use crate::strmap::StrMap;
use crate::support::{DispatchResult, ErrorKind};
use crate::types::{AccountId, Content};

verus! {

/// The outcome of claiming: only a content nobody holds can be claimed.
pub open spec fn create_result(
    m: Map<Seq<char>, Seq<char>>,
    caller: Seq<char>,
    claim: Seq<char>,
) -> DispatchResult {
    if m.dom().contains(claim) {
        Err(ErrorKind::ClaimExists)
    } else {
        Ok(())
    }
}

/// The registry after claiming: the caller becomes the owner; a refused
/// claim leaves the registry as it was.
pub open spec fn create_effect(
    m: Map<Seq<char>, Seq<char>>,
    caller: Seq<char>,
    claim: Seq<char>,
) -> Map<Seq<char>, Seq<char>> {
    if m.dom().contains(claim) {
        m
    } else {
        m.insert(claim, caller)
    }
}

/// The outcome of revoking: only the present owner can revoke its claim.
pub open spec fn revoke_result(
    m: Map<Seq<char>, Seq<char>>,
    caller: Seq<char>,
    claim: Seq<char>,
) -> DispatchResult {
    if !m.dom().contains(claim) {
        Err(ErrorKind::ClaimNotFound)
    } else if m[claim] != caller {
        Err(ErrorKind::NotClaimOwner)
    } else {
        Ok(())
    }
}

/// The registry after revoking: the entry is gone, with no tombstone; a
/// refused revocation leaves the registry as it was.
pub open spec fn revoke_effect(
    m: Map<Seq<char>, Seq<char>>,
    caller: Seq<char>,
    claim: Seq<char>,
) -> Map<Seq<char>, Seq<char>> {
    if revoke_result(m, caller, claim) is Ok {
        m.remove(claim)
    } else {
        m
    }
}

/// The outcome of dispatching a registry call.
pub open spec fn call_result(
    m: Map<Seq<char>, Seq<char>>,
    caller: Seq<char>,
    call: Call,
) -> DispatchResult {
    match call {
        Call::CreateClaim { claim } => create_result(m, caller, claim@),
        Call::RevokeClaim { claim } => revoke_result(m, caller, claim@),
    }
}

/// The registry after dispatching a registry call.
pub open spec fn call_effect(
    m: Map<Seq<char>, Seq<char>>,
    caller: Seq<char>,
    call: Call,
) -> Map<Seq<char>, Seq<char>> {
    match call {
        Call::CreateClaim { claim } => create_effect(m, caller, claim@),
        Call::RevokeClaim { claim } => revoke_effect(m, caller, claim@),
    }
}

/// The calls the claim registry accepts through dispatch.
pub enum Call {
    CreateClaim { claim: Content },
    RevokeClaim { claim: Content },
}

/// The claim registry: a mapping from content fingerprint to the one account
/// that owns it; an absent fingerprint is unclaimed.
#[derive(Debug)]
pub struct Pallet {
    claims: StrMap<AccountId>,
}

impl View for Pallet {
    type V = Map<Seq<char>, Seq<char>>;

    closed spec fn view(&self) -> Map<Seq<char>, Seq<char>> {
        self.claims@
    }
}

impl Pallet {
    /// The registry's representation keeps one entry per fingerprint.
    pub closed spec fn wf(&self) -> bool {
        self.claims.wf()
    }

    /// An empty registry: nothing is claimed.
    pub fn new() -> (r: Self)
        ensures
            r.wf(),
            r@ == Map::<Seq<char>, Seq<char>>::empty(),
    {
        Pallet { claims: StrMap::new() }
    }

    /// The owner of the claim, or `None` exactly when it is unclaimed.
    pub fn get_claim<'a>(&'a self, claim: &Content) -> (r: Option<&'a AccountId>)
        requires
            self.wf(),
        ensures
            (match r {
                Some(owner) => self@.dom().contains(claim@) && owner@ == self@[claim@],
                None => !self@.dom().contains(claim@),
            }),
    {
        self.claims.get(claim)
    }

    /// Records the caller as the claim's owner, unless it is already owned.
    pub fn create_claim(&mut self, caller: AccountId, claim: Content) -> (r: DispatchResult)
        requires
            old(self).wf(),
        ensures
            final(self).wf(),
            r == create_result(old(self)@, caller@, claim@),
            final(self)@ == create_effect(old(self)@, caller@, claim@),
    {
        match self.claims.get(&claim) {
            Some(_) => Err(ErrorKind::ClaimExists),
            None => {
                self.claims.insert(&claim, caller);
                Ok(())
            },
        }
    }

    /// Removes the claim, provided the caller is its present owner.
    pub fn revoke_claim(&mut self, caller: AccountId, claim: Content) -> (r: DispatchResult)
        requires
            old(self).wf(),
        ensures
            final(self).wf(),
            r == revoke_result(old(self)@, caller@, claim@),
            final(self)@ == revoke_effect(old(self)@, caller@, claim@),
    {
        let owned = match self.claims.get(&claim) {
            Some(owner) => *owner == caller,
            None => {
                return Err(ErrorKind::ClaimNotFound);
            },
        };
        if !owned {
            return Err(ErrorKind::NotClaimOwner);
        }
        self.claims.remove(&claim);
        Ok(())
    }

    /// Routes a registry call to the operation that implements it.
    pub fn dispatch(&mut self, caller: AccountId, call: Call) -> (r: DispatchResult)
        requires
            old(self).wf(),
        ensures
            final(self).wf(),
            r == call_result(old(self)@, caller@, call),
            final(self)@ == call_effect(old(self)@, caller@, call),
    {
        match call {
            Call::CreateClaim { claim } => self.create_claim(caller, claim),
            Call::RevokeClaim { claim } => self.revoke_claim(caller, claim),
        }
    }
}

/// Claiming is idempotent-refusing: once a content is claimed, claiming it
/// again fails with `ClaimExists`, whoever calls, and the first owner is
/// retained.
pub proof fn lemma_create_claim_refuses_second(
    m: Map<Seq<char>, Seq<char>>,
    first: Seq<char>,
    second: Seq<char>,
    claim: Seq<char>,
)
    requires
        !m.dom().contains(claim),
    ensures
        create_result(m, first, claim) == Ok::<(), ErrorKind>(()),
        create_result(create_effect(m, first, claim), second, claim) == Err::<(), ErrorKind>(
            ErrorKind::ClaimExists,
        ),
        create_effect(create_effect(m, first, claim), second, claim) == create_effect(
            m,
            first,
            claim,
        ),
        create_effect(m, first, claim)[claim] == first,
{
}

} // verus!
