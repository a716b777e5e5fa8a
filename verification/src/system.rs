use vstd::prelude::*;
use crate::strmap::StrMap;
use crate::types::{AccountId, BlockNumber, Nonce};

verus! {

/// The block number that follows `n`: one more, wrapping to zero at the top
/// of the range rather than failing.
pub open spec fn next_block_number(n: BlockNumber) -> BlockNumber {
    if n == BlockNumber::MAX {
        0
    } else {
        (n + 1) as BlockNumber
    }
}

/// The nonce recorded for an account, zero for one never seen.
pub open spec fn nonce_of(m: Map<Seq<char>, Nonce>, who: Seq<char>) -> Nonce {
    if m.dom().contains(who) {
        m[who]
    } else {
        0
    }
}

/// The system bookkeeping: the current block number, and a nonce per account
/// that has submitted an extrinsic.
#[derive(Debug)]
pub struct Pallet {
    block_number: BlockNumber,
    nonce: StrMap<Nonce>,
}

impl Pallet {
    /// The nonce table keeps one entry per account.
    pub closed spec fn wf(&self) -> bool {
        self.nonce.wf()
    }

    /// The current block number.
    pub closed spec fn spec_block_number(&self) -> BlockNumber {
        self.block_number
    }

    /// The recorded nonces.
    pub closed spec fn nonces(&self) -> Map<Seq<char>, Nonce> {
        self.nonce@
    }

    /// Fresh bookkeeping: block number zero, no nonce recorded.
    pub fn new() -> (r: Self)
        ensures
            r.wf(),
            r.spec_block_number() == 0,
            r.nonces() == Map::<Seq<char>, Nonce>::empty(),
    {
        Pallet { block_number: 0, nonce: StrMap::new() }
    }

    /// The current block number.
    pub fn block_number(&self) -> (r: BlockNumber)
        ensures
            r == self.spec_block_number(),
    {
        self.block_number
    }

    /// Advances the block number by one; at the top of the range it wraps to
    /// zero rather than failing.
    pub fn inc_block_number(&mut self)
        requires
            old(self).wf(),
        ensures
            final(self).wf(),
            final(self).spec_block_number() == next_block_number(old(self).spec_block_number()),
            final(self).nonces() == old(self).nonces(),
    {
        let new_block_number = match self.block_number.checked_add(1) {
            Some(n) => n,
            None => 0,
        };
        self.block_number = new_block_number;
    }

    /// Advances the account's nonce by one, recording one for an account
    /// never seen. Nonce space is assumed never to run out: a caller must
    /// keep the nonce below the top of its range.
    pub fn inc_nonce(&mut self, who: &AccountId)
        requires
            old(self).wf(),
            nonce_of(old(self).nonces(), who@) < Nonce::MAX,
        ensures
            final(self).wf(),
            final(self).nonces() == old(self).nonces().insert(
                who@,
                (nonce_of(old(self).nonces(), who@) + 1) as Nonce,
            ),
            final(self).spec_block_number() == old(self).spec_block_number(),
    {
        let nonce = self.nonce_or_zero(who);
        let new_nonce = nonce + 1;
        self.nonce.insert(who, new_nonce);
    }

    /// The account's recorded nonce, zero for one never seen.
    pub fn nonce_or_zero(&self, who: &AccountId) -> (r: Nonce)
        requires
            self.wf(),
        ensures
            r == nonce_of(self.nonces(), who@),
    {
        match self.nonce.get(who) {
            Some(n) => *n,
            None => 0,
        }
    }

    /// The account's recorded nonce; only for an account whose nonce has
    /// been advanced at least once.
    pub fn get_nonce(&mut self, who: &AccountId) -> (r: Nonce)
        requires
            old(self).wf(),
            old(self).nonces().dom().contains(who@),
        ensures
            final(self).wf(),
            final(self).nonces() == old(self).nonces(),
            final(self).spec_block_number() == old(self).spec_block_number(),
            r == old(self).nonces()[who@],
    {
        match self.nonce.get(who) {
            Some(n) => *n,
            None => vstd::pervasive::unreached(),
        }
    }
}

} // verus!
