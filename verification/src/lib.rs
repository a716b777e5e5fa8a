pub mod balances;
pub mod proof_of_existence;
pub mod strmap;
pub mod support;
pub mod system;
pub mod types;

use vstd::prelude::*;

use crate::strmap::StrMap;
use crate::support::{Block, DispatchResult, ErrorKind, Extrinsic};
use crate::system::{next_block_number, nonce_of};
use crate::types::{AccountId, Balance, BlockNumber, Nonce};

verus! {

/// The closed union of every module's calls; dispatch routes each variant to
/// the module that owns it.
pub enum RuntimeCall {
    Balances(balances::Call),
    ProofOfExistence(proof_of_existence::Call),
}

/// The whole runtime state as mathematical maps: one component per module.
pub struct StateView {
    pub block_number: BlockNumber,
    pub nonces: Map<Seq<char>, Nonce>,
    pub balances: Map<Seq<char>, Balance>,
    pub claims: Map<Seq<char>, Seq<char>>,
}

/// The composed runtime: one instance of each module, the sole owner of all
/// state.
#[derive(Debug)]
pub struct Runtime {
    pub system: system::Pallet,
    pub balances: balances::Pallet,
    pub proof_of_existence: proof_of_existence::Pallet,
}

impl View for Runtime {
    type V = StateView;

    open spec fn view(&self) -> StateView {
        StateView {
            block_number: self.system.spec_block_number(),
            nonces: self.system.nonces(),
            balances: self.balances@,
            claims: self.proof_of_existence@,
        }
    }
}

/// The outcome of routing one call: each variant is delegated verbatim to
/// the owning module, the result propagated unchanged.
pub open spec fn dispatch_result(s: StateView, caller: Seq<char>, call: RuntimeCall) -> DispatchResult {
    match call {
        RuntimeCall::Balances(c) => balances::call_result(s.balances, caller, c),
        RuntimeCall::ProofOfExistence(c) => proof_of_existence::call_result(s.claims, caller, c),
    }
}

/// The state after routing one call: only the owning module's component
/// moves, and only when the call succeeds.
pub open spec fn dispatch_effect(s: StateView, caller: Seq<char>, call: RuntimeCall) -> StateView {
    match call {
        RuntimeCall::Balances(c) => StateView {
            balances: balances::call_effect(s.balances, caller, c),
            ..s
        },
        RuntimeCall::ProofOfExistence(c) => StateView {
            claims: proof_of_existence::call_effect(s.claims, caller, c),
            ..s
        },
    }
}

/// The state with the account's nonce advanced by one.
pub open spec fn bump_nonce(s: StateView, who: Seq<char>) -> StateView {
    StateView { nonces: s.nonces.insert(who, (nonce_of(s.nonces, who) + 1) as Nonce), ..s }
}

/// One extrinsic applied to the state: the caller's nonce first, then the
/// dispatched call's effect.
pub open spec fn step_state(s: StateView, xt: Extrinsic) -> StateView {
    dispatch_effect(bump_nonce(s, xt.caller@), xt.caller@, xt.call)
}

/// The state after the first `n` extrinsics of the sequence, applied in order.
pub open spec fn exec_prefix(s: StateView, xts: Seq<Extrinsic>, n: int) -> StateView
    decreases n,
{
    if n <= 0 {
        s
    } else {
        step_state(exec_prefix(s, xts, n - 1), xts[n - 1])
    }
}

/// No caller's nonce reaches the top of its range while the first `n`
/// extrinsics are applied.
pub open spec fn prefix_nonces_ok(s: StateView, xts: Seq<Extrinsic>, n: int) -> bool
    decreases n,
{
    n <= 0 || (prefix_nonces_ok(s, xts, n - 1) && nonce_of(
        exec_prefix(s, xts, n - 1).nonces,
        xts[n - 1].caller@,
    ) < Nonce::MAX)
}

/// How many of the first `n` extrinsics the account submits.
pub open spec fn count_calls_by(xts: Seq<Extrinsic>, a: Seq<char>, n: int) -> int
    decreases n,
{
    if n <= 0 {
        0
    } else {
        count_calls_by(xts, a, n - 1) + (if xts[n - 1].caller@ == a {
            1int
        } else {
            0int
        })
    }
}

/// Dispatch leaves the nonce table alone: one step moves only the caller's
/// nonce.
proof fn lemma_step_keeps_nonces(s: StateView, xt: Extrinsic)
    ensures
        step_state(s, xt).nonces == bump_nonce(s, xt.caller@).nonces,
{
    match xt.call {
        RuntimeCall::Balances(_) => {},
        RuntimeCall::ProofOfExistence(_) => {},
    }
}

/// Applying extrinsics advances each account's nonce by exactly the count of
/// the extrinsics it submits, whether or not the dispatched calls succeed.
pub proof fn lemma_nonce_counts_extrinsics(s: StateView, xts: Seq<Extrinsic>, n: int, a: Seq<char>)
    requires
        0 <= n <= xts.len(),
        prefix_nonces_ok(s, xts, n),
    ensures
        nonce_of(exec_prefix(s, xts, n).nonces, a) == nonce_of(s.nonces, a) + count_calls_by(
            xts,
            a,
            n,
        ),
    decreases n,
{
    if n > 0 {
        lemma_nonce_counts_extrinsics(s, xts, n - 1, a);
        lemma_nonce_counts_extrinsics(s, xts, n - 1, xts[n - 1].caller@);
        lemma_step_keeps_nonces(exec_prefix(s, xts, n - 1), xts[n - 1]);
    }
}

/// Nonce headroom over a whole block covers every prefix of it.
pub proof fn lemma_prefix_nonces_ok_mono(s: StateView, xts: Seq<Extrinsic>, m: int, n: int)
    requires
        0 <= m <= n,
        prefix_nonces_ok(s, xts, n),
    ensures
        prefix_nonces_ok(s, xts, m),
    decreases n - m,
{
    if m < n {
        lemma_prefix_nonces_ok_mono(s, xts, m, n - 1);
    }
}

/// A copy of the call, field for field.
fn clone_call(call: &RuntimeCall) -> (r: RuntimeCall)
    ensures
        r == *call,
{
    match call {
        RuntimeCall::Balances(balances::Call::Transfer { to, amount }) => RuntimeCall::Balances(
            balances::Call::Transfer { to: to.clone(), amount: *amount },
        ),
        RuntimeCall::ProofOfExistence(proof_of_existence::Call::CreateClaim { claim }) => RuntimeCall::ProofOfExistence(
            proof_of_existence::Call::CreateClaim { claim: claim.clone() },
        ),
        RuntimeCall::ProofOfExistence(proof_of_existence::Call::RevokeClaim { claim }) => RuntimeCall::ProofOfExistence(
            proof_of_existence::Call::RevokeClaim { claim: claim.clone() },
        ),
    }
}

impl Runtime {
    /// Every module's representation invariant holds.
    pub open spec fn wf(&self) -> bool {
        self.system.wf() && self.balances.wf() && self.proof_of_existence.wf()
    }

    /// A fresh runtime: every module's state zero or empty.
    pub fn new() -> (r: Self)
        ensures
            r.wf(),
            r@ == (StateView {
                block_number: 0,
                nonces: Map::empty(),
                balances: Map::empty(),
                claims: Map::empty(),
            }),
    {
        Runtime {
            system: system::Pallet::new(),
            balances: balances::Pallet::new(),
            proof_of_existence: proof_of_existence::Pallet::new(),
        }
    }

    /// Routes the call to the module that owns it; no bookkeeping of its own.
    pub fn dispatch(&mut self, caller: AccountId, runtime_call: RuntimeCall) -> (r: DispatchResult)
        requires
            old(self).wf(),
        ensures
            final(self).wf(),
            r == dispatch_result(old(self)@, caller@, runtime_call),
            final(self)@ == dispatch_effect(old(self)@, caller@, runtime_call),
    {
        match runtime_call {
            RuntimeCall::Balances(call) => self.balances.dispatch(caller, call),
            RuntimeCall::ProofOfExistence(call) => self.proof_of_existence.dispatch(caller, call),
        }
    }

    /// Whether the block can be applied without any caller's nonce running
    /// out: exactly the headroom that `execute_block` asks for where the
    /// header carries the next block number.
    pub fn block_nonces_ok(&self, block: &Block) -> (r: bool)
        requires
            self.wf(),
        ensures
            r == prefix_nonces_ok(
                (StateView { block_number: next_block_number(self@.block_number), ..self@ }),
                block.extrinsics@,
                block.extrinsics@.len() as int,
            ),
    {
        let ghost s1 = (StateView {
            block_number: next_block_number(self@.block_number),
            ..self@
        });
        let ghost xts = block.extrinsics@;
        let mut seen: StrMap<Nonce> = StrMap::new();
        let n: usize = block.extrinsics.len();
        let mut i: usize = 0;
        while i < n
            invariant
                self.wf(),
                seen.wf(),
                n == xts.len(),
                xts == block.extrinsics@,
                0 <= i <= n,
                s1 == (StateView {
                    block_number: next_block_number(self@.block_number),
                    ..self@
                }),
                prefix_nonces_ok(s1, xts, i as int),
                forall|a: Seq<char>| #[trigger] nonce_of(exec_prefix(s1, xts, i as int).nonces, a)
                    == (if seen@.dom().contains(a) {
                    seen@[a]
                } else {
                    nonce_of(self@.nonces, a)
                }),
            decreases n - i,
        {
            let xt = &block.extrinsics[i];
            let cur = match seen.get(&xt.caller) {
                Some(v) => *v,
                None => self.system.nonce_or_zero(&xt.caller),
            };
            proof {
                assert(cur == nonce_of(exec_prefix(s1, xts, i as int).nonces, xt.caller@));
            }
            if cur == Nonce::MAX {
                proof {
                    if prefix_nonces_ok(s1, xts, n as int) {
                        lemma_prefix_nonces_ok_mono(s1, xts, i as int + 1, n as int);
                        assert(false);
                    }
                }
                return false;
            }
            seen.insert(&xt.caller, cur + 1);
            proof {
                let c = xts[i as int];
                let pre = exec_prefix(s1, xts, i as int);
                let post = exec_prefix(s1, xts, i as int + 1);
                assert(post == step_state(pre, c));
                lemma_step_keeps_nonces(pre, c);
                assert forall|a: Seq<char>| #[trigger] nonce_of(post.nonces, a) == (
                if seen@.dom().contains(a) {
                    seen@[a]
                } else {
                    nonce_of(self@.nonces, a)
                }) by {
                    if a != c.caller@ {
                        assert(nonce_of(post.nonces, a) == nonce_of(pre.nonces, a));
                    }
                }
            }
            i = i + 1;
        }
        true
    }

    /// Applies a block: advances the block number, checks it against the
    /// header and fails fast on a mismatch with nothing applied; otherwise
    /// applies every extrinsic in order, advancing the caller's nonce before
    /// each dispatch, and succeeds even where single extrinsics fail.
    pub fn execute_block(&mut self, block: Block) -> (r: DispatchResult)
        requires
            old(self).wf(),
            next_block_number(old(self)@.block_number) == block.header.block_number
                ==> prefix_nonces_ok(
                (StateView { block_number: block.header.block_number, ..old(self)@ }),
                block.extrinsics@,
                block.extrinsics@.len() as int,
            ),
        ensures
            final(self).wf(),
            ({
                let s1 = (StateView {
                    block_number: next_block_number(old(self)@.block_number),
                    ..old(self)@
                });
                if block.header.block_number != s1.block_number {
                    r == Err::<(), ErrorKind>(ErrorKind::BlockNumberMismatch) && final(self)@ == s1
                } else {
                    r == Ok::<(), ErrorKind>(()) && final(self)@ == exec_prefix(
                        s1,
                        block.extrinsics@,
                        block.extrinsics@.len() as int,
                    )
                }
            }),
    {
        self.system.inc_block_number();
        if self.system.block_number() != block.header.block_number {
            return Err(ErrorKind::BlockNumberMismatch);
        }

        let ghost s1 = self@;
        let ghost xts = block.extrinsics@;
        let n: usize = block.extrinsics.len();
        let mut idx: usize = 0;
        while idx < n
            invariant
                self.wf(),
                n == xts.len(),
                0 <= idx <= n,
                xts == block.extrinsics@,
                s1 == (StateView {
                    block_number: next_block_number(old(self)@.block_number),
                    ..old(self)@
                }),
                prefix_nonces_ok(s1, xts, n as int),
                self@ == exec_prefix(s1, xts, idx as int),
            decreases n - idx,
        {
            let xt = &block.extrinsics[idx];
            proof {
                lemma_prefix_nonces_ok_mono(s1, xts, idx as int + 1, n as int);
            }
            self.system.inc_nonce(&xt.caller);
            let caller = xt.caller.clone();
            let call = clone_call(&xt.call);
            let _ = self.dispatch(caller, call);
            proof {
                assert(exec_prefix(s1, xts, idx as int + 1) == step_state(
                    exec_prefix(s1, xts, idx as int),
                    xts[idx as int],
                ));
            }
            idx = idx + 1;
        }

        Ok(())
    }
}

} // verus!
