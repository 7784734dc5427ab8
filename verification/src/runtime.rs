//! The runtime dispatcher: one instance of each pallet, a closed union of
//! their dispatchable calls, and block execution. A block advances the
//! block number once, then runs its extrinsics strictly in order; each
//! extrinsic first bumps its caller's nonce and is then routed to its
//! pallet, and a failing call never aborts the block or rolls back its
//! siblings.

use vstd::prelude::*;
use crate::balances;
use crate::proof_of_existence;
use crate::system;
use crate::system::nonce_in;
use crate::support::{Block, BlockError, DispatchResult, Extrinsic};

verus! {

/// The closed union of every dispatchable call, tagged by owning pallet.
/// Extending the runtime with a new pallet means extending this union and
/// the routing in `Runtime::dispatch`; the set is fixed at compile time.
pub enum RuntimeCall {
    Balances(balances::Call),
    ProofOfExistence(proof_of_existence::Call),
}

/// Abstract state of the whole runtime: each pallet's view.
#[verifier::ext_equal]
pub struct State {
    pub system: system::State,
    pub balances: Map<Seq<char>, u128>,
    pub claims: Map<Seq<char>, String>,
}

/// The result dispatching `call` for `caller` returns on state `state`.
pub open spec fn dispatch_outcome(
    state: State,
    caller: Seq<char>,
    call: RuntimeCall,
) -> DispatchResult {
    match call {
        RuntimeCall::Balances(balances::Call::Transfer { to, amount }) => balances::transfer_outcome(
            state.balances,
            caller,
            to@,
            amount,
        ),
        RuntimeCall::ProofOfExistence(
            proof_of_existence::Call::CreateClaim { claim },
        ) => proof_of_existence::create_outcome(state.claims, claim@),
        RuntimeCall::ProofOfExistence(
            proof_of_existence::Call::RevokeClaim { claim },
        ) => proof_of_existence::revoke_outcome(state.claims, caller, claim@),
    }
}

/// The state after dispatching `call` for `caller`: only the pallet the
/// call is routed to moves, and only as that pallet's operation says.
pub open spec fn dispatch_state(state: State, caller: String, call: RuntimeCall) -> State {
    match call {
        RuntimeCall::Balances(balances::Call::Transfer { to, amount }) => State {
            system: state.system,
            balances: balances::transfer_state(state.balances, caller@, to@, amount),
            claims: state.claims,
        },
        RuntimeCall::ProofOfExistence(proof_of_existence::Call::CreateClaim { claim }) => State {
            system: state.system,
            balances: state.balances,
            claims: proof_of_existence::create_state(state.claims, caller, claim@),
        },
        RuntimeCall::ProofOfExistence(proof_of_existence::Call::RevokeClaim { claim }) => State {
            system: state.system,
            balances: state.balances,
            claims: proof_of_existence::revoke_state(state.claims, caller@, claim@),
        },
    }
}

/// The state after taking in one extrinsic from `caller` but before routing
/// its call: the caller's nonce counts one more, whatever the call will do.
pub open spec fn intake_state(state: State, caller: Seq<char>) -> State {
    State {
        system: system::State {
            block_number: state.system.block_number,
            nonces: state.system.nonces.insert(
                caller,
                (nonce_in(state.system.nonces, caller) + 1) as u32,
            ),
        },
        balances: state.balances,
        claims: state.claims,
    }
}

/// The state after one whole extrinsic: nonce intake, then the call.
pub open spec fn ext_state(state: State, ext: Extrinsic) -> State {
    dispatch_state(intake_state(state, ext.caller@), ext.caller, ext.call)
}

/// The outcome one extrinsic reports: its call's result, judged on the
/// state as it stands after the nonce intake.
pub open spec fn ext_outcome(state: State, ext: Extrinsic) -> DispatchResult {
    dispatch_outcome(intake_state(state, ext.caller@), ext.caller@, ext.call)
}

/// The state after executing a sequence of extrinsics strictly in order.
pub open spec fn block_state(state: State, exts: Seq<Extrinsic>) -> State
    decreases exts.len(),
{
    if exts.len() == 0 {
        state
    } else {
        ext_state(block_state(state, exts.drop_last()), exts.last())
    }
}

/// The ordered log of per-extrinsic outcomes the same execution produces.
pub open spec fn block_outcomes(state: State, exts: Seq<Extrinsic>) -> Seq<DispatchResult>
    decreases exts.len(),
{
    if exts.len() == 0 {
        Seq::empty()
    } else {
        block_outcomes(state, exts.drop_last()).push(
            ext_outcome(block_state(state, exts.drop_last()), exts.last()),
        )
    }
}

/// The state after starting a block: the block number advanced once,
/// nothing else touched.
pub open spec fn start_block_state(state: State) -> State {
    State {
        system: system::State {
            block_number: (state.system.block_number + 1) as u32,
            nonces: state.system.nonces,
        },
        balances: state.balances,
        claims: state.claims,
    }
}

/// Every extrinsic's caller has room to count `exts.len()` more extrinsics
/// without its nonce leaving `u32`. This is the machine-width headroom
/// `execute_block` asks of its caller.
pub open spec fn nonces_have_headroom(state: State, exts: Seq<Extrinsic>) -> bool {
    forall|i: int|
        0 <= i < exts.len() ==> #[trigger] nonce_in(state.system.nonces, exts[i].caller@)
            + exts.len() <= u32::MAX
}

/// The runtime: one exclusively owned instance of each pallet. Pallets
/// never reference each other; all cross-pallet bookkeeping (nonces, block
/// number) goes through the dispatcher.
pub struct Runtime {
    pub system: system::Pallet,
    pub balances: balances::Pallet,
    pub proof_of_existence: proof_of_existence::Pallet,
}

impl View for Runtime {
    type V = State;

    open spec fn view(&self) -> State {
        State {
            system: self.system@,
            balances: self.balances@,
            claims: self.proof_of_existence@,
        }
    }
}

impl Runtime {
    /// A fresh runtime: block number zero, all maps empty, so every account
    /// holds balance zero and nonce zero and no content has an owner.
    pub fn new() -> (result: Self)
        ensures
            result@.system.block_number == 0,
            result@.system.nonces == Map::<Seq<char>, u32>::empty(),
            result@.balances == Map::<Seq<char>, u128>::empty(),
            result@.claims == Map::<Seq<char>, String>::empty(),
            forall|who: Seq<char>| #[trigger] balances::balance_in(result@.balances, who) == 0,
            forall|who: Seq<char>| #[trigger] nonce_in(result@.system.nonces, who) == 0,
            forall|content: Seq<char>|
                #[trigger] proof_of_existence::owner_in(result@.claims, content) is None,
    {
        Runtime {
            system: system::Pallet::new(),
            balances: balances::Pallet::new(),
            proof_of_existence: proof_of_existence::Pallet::new(),
        }
    }

    /// Route one call to the pallet its tag names and run it with `caller`
    /// and the call's arguments. The union is closed: this match is the
    /// whole routing table.
    pub fn dispatch(&mut self, caller: String, runtime_call: RuntimeCall) -> (result:
        DispatchResult)
        ensures
            result == dispatch_outcome(old(self)@, caller@, runtime_call),
            final(self)@ == dispatch_state(old(self)@, caller, runtime_call),
            result is Err ==> final(self)@ == old(self)@,
    {
        match runtime_call {
            RuntimeCall::Balances(balances::Call::Transfer { to, amount }) => self.balances
                .transfer(caller, to, amount),
            RuntimeCall::ProofOfExistence(proof_of_existence::Call::CreateClaim { claim }) => self
                .proof_of_existence
                .create_claim(caller, claim),
            RuntimeCall::ProofOfExistence(proof_of_existence::Call::RevokeClaim { claim }) => self
                .proof_of_existence
                .revoke_claim(caller, claim),
        }
    }

    /// Execute one block. The block number advances exactly once, whatever
    /// the block holds. A header that does not carry the advanced number is
    /// a structural fault: the block is rejected and no extrinsic runs.
    /// Otherwise every extrinsic runs strictly in the block's order, each
    /// one first counting against its caller's nonce and then dispatching
    /// its call; a failing call is recorded in the returned log and the
    /// block continues. The log holds one outcome per extrinsic, in order.
    pub fn execute_block(&mut self, block: Block) -> (result: Result<
        Vec<DispatchResult>,
        BlockError,
    >)
        requires
            old(self)@.system.block_number < u32::MAX,
            nonces_have_headroom(old(self)@, block.extrinsics@),
        ensures
            final(self)@.system.block_number == old(self)@.system.block_number + 1,
            match result {
                Ok(outcomes) => {
                    &&& block.header.block_number == old(self)@.system.block_number + 1
                    &&& final(self)@ == block_state(
                        start_block_state(old(self)@),
                        block.extrinsics@,
                    )
                    &&& outcomes@ == block_outcomes(
                        start_block_state(old(self)@),
                        block.extrinsics@,
                    )
                    &&& outcomes@.len() == block.extrinsics@.len()
                },
                Err(fault) => {
                    &&& block.header.block_number != old(self)@.system.block_number + 1
                    &&& fault == BlockError::BlockNumberMismatch
                    &&& final(self)@ == start_block_state(old(self)@)
                },
            },
    {
        self.system.inc_block_number();
        let ghost started = self@;
        proof {
            assert(started == start_block_state(old(self)@));
        }
        if block.header.block_number != self.system.block_number() {
            return Err(BlockError::BlockNumberMismatch);
        }
        let mut remaining = block.extrinsics;
        let ghost exts = remaining@;
        let mut outcomes: Vec<DispatchResult> = Vec::new();
        while remaining.len() > 0
            invariant
                outcomes@.len() + remaining@.len() == exts.len(),
                remaining@ == exts.skip(outcomes@.len() as int),
                self@ == block_state(started, exts.take(outcomes@.len() as int)),
                outcomes@ == block_outcomes(started, exts.take(outcomes@.len() as int)),
                self@.system.block_number == started.system.block_number,
                forall|who: Seq<char>|
                    #[trigger] nonce_in(self@.system.nonces, who) <= nonce_in(
                        started.system.nonces,
                        who,
                    ) + outcomes@.len(),
                nonces_have_headroom(started, exts),
            decreases remaining@.len(),
        {
            let ghost done = outcomes@.len() as int;
            let ghost before = self@;
            let ext = remaining.remove(0);
            proof {
                assert(exts.skip(done)[0] == exts[done]);
                assert(remaining@ =~= exts.skip(done + 1));
                assert(nonce_in(started.system.nonces, exts[done].caller@) + exts.len()
                    <= u32::MAX);
            }
            self.system.inc_nonce(&ext.caller);
            proof {
                assert(self@ == intake_state(before, ext.caller@));
            }
            let Extrinsic { caller, call } = ext;
            let outcome = self.dispatch(caller, call);
            outcomes.push(outcome);
            proof {
                assert(self@ == ext_state(before, exts[done]));
                assert(outcome == ext_outcome(before, exts[done]));
                assert(exts.take(done + 1).drop_last() =~= exts.take(done));
                assert(exts.take(done + 1).last() == exts[done]);
                assert(self@ == block_state(started, exts.take(done + 1)));
                assert(outcomes@ =~= block_outcomes(started, exts.take(done + 1)));
                assert forall|who: Seq<char>| #[trigger] nonce_in(self@.system.nonces, who)
                    <= nonce_in(started.system.nonces, who) + done + 1 by {
                    if who != exts[done].caller@ {
                        assert(nonce_in(self@.system.nonces, who) == nonce_in(
                            before.system.nonces,
                            who,
                        ));
                    }
                }
            }
        }
        proof {
            assert(exts.take(outcomes@.len() as int) =~= exts);
        }
        Ok(outcomes)
    }
}

/// How many extrinsics in `exts` are submitted by `who`.
pub open spec fn count_calls_by(exts: Seq<Extrinsic>, who: Seq<char>) -> int
    decreases exts.len(),
{
    if exts.len() == 0 {
        0
    } else {
        count_calls_by(exts.drop_last(), who) + if exts.last().caller@ == who {
            1int
        } else {
            0int
        }
    }
}

/// Law: executing extrinsics never moves the block number. Together with
/// `execute_block`'s own contract — the final block number is the old one
/// plus one, on success and on rejection alike — the block number advances
/// exactly once per block, independent of how many extrinsics it holds.
pub proof fn lemma_block_number_once(state: State, exts: Seq<Extrinsic>)
    ensures
        block_state(state, exts).system.block_number == state.system.block_number,
    decreases exts.len(),
{
    if exts.len() > 0 {
        lemma_block_number_once(state, exts.drop_last());
    }
}

/// Law: the nonce counts exactly one per extrinsic. After executing `exts`,
/// each account's nonce has grown by exactly the number of extrinsics that
/// account submitted — whether or not their calls succeeded. The headroom
/// premise only keeps the counters inside `u32`.
pub proof fn lemma_nonce_counts_extrinsics(state: State, exts: Seq<Extrinsic>, who: Seq<char>)
    requires
        nonces_have_headroom(state, exts),
    ensures
        0 <= count_calls_by(exts, who) <= exts.len(),
        nonce_in(block_state(state, exts).system.nonces, who) == nonce_in(
            state.system.nonces,
            who,
        ) + count_calls_by(exts, who),
    decreases exts.len(),
{
    if exts.len() > 0 {
        let shorter = exts.drop_last();
        assert(nonces_have_headroom(state, shorter)) by {
            assert forall|i: int|
                0 <= i < shorter.len() implies #[trigger] nonce_in(
                state.system.nonces,
                shorter[i].caller@,
            ) + shorter.len() <= u32::MAX by {
                assert(shorter[i] == exts[i]);
                assert(nonce_in(state.system.nonces, exts[i].caller@) + exts.len() <= u32::MAX);
            }
        }
        lemma_nonce_counts_extrinsics(state, shorter, who);
        let last_caller = exts.last().caller@;
        lemma_nonce_counts_extrinsics(state, shorter, last_caller);
        assert(nonce_in(state.system.nonces, last_caller) + exts.len() <= u32::MAX) by {
            assert(exts[exts.len() - 1] == exts.last());
        }
    }
}

} // verus!
