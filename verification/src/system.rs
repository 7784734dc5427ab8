//! The system pallet: the chain's clock. It holds the current block number
//! and a per-account nonce counting the extrinsics each account submitted.

use vstd::prelude::*;
use vstd::hash_map::StringHashMap;

verus! {

/// The nonce a map assigns to an account: the stored counter, or zero for
/// an account never seen.
pub open spec fn nonce_in(nonces: Map<Seq<char>, u32>, who: Seq<char>) -> u32 {
    if nonces.contains_key(who) {
        nonces[who]
    } else {
        0
    }
}

/// Abstract state of the system pallet.
#[verifier::ext_equal]
pub struct State {
    pub block_number: u32,
    pub nonces: Map<Seq<char>, u32>,
}

/// Block number and per-account nonces.
pub struct Pallet {
    block_number: u32,
    nonce: StringHashMap<u32>,
}

impl View for Pallet {
    type V = State;

    closed spec fn view(&self) -> State {
        State { block_number: self.block_number, nonces: self.nonce@ }
    }
}

impl Pallet {
    /// A fresh clock: block number zero, every nonce zero.
    pub fn new() -> (result: Self)
        ensures
            result@.block_number == 0,
            result@.nonces == Map::<Seq<char>, u32>::empty(),
            forall|who: Seq<char>| #[trigger] nonce_in(result@.nonces, who) == 0,
    {
        Pallet { block_number: 0, nonce: StringHashMap::new() }
    }

    /// The current block number.
    pub fn block_number(&self) -> (result: u32)
        ensures
            result == self@.block_number,
    {
        self.block_number
    }

    /// Advance the chain by one block. Block numbers are expected never to
    /// reach the width's limit in practice; the caller keeps the counter
    /// below it, and the increment can then not overflow.
    pub fn inc_block_number(&mut self)
        requires
            old(self)@.block_number < u32::MAX,
        ensures
            final(self)@ == (State {
                block_number: (old(self)@.block_number + 1) as u32,
                nonces: old(self)@.nonces,
            }),
    {
        self.block_number = self.block_number + 1;
    }

    /// Count one more extrinsic for `who`: read the current nonce (zero if
    /// unseen) and write back its successor. The runtime calls this exactly
    /// once per extrinsic, before dispatching its call.
    pub fn inc_nonce(&mut self, who: &String)
        requires
            nonce_in(old(self)@.nonces, who@) < u32::MAX,
        ensures
            final(self)@ == (State {
                block_number: old(self)@.block_number,
                nonces: old(self)@.nonces.insert(
                    who@,
                    (nonce_in(old(self)@.nonces, who@) + 1) as u32,
                ),
            }),
            nonce_in(final(self)@.nonces, who@) == nonce_in(old(self)@.nonces, who@) + 1,
    {
        let nonce = self.get_nonce(who);
        self.nonce.insert(who.clone(), nonce + 1);
    }

    /// The account's stored nonce, or zero if it was never seen.
    pub fn get_nonce(&self, who: &String) -> (result: u32)
        ensures
            result == nonce_in(self@.nonces, who@),
    {
        match self.nonce.get(who.as_str()) {
            Some(nonce) => *nonce,
            None => 0,
        }
    }
}

} // verus!
