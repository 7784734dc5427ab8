//! The balances pallet: a ledger mapping accounts to funds, with a
//! checked, atomic transfer operation.

use vstd::prelude::*;
use vstd::hash_map::StringHashMap;
use crate::support::{DispatchError, DispatchResult};

verus! {

/// The balance a ledger assigns to an account: the stored value, or zero
/// for an account never written. Zero-valued entries are never materialized
/// implicitly; absence and zero are the same balance.
pub open spec fn balance_in(ledger: Map<Seq<char>, u128>, who: Seq<char>) -> u128 {
    if ledger.contains_key(who) {
        ledger[who]
    } else {
        0
    }
}

/// The result `transfer` returns on ledger `ledger`: it fails with
/// `InsufficientBalance` when the caller holds less than `amount`, then with
/// `BalanceOverflow` when the recipient's balance would leave `u128`, and
/// succeeds otherwise. Both checks read the ledger as it stood before the
/// transfer, also when caller and recipient coincide.
pub open spec fn transfer_outcome(
    ledger: Map<Seq<char>, u128>,
    caller: Seq<char>,
    to: Seq<char>,
    amount: u128,
) -> DispatchResult {
    if balance_in(ledger, caller) < amount {
        Err(DispatchError::InsufficientBalance)
    } else if balance_in(ledger, to) + amount > u128::MAX {
        Err(DispatchError::BalanceOverflow)
    } else {
        Ok(())
    }
}

/// The ledger after `transfer`: unchanged on failure; on success the caller
/// loses `amount` and the recipient gains it, a self-transfer leaving the
/// one balance as it was.
pub open spec fn transfer_state(
    ledger: Map<Seq<char>, u128>,
    caller: Seq<char>,
    to: Seq<char>,
    amount: u128,
) -> Map<Seq<char>, u128> {
    if transfer_outcome(ledger, caller, to, amount) is Ok {
        if caller == to {
            ledger.insert(caller, balance_in(ledger, caller))
        } else {
            ledger.insert(caller, (balance_in(ledger, caller) - amount) as u128).insert(
                to,
                (balance_in(ledger, to) + amount) as u128,
            )
        }
    } else {
        ledger
    }
}

/// The calls this pallet exposes to extrinsic dispatch. `set_balance` is
/// deliberately absent: it is privileged setup, not a user-facing call.
pub enum Call {
    Transfer { to: String, amount: u128 },
}

/// Per-account funds. The view is the map of materialized entries;
/// `balance_in` reads any account off it, unseen accounts holding zero.
pub struct Pallet {
    balances: StringHashMap<u128>,
}

impl View for Pallet {
    type V = Map<Seq<char>, u128>;

    closed spec fn view(&self) -> Map<Seq<char>, u128> {
        self.balances@
    }
}

impl Pallet {
    /// An empty ledger: every account holds zero.
    pub fn new() -> (result: Self)
        ensures
            result@ == Map::<Seq<char>, u128>::empty(),
            forall|who: Seq<char>| #[trigger] balance_in(result@, who) == 0,
    {
        Pallet { balances: StringHashMap::new() }
    }

    /// Unconditional write, overwriting whatever the account held. This is
    /// privileged setup (genesis funding); it is not reachable through
    /// extrinsic dispatch.
    pub fn set_balance(&mut self, who: String, amount: u128)
        ensures
            final(self)@ == old(self)@.insert(who@, amount),
            balance_in(final(self)@, who@) == amount,
    {
        self.balances.insert(who, amount);
    }

    /// The account's stored balance, or zero if it was never written.
    pub fn balance(&self, who: &String) -> (result: u128)
        ensures
            result == balance_in(self@, who@),
    {
        match self.balances.get(who.as_str()) {
            Some(amount) => *amount,
            None => 0,
        }
    }

    /// Move `amount` from `caller` to `to`. Fails with `InsufficientBalance`
    /// when the caller's funds do not cover `amount`, with `BalanceOverflow`
    /// when the recipient's balance would leave the representable range; on
    /// failure the ledger is left completely unchanged. Both checks read the
    /// pre-transfer balances, so a self-transfer succeeds with no net change
    /// whenever both checks pass against the one pre-transfer balance.
    pub fn transfer(&mut self, caller: String, to: String, amount: u128) -> (result:
        DispatchResult)
        ensures
            result == transfer_outcome(old(self)@, caller@, to@, amount),
            final(self)@ == transfer_state(old(self)@, caller@, to@, amount),
            result is Err ==> final(self)@ == old(self)@,
            result == Err::<(), DispatchError>(DispatchError::InsufficientBalance) <==> amount
                > balance_in(old(self)@, caller@),
            result == Err::<(), DispatchError>(DispatchError::BalanceOverflow) <==> amount
                <= balance_in(old(self)@, caller@) && balance_in(old(self)@, to@) + amount
                > u128::MAX,
            result is Ok <==> amount <= balance_in(old(self)@, caller@) && balance_in(
                old(self)@,
                to@,
            ) + amount <= u128::MAX,
            result is Ok && caller@ != to@ ==> balance_in(final(self)@, caller@) == balance_in(
                old(self)@,
                caller@,
            ) - amount && balance_in(final(self)@, to@) == balance_in(old(self)@, to@) + amount,
            result is Ok && caller@ == to@ ==> balance_in(final(self)@, caller@) == balance_in(
                old(self)@,
                caller@,
            ),
    {
        let ghost caller_key = caller@;
        let ghost to_key = to@;
        let caller_balance = self.balance(&caller);
        let to_balance = self.balance(&to);
        let new_caller_balance = match caller_balance.checked_sub(amount) {
            Some(value) => value,
            None => {
                return Err(DispatchError::InsufficientBalance);
            },
        };
        // The overflow check reads the recipient's pre-transfer balance,
        // also when caller and recipient coincide.
        match to_balance.checked_add(amount) {
            Some(_) => (),
            None => {
                return Err(DispatchError::BalanceOverflow);
            },
        };
        self.set_balance(caller, new_caller_balance);
        // Credit the balance as it stands after the debit landed, so that a
        // self-transfer nets to zero instead of double-counting.
        let to_balance_now = self.balance(&to);
        self.set_balance(to, to_balance_now + amount);
        proof {
            if caller_key == to_key {
                assert(self@ =~= transfer_state(old(self)@, caller_key, to_key, amount));
            }
        }
        Ok(())
    }
}

/// Law: a successful transfer conserves funds. The caller loses exactly
/// `amount`, the recipient gains exactly it, their two balances sum to what
/// they summed to before, every other account is untouched, and a
/// self-transfer leaves the one balance as it was. Success itself implies
/// the caller's pre-transfer balance covered `amount`.
pub proof fn lemma_transfer_conservation(
    ledger: Map<Seq<char>, u128>,
    caller: Seq<char>,
    to: Seq<char>,
    amount: u128,
)
    requires
        transfer_outcome(ledger, caller, to, amount) is Ok,
    ensures
        balance_in(ledger, caller) >= amount,
        balance_in(ledger, to) + amount <= u128::MAX,
        caller != to ==> balance_in(transfer_state(ledger, caller, to, amount), caller)
            == balance_in(ledger, caller) - amount,
        caller != to ==> balance_in(transfer_state(ledger, caller, to, amount), to) == balance_in(
            ledger,
            to,
        ) + amount,
        caller != to ==> balance_in(transfer_state(ledger, caller, to, amount), caller)
            + balance_in(transfer_state(ledger, caller, to, amount), to) == balance_in(
            ledger,
            caller,
        ) + balance_in(ledger, to),
        caller == to ==> balance_in(transfer_state(ledger, caller, to, amount), caller)
            == balance_in(ledger, caller),
        forall|other: Seq<char>|
            other != caller && other != to ==> #[trigger] balance_in(
                transfer_state(ledger, caller, to, amount),
                other,
            ) == balance_in(ledger, other),
{
}

} // verus!
