//! Balances, and the one way in which value moves between two of them.

use crate::errors::ProposalErrorCode;
use anchor_lang::prelude::Pubkey;
use vstd::prelude::*;

verus! {

/// What the ledger holds of one account: whose it is and how much is in it.
#[derive(Clone, Copy, Debug)]
pub struct Wallet {
    /// The owner's key.
    pub key: Pubkey,
    /// The balance.
    pub lamports: u64,
}

impl Wallet {
    /// The same wallet with `amount` added to its balance. It says what
    /// its name says only of a balance that can take the amount: whoever
    /// speaks of a credited wallet states beside it that the sum does not
    /// exceed `u64::MAX`.
    pub open spec fn credited(self, amount: nat) -> Wallet
        recommends
            self.lamports + amount <= u64::MAX,
    {
        Wallet { key: self.key, lamports: (self.lamports + amount) as u64 }
    }
}

/// Why `amount` cannot be moved from a balance of `from` to one of `to`, if
/// it cannot: the receiving balance is looked at first.
pub open spec fn transfer_error(from: nat, to: nat, amount: nat) -> Option<ProposalErrorCode> {
    if to + amount > u64::MAX {
        Some(ProposalErrorCode::Overflow)
    } else if from < amount {
        Some(ProposalErrorCode::InsufficientFunds)
    } else {
        None
    }
}

/// Moves `amount` from one balance to another, or leaves both untouched.
///
/// Fails with `Overflow` if the receiving balance would exceed `u64::MAX`,
/// else with `InsufficientFunds` if the paying balance is too small.
pub fn transfer(from: &mut u64, to: &mut u64, amount: u64) -> (moved: Result<(), ProposalErrorCode>)
    ensures
        moved is Ok <==> transfer_error(*old(from) as nat, *old(to) as nat, amount as nat) is None,
        moved matches Err(e) ==> {
            &&& transfer_error(*old(from) as nat, *old(to) as nat, amount as nat) == Some(e)
            &&& *final(from) == *old(from)
            &&& *final(to) == *old(to)
        },
        moved is Ok ==> {
            &&& *final(from) == *old(from) - amount
            &&& *final(to) == *old(to) + amount
        },
{
    let credited = match to.checked_add(amount) {
        Some(sum) => sum,
        None => {
            return Err(ProposalErrorCode::Overflow);
        },
    };
    let debited = match from.checked_sub(amount) {
        Some(rest) => rest,
        None => {
            return Err(ProposalErrorCode::InsufficientFunds);
        },
    };
    *to = credited;
    *from = debited;
    Ok(())
}

/// The sum of the balances of `wallets`.
pub open spec fn total_lamports(wallets: Seq<Wallet>) -> nat
    decreases wallets.len(),
{
    if wallets.len() == 0 {
        0
    } else {
        total_lamports(wallets.drop_last()) + wallets.last().lamports as nat
    }
}

/// Crediting one wallet raises the sum of all balances by the amount
/// credited.
pub proof fn lemma_total_after_credit(wallets: Seq<Wallet>, i: int, amount: nat)
    requires
        0 <= i < wallets.len(),
        wallets[i].lamports + amount <= u64::MAX,
    ensures
        total_lamports(wallets.update(i, wallets[i].credited(amount))) == total_lamports(wallets)
            + amount,
    decreases wallets.len(),
{
    let after = wallets.update(i, wallets[i].credited(amount));
    if i == wallets.len() - 1 {
        assert(after.drop_last() =~= wallets.drop_last());
    } else {
        lemma_total_after_credit(wallets.drop_last(), i, amount);
        assert(after.drop_last() =~= wallets.drop_last().update(
            i,
            wallets.drop_last()[i].credited(amount),
        ));
    }
}

} // verus!
