//! The persisted records and their own state transitions: a vault per asset
//! type, and a staking account per (owner, vault) pair whose balance moves
//! only through checked deposit and withdraw steps.

use vstd::prelude::*;

use crate::addresses::Address;
use crate::addresses::zero_address;
use crate::errors::ErrorCode;

verus! {

/// One record per pooled asset type: remembers which asset it custodies.
/// Immutable after creation.
#[derive(Clone, Copy, Debug)]
pub struct Vault {
    pub token_mint: Address,
}

impl Vault {
    /// Create the vault record for an asset type, as the initialize
    /// entry point does once per asset.
    pub fn initialize(token_mint: &Address) -> (v: Vault)
        ensures
            v.token_mint == *token_mint,
    {
        Vault { token_mint: *token_mint }
    }
}

/// One record per (user, vault) pair: the owner and the amount that owner
/// may reclaim. `owner` is set by the first writer and never changes after.
#[derive(Clone, Copy, Debug)]
pub struct StakingAccount {
    pub owner: Address,
    pub balance: u64,
}

impl StakingAccount {
    /// A freshly created, not yet claimed record: zero owner, zero balance.
    pub fn new() -> (a: StakingAccount)
        ensures
            a.owner@ == zero_address(),
            a.balance == 0,
    {
        StakingAccount { owner: Address::zero(), balance: 0 }
    }

    /// Credit `amount` to this account on behalf of `signer`. A record whose
    /// owner was never set (still the zero address) is claimed by the first
    /// depositor. The balance update is overflow-checked: on `Overflow`
    /// nothing changes.
    pub fn deposit(&mut self, signer: &Address, amount: u64) -> (r: Result<(), ErrorCode>)
        ensures
            r is Ok <==> old(self).balance + amount <= u64::MAX,
            r is Ok ==> final(self).balance == old(self).balance + amount,
            r is Ok ==> final(self).owner == (if old(self).owner@ == zero_address() {
                *signer
            } else {
                old(self).owner
            }),
            r is Err ==> r == Err::<(), ErrorCode>(ErrorCode::Overflow) && *final(self) == *old(
                self,
            ),
    {
        let new_balance = match self.balance.checked_add(amount) {
            Some(b) => b,
            None => {
                return Err(ErrorCode::Overflow);
            },
        };
        if self.owner.is_zero() {
            self.owner = *signer;
        }
        self.balance = new_balance;
        Ok(())
    }

    /// Debit `amount` from this account on behalf of `signer`. Fails with
    /// `Unauthorized` when `signer` is not the recorded owner, regardless of
    /// amount; then with `InsufficientBalance` when `amount` exceeds the
    /// balance. The subtraction itself is underflow-checked as a defensive
    /// measure, and that check is proved never to fire. On any error nothing
    /// changes.
    pub fn withdraw(&mut self, signer: &Address, amount: u64) -> (r: Result<(), ErrorCode>)
        ensures
            r is Ok <==> (old(self).owner@ == signer@ && amount <= old(self).balance),
            r is Ok ==> *final(self) == (StakingAccount {
                owner: old(self).owner,
                balance: (old(self).balance - amount) as u64,
            }),
            old(self).owner@ != signer@ ==> r == Err::<(), ErrorCode>(ErrorCode::Unauthorized),
            old(self).owner@ == signer@ && amount > old(self).balance ==> r == Err::<(),
                ErrorCode,
            >(ErrorCode::InsufficientBalance),
            r != Err::<(), ErrorCode>(ErrorCode::Underflow),
            r is Err ==> *final(self) == *old(self),
    {
        if !self.owner.equals(signer) {
            return Err(ErrorCode::Unauthorized);
        }
        if amount > self.balance {
            return Err(ErrorCode::InsufficientBalance);
        }
        match self.balance.checked_sub(amount) {
            Some(b) => {
                self.balance = b;
                Ok(())
            },
            None => Err(ErrorCode::Underflow),
        }
    }
}

} // verus!
