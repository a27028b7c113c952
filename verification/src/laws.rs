//! The guarantees the ledger lives by, stated on their own: whoever holds a
//! deposit or withdraw outcome — and every such operation ensures one —
//! holds these consequences of it.

use vstd::prelude::*;

use crate::addresses::Address;
use crate::addresses::derived_addr;
use crate::addresses::stake_derivation;
use crate::errors::ErrorCode;
use crate::ledger::VaultRecord;
use crate::ledger::deposit_outcome;
use crate::ledger::has_stake_at;
use crate::ledger::stake_index_spec;
use crate::ledger::withdraw_outcome;

verus! {

/// Ownership isolation: a withdrawal requested by an identity other than the
/// recorded owner of the staking account always fails with `Unauthorized`
/// and mutates nothing, regardless of the amount.
pub proof fn lemma_ownership_isolation(
    v0: VaultRecord,
    v1: VaultRecord,
    stake_acct: Address,
    signer: Address,
    amount: u64,
    h0: u64,
    h1: u64,
    r: Result<(), ErrorCode>,
)
    requires
        withdraw_outcome(v0, v1, stake_acct, signer, amount, h0, h1, r),
        has_stake_at(v0.stakes@, stake_acct@),
        v0.stakes@[stake_index_spec(v0.stakes@, stake_acct@)].account.owner@ != signer@,
    ensures
        r == Err::<(), ErrorCode>(ErrorCode::Unauthorized),
        v1 == v0,
        h1 == h0,
{
}

/// No negative balance: a withdrawal of more than the staking account holds
/// always fails with `InsufficientBalance` and mutates nothing; and no
/// withdrawal outcome ever reports `Underflow`.
pub proof fn lemma_no_negative_balance(
    v0: VaultRecord,
    v1: VaultRecord,
    stake_acct: Address,
    signer: Address,
    amount: u64,
    h0: u64,
    h1: u64,
    r: Result<(), ErrorCode>,
)
    requires
        withdraw_outcome(v0, v1, stake_acct, signer, amount, h0, h1, r),
        has_stake_at(v0.stakes@, stake_acct@),
        v0.stakes@[stake_index_spec(v0.stakes@, stake_acct@)].account.owner@ == signer@,
        amount > v0.stakes@[stake_index_spec(v0.stakes@, stake_acct@)].account.balance,
    ensures
        r == Err::<(), ErrorCode>(ErrorCode::InsufficientBalance),
        r != Err::<(), ErrorCode>(ErrorCode::Underflow),
        v1 == v0,
        h1 == h0,
{
}

/// Overflow guard: a deposit that would push the staking balance past the
/// maximum representable value fails with `Overflow` and leaves the balance
/// — and everything else — unchanged.
pub proof fn lemma_overflow_guard(
    v0: VaultRecord,
    v1: VaultRecord,
    signer: Address,
    amount: u64,
    h0: u64,
    h1: u64,
    program_id: Seq<u8>,
    sa: Seq<u8>,
    r: Result<(), ErrorCode>,
)
    requires
        deposit_outcome(v0, v1, signer, amount, h0, h1, program_id, r),
        derived_addr(stake_derivation(signer@, v0.addr@, program_id)) == Some(sa),
        has_stake_at(v0.stakes@, sa),
        v0.stakes@[stake_index_spec(v0.stakes@, sa)].account.balance + amount > u64::MAX,
    ensures
        r == Err::<(), ErrorCode>(ErrorCode::Overflow),
        v1 == v0,
        h1 == h0,
{
}

} // verus!
