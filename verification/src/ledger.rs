//! The ledger: a content-addressed table of vaults, each carrying its
//! staking accounts and the token quantity in its custodial holding account.
//! Deposit and withdraw are all-or-nothing transitions, and well-formedness —
//! including conservation of custody — is preserved by every operation.

use vstd::prelude::*;

use crate::addresses::Address;
use crate::addresses::derived_addr;
use crate::addresses::stake_address;
use crate::addresses::stake_derivation;
use crate::addresses::vault_address;
use crate::addresses::vault_derivation;
use crate::addresses::zero_address;
use crate::addresses::VaultAuthority;
use crate::errors::ErrorCode;
use crate::state::StakingAccount;
use crate::state::Vault;

verus! {

/// A staking account together with the derived address it lives at.
#[derive(Clone, Copy, Debug)]
pub struct StakeEntry {
    pub addr: Address,
    pub account: StakingAccount,
}

/// A vault record, its derived address and bump, its staking accounts, and
/// the token quantity currently in its custodial holding account.
#[derive(Clone, Debug)]
pub struct VaultRecord {
    pub addr: Address,
    pub bump: u8,
    pub vault: Vault,
    pub stakes: Vec<StakeEntry>,
    pub custodial: u64,
}

/// The whole ledger: one record per initialized vault, located by derived
/// address under a fixed program id.
#[derive(Clone, Debug)]
pub struct Bank {
    pub program_id: Address,
    pub vaults: Vec<VaultRecord>,
}

/// The total claim of a vault's staking accounts on its custody.
pub open spec fn sum_balances(s: Seq<StakeEntry>) -> int
    decreases s.len(),
{
    if s.len() == 0 {
        0
    } else {
        sum_balances(s.drop_last()) + s.last().account.balance
    }
}

/// Some staking account lives at `addr`.
pub open spec fn has_stake_at(stakes: Seq<StakeEntry>, addr: Seq<u8>) -> bool {
    exists|i: int| 0 <= i < stakes.len() && stakes[i].addr@ == addr
}

/// The index of the staking account at `addr`, when one exists.
pub open spec fn stake_index_spec(stakes: Seq<StakeEntry>, addr: Seq<u8>) -> int {
    choose|i: int| 0 <= i < stakes.len() && stakes[i].addr@ == addr
}

/// Some vault lives at `addr`.
pub open spec fn has_vault_at(vaults: Seq<VaultRecord>, addr: Seq<u8>) -> bool {
    exists|i: int| 0 <= i < vaults.len() && vaults[i].addr@ == addr
}

proof fn lemma_sum_nonneg(s: Seq<StakeEntry>)
    ensures
        sum_balances(s) >= 0,
    decreases s.len(),
{
    if s.len() > 0 {
        lemma_sum_nonneg(s.drop_last());
    }
}

proof fn lemma_sum_update(s: Seq<StakeEntry>, i: int, e: StakeEntry)
    requires
        0 <= i < s.len(),
    ensures
        sum_balances(s.update(i, e)) == sum_balances(s) - s[i].account.balance
            + e.account.balance,
    decreases s.len(),
{
    if i == s.len() - 1 {
        assert(s.update(i, e).drop_last() =~= s.drop_last());
        assert(s.update(i, e).last() == e);
    } else {
        assert(s.update(i, e).drop_last() =~= s.drop_last().update(i, e));
        assert(s.update(i, e).last() == s.last());
        lemma_sum_update(s.drop_last(), i, e);
    }
}

proof fn lemma_sum_push(s: Seq<StakeEntry>, e: StakeEntry)
    ensures
        sum_balances(s.push(e)) == sum_balances(s) + e.account.balance,
{
    assert(s.push(e).drop_last() =~= s);
    assert(s.push(e).last() == e);
}

proof fn lemma_sum_element_le(s: Seq<StakeEntry>, i: int)
    requires
        0 <= i < s.len(),
    ensures
        s[i].account.balance <= sum_balances(s),
    decreases s.len(),
{
    if i == s.len() - 1 {
        lemma_sum_nonneg(s.drop_last());
    } else {
        assert(s.drop_last()[i] == s[i]);
        lemma_sum_element_le(s.drop_last(), i);
    }
}

proof fn lemma_stake_index_unique(stakes: Seq<StakeEntry>, addr: Seq<u8>, i: int)
    requires
        forall|p: int, q: int|
            0 <= p < q < stakes.len() ==> stakes[p].addr@ != stakes[q].addr@,
        0 <= i < stakes.len(),
        stakes[i].addr@ == addr,
    ensures
        has_stake_at(stakes, addr),
        stake_index_spec(stakes, addr) == i,
{
    assert(has_stake_at(stakes, addr));
    let j = stake_index_spec(stakes, addr);
    assert(0 <= j < stakes.len() && stakes[j].addr@ == addr);
    if i < j {
        assert(stakes[i].addr@ != stakes[j].addr@);
    } else if j < i {
        assert(stakes[j].addr@ != stakes[i].addr@);
    }
}

/// What one deposit invocation does to a vault record and the depositor's
/// holding balance: either every listed change happens, or an error comes
/// back and nothing changes at all.
pub open spec fn deposit_outcome(
    v0: VaultRecord,
    v1: VaultRecord,
    signer: Address,
    amount: u64,
    h0: u64,
    h1: u64,
    program_id: Seq<u8>,
    r: Result<(), ErrorCode>,
) -> bool {
    &&& v1.addr == v0.addr
    &&& v1.bump == v0.bump
    &&& v1.vault == v0.vault
    &&& (r is Err ==> v1 == v0 && h1 == h0)
    &&& match derived_addr(stake_derivation(signer@, v0.addr@, program_id)) {
        None => r == Err::<(), ErrorCode>(ErrorCode::DerivationFailed),
        Some(sa) => if has_stake_at(v0.stakes@, sa) {
            let i = stake_index_spec(v0.stakes@, sa);
            let entry = v0.stakes@[i];
            if entry.account.balance + amount > u64::MAX {
                r == Err::<(), ErrorCode>(ErrorCode::Overflow)
            } else if h0 < amount {
                r == Err::<(), ErrorCode>(ErrorCode::TransferFailed)
            } else if v0.custodial + amount > u64::MAX {
                r == Err::<(), ErrorCode>(ErrorCode::TransferFailed)
            } else {
                &&& r is Ok
                &&& v1.stakes@ == v0.stakes@.update(
                    i,
                    (StakeEntry {
                        addr: entry.addr,
                        account: (StakingAccount {
                            owner: if entry.account.owner@ == zero_address() {
                                signer
                            } else {
                                entry.account.owner
                            },
                            balance: (entry.account.balance + amount) as u64,
                        }),
                    }),
                )
                &&& v1.custodial == v0.custodial + amount
                &&& h1 == h0 - amount
            }
        } else {
            if h0 < amount {
                r == Err::<(), ErrorCode>(ErrorCode::TransferFailed)
            } else if v0.custodial + amount > u64::MAX {
                r == Err::<(), ErrorCode>(ErrorCode::TransferFailed)
            } else {
                &&& r is Ok
                &&& v1.stakes@.len() == v0.stakes@.len() + 1
                &&& v1.stakes@.drop_last() == v0.stakes@
                &&& v1.stakes@.last().addr@ == sa
                &&& v1.stakes@.last().account.owner == signer
                &&& v1.stakes@.last().account.balance == amount
                &&& v1.custodial == v0.custodial + amount
                &&& h1 == h0 - amount
            }
        },
    }
}

/// What one withdraw invocation does to a vault record and the destination
/// holding balance: checks run in a fixed order — ownership first, then
/// balance sufficiency, then the transfer itself — and any error leaves
/// everything unchanged.
pub open spec fn withdraw_outcome(
    v0: VaultRecord,
    v1: VaultRecord,
    stake_acct: Address,
    signer: Address,
    amount: u64,
    h0: u64,
    h1: u64,
    r: Result<(), ErrorCode>,
) -> bool {
    &&& v1.addr == v0.addr
    &&& v1.bump == v0.bump
    &&& v1.vault == v0.vault
    &&& (r is Err ==> v1 == v0 && h1 == h0)
    &&& r != Err::<(), ErrorCode>(ErrorCode::Underflow)
    &&& if !has_stake_at(v0.stakes@, stake_acct@) {
        r == Err::<(), ErrorCode>(ErrorCode::AccountNotFound)
    } else {
        let i = stake_index_spec(v0.stakes@, stake_acct@);
        let entry = v0.stakes@[i];
        if entry.account.owner@ != signer@ {
            r == Err::<(), ErrorCode>(ErrorCode::Unauthorized)
        } else if amount > entry.account.balance {
            r == Err::<(), ErrorCode>(ErrorCode::InsufficientBalance)
        } else if h0 + amount > u64::MAX {
            r == Err::<(), ErrorCode>(ErrorCode::TransferFailed)
        } else {
            &&& r is Ok
            &&& v1.stakes@ == v0.stakes@.update(
                i,
                (StakeEntry {
                    addr: entry.addr,
                    account: (StakingAccount {
                        owner: entry.account.owner,
                        balance: (entry.account.balance - amount) as u64,
                    }),
                }),
            )
            &&& v1.custodial == v0.custodial - amount
            &&& h1 == h0 + amount
        }
    }
}

impl VaultRecord {
    /// Well-formedness under the program id that derives every address here:
    /// the record's address and bump come from its asset type; each staking
    /// account sits at the address derived from its owner and this vault;
    /// addresses are unique; and the balances sum to the custodial holding.
    pub open spec fn wf(self, program_id: Seq<u8>) -> bool {
        &&& vault_derivation(self.vault.token_mint@, program_id) == Some((self.addr@, self.bump))
        &&& forall|i: int|
            0 <= i < self.stakes@.len() ==> derived_addr(
                stake_derivation(#[trigger] self.stakes@[i].account.owner@, self.addr@, program_id),
            ) == Some(self.stakes@[i].addr@)
        &&& forall|p: int, q: int|
            0 <= p < q < self.stakes@.len() ==> self.stakes@[p].addr@ != self.stakes@[q].addr@
        &&& sum_balances(self.stakes@) == self.custodial
    }

    /// Locate the staking account at `addr`, if any.
    pub fn stake_index(&self, addr: &Address) -> (r: Option<usize>)
        ensures
            match r {
                Some(i) => i < self.stakes@.len() && self.stakes@[i as int].addr@ == addr@,
                None => !has_stake_at(self.stakes@, addr@),
            },
    {
        let mut i: usize = 0;
        while i < self.stakes.len()
            invariant
                0 <= i <= self.stakes@.len(),
                forall|k: int| 0 <= k < i ==> self.stakes@[k].addr@ != addr@,
            decreases self.stakes@.len() - i,
        {
            if self.stakes[i].addr.equals(addr) {
                return Some(i);
            }
            i += 1;
        }
        None
    }

    /// Deposit `amount` for `signer` into this vault: locate or create the
    /// staking account at the derived address, credit it with an
    /// overflow-checked addition, and move the tokens from the depositor's
    /// holding balance into custody — or fail and change nothing. An amount
    /// of zero is allowed, deliberately: it moves nothing and lazily creates
    /// a zero-balance staking account when none exists yet.
    pub fn deposit(
        &mut self,
        signer: &Address,
        amount: u64,
        user_holding: &mut u64,
        program_id: &Address,
    ) -> (r: Result<(), ErrorCode>)
        requires
            old(self).wf(program_id@),
        ensures
            final(self).wf(program_id@),
            deposit_outcome(
                *old(self),
                *final(self),
                *signer,
                amount,
                *old(user_holding),
                *final(user_holding),
                program_id@,
                r,
            ),
    {
        let self_addr = self.addr;
        let (sa, _stake_bump) = match stake_address(signer, &self_addr, program_id) {
            Some(p) => p,
            None => {
                return Err(ErrorCode::DerivationFailed);
            },
        };
        match self.stake_index(&sa) {
            Some(i) => {
                proof {
                    lemma_stake_index_unique(self.stakes@, sa@, i as int);
                }
                let entry = self.stakes[i];
                if entry.account.balance.checked_add(amount).is_none() {
                    return Err(ErrorCode::Overflow);
                }
                if *user_holding < amount {
                    return Err(ErrorCode::TransferFailed);
                }
                let new_custodial = match self.custodial.checked_add(amount) {
                    Some(c) => c,
                    None => {
                        return Err(ErrorCode::TransferFailed);
                    },
                };
                let mut new_entry = entry;
                match new_entry.account.deposit(signer, amount) {
                    Ok(()) => {},
                    Err(e) => {
                        return Err(e);
                    },
                }
                proof {
                    lemma_sum_update(self.stakes@, i as int, new_entry);
                }
                self.stakes[i] = new_entry;
                self.custodial = new_custodial;
                *user_holding = *user_holding - amount;
                Ok(())
            },
            None => {
                if *user_holding < amount {
                    return Err(ErrorCode::TransferFailed);
                }
                let new_custodial = match self.custodial.checked_add(amount) {
                    Some(c) => c,
                    None => {
                        return Err(ErrorCode::TransferFailed);
                    },
                };
                let mut account = StakingAccount::new();
                match account.deposit(signer, amount) {
                    Ok(()) => {},
                    Err(e) => {
                        return Err(e);
                    },
                }
                let entry = StakeEntry { addr: sa, account };
                proof {
                    lemma_sum_push(self.stakes@, entry);
                }
                self.stakes.push(entry);
                self.custodial = new_custodial;
                *user_holding = *user_holding - amount;
                proof {
                    assert(self.stakes@.drop_last() =~= old(self).stakes@);
                }
                Ok(())
            },
        }
    }

    /// Withdraw `amount` from the staking account at `stake_acct` on behalf
    /// of `signer`: the signer must be the recorded owner and the balance
    /// must suffice; then the balance is debited with an underflow-checked
    /// subtraction and the tokens move from custody to the destination
    /// holding balance — or the call fails and changes nothing.
    pub fn withdraw(
        &mut self,
        stake_acct: &Address,
        signer: &Address,
        amount: u64,
        dest_holding: &mut u64,
        program_id: &Address,
    ) -> (r: Result<(), ErrorCode>)
        requires
            old(self).wf(program_id@),
        ensures
            final(self).wf(program_id@),
            withdraw_outcome(
                *old(self),
                *final(self),
                *stake_acct,
                *signer,
                amount,
                *old(dest_holding),
                *final(dest_holding),
                r,
            ),
    {
        let i = match self.stake_index(stake_acct) {
            Some(i) => i,
            None => {
                return Err(ErrorCode::AccountNotFound);
            },
        };
        proof {
            lemma_stake_index_unique(self.stakes@, stake_acct@, i as int);
        }
        let entry = self.stakes[i];
        if !entry.account.owner.equals(signer) {
            return Err(ErrorCode::Unauthorized);
        }
        if amount > entry.account.balance {
            return Err(ErrorCode::InsufficientBalance);
        }
        if dest_holding.checked_add(amount).is_none() {
            return Err(ErrorCode::TransferFailed);
        }
        let mut new_entry = entry;
        match new_entry.account.withdraw(signer, amount) {
            Ok(()) => {},
            Err(e) => {
                return Err(e);
            },
        }
        proof {
            lemma_sum_element_le(self.stakes@, i as int);
            lemma_sum_update(self.stakes@, i as int, new_entry);
        }
        self.stakes[i] = new_entry;
        self.custodial = self.custodial - amount;
        *dest_holding = *dest_holding + amount;
        Ok(())
    }
}

impl Bank {
    /// Well-formedness: every vault record is well formed under the bank's
    /// program id, and no two vaults share an address.
    pub open spec fn wf(self) -> bool {
        &&& forall|i: int|
            0 <= i < self.vaults@.len() ==> (#[trigger] self.vaults@[i]).wf(self.program_id@)
        &&& forall|p: int, q: int|
            0 <= p < q < self.vaults@.len() ==> self.vaults@[p].addr@ != self.vaults@[q].addr@
    }

    /// An empty ledger under `program_id`.
    pub fn new(program_id: &Address) -> (b: Bank)
        ensures
            b.wf(),
            b.program_id == *program_id,
            b.vaults@.len() == 0,
    {
        Bank { program_id: *program_id, vaults: Vec::new() }
    }

    /// Locate the vault at `addr`, if any.
    pub fn find_vault(&self, addr: &Address) -> (r: Option<usize>)
        ensures
            match r {
                Some(i) => i < self.vaults@.len() && self.vaults@[i as int].addr@ == addr@,
                None => !has_vault_at(self.vaults@, addr@),
            },
    {
        let mut i: usize = 0;
        while i < self.vaults.len()
            invariant
                0 <= i <= self.vaults@.len(),
                forall|k: int| 0 <= k < i ==> self.vaults@[k].addr@ != addr@,
            decreases self.vaults@.len() - i,
        {
            if self.vaults[i].addr.equals(addr) {
                return Some(i);
            }
            i += 1;
        }
        None
    }

    /// Create the vault for `token_mint`: derive its address, reject a
    /// second initialization of the same address, and otherwise append a
    /// fresh record with an empty ledger and empty custody.
    pub fn initialize(&mut self, token_mint: &Address) -> (r: Result<Address, ErrorCode>)
        requires
            old(self).wf(),
        ensures
            final(self).wf(),
            final(self).program_id == old(self).program_id,
            r is Err ==> *final(self) == *old(self),
            ({
                let pid = old(self).program_id@;
                match vault_derivation(token_mint@, pid) {
                    None => r == Err::<Address, ErrorCode>(ErrorCode::DerivationFailed),
                    Some(p) => if has_vault_at(old(self).vaults@, p.0) {
                        r == Err::<Address, ErrorCode>(ErrorCode::AlreadyInitialized)
                    } else {
                        &&& r matches Ok(a) && a@ == p.0
                        &&& final(self).vaults@.len() == old(self).vaults@.len() + 1
                        &&& final(self).vaults@.drop_last() == old(self).vaults@
                        &&& final(self).vaults@.last().addr@ == p.0
                        &&& final(self).vaults@.last().bump == p.1
                        &&& final(self).vaults@.last().vault.token_mint == *token_mint
                        &&& final(self).vaults@.last().stakes@ == Seq::<StakeEntry>::empty()
                        &&& final(self).vaults@.last().custodial == 0
                    },
                }
            }),
    {
        let pid = self.program_id;
        let (addr, bump) = match vault_address(token_mint, &pid) {
            Some(p) => p,
            None => {
                return Err(ErrorCode::DerivationFailed);
            },
        };
        if self.find_vault(&addr).is_some() {
            return Err(ErrorCode::AlreadyInitialized);
        }
        let record = VaultRecord {
            addr,
            bump,
            vault: Vault::initialize(token_mint),
            stakes: Vec::new(),
            custodial: 0,
        };
        self.vaults.push(record);
        proof {
            assert(self.vaults@.drop_last() =~= old(self).vaults@);
        }
        Ok(addr)
    }

    /// Deposit into the vault at `vault_index`; the host hands the resolved
    /// record to the invocation, as it does for every entry point.
    pub fn deposit(
        &mut self,
        vault_index: usize,
        signer: &Address,
        amount: u64,
        user_holding: &mut u64,
    ) -> (r: Result<(), ErrorCode>)
        requires
            old(self).wf(),
            vault_index < old(self).vaults@.len(),
        ensures
            final(self).wf(),
            final(self).program_id == old(self).program_id,
            final(self).vaults@.len() == old(self).vaults@.len(),
            forall|j: int|
                0 <= j < final(self).vaults@.len() && j != vault_index ==> final(self).vaults@[j]
                    == old(self).vaults@[j],
            deposit_outcome(
                old(self).vaults@[vault_index as int],
                final(self).vaults@[vault_index as int],
                *signer,
                amount,
                *old(user_holding),
                *final(user_holding),
                old(self).program_id@,
                r,
            ),
    {
        let pid = self.program_id;
        proof {
            assert(old(self).vaults@[vault_index as int].wf(pid@));
        }
        let vr = &mut self.vaults[vault_index];
        let r = vr.deposit(signer, amount, user_holding, &pid);
        r
    }

    /// Withdraw from the staking account at `stake_acct` in the vault at
    /// `vault_index`, on behalf of `signer`, into `dest_holding`.
    pub fn withdraw(
        &mut self,
        vault_index: usize,
        stake_acct: &Address,
        signer: &Address,
        amount: u64,
        dest_holding: &mut u64,
    ) -> (r: Result<(), ErrorCode>)
        requires
            old(self).wf(),
            vault_index < old(self).vaults@.len(),
        ensures
            final(self).wf(),
            final(self).program_id == old(self).program_id,
            final(self).vaults@.len() == old(self).vaults@.len(),
            forall|j: int|
                0 <= j < final(self).vaults@.len() && j != vault_index ==> final(self).vaults@[j]
                    == old(self).vaults@[j],
            withdraw_outcome(
                old(self).vaults@[vault_index as int],
                final(self).vaults@[vault_index as int],
                *stake_acct,
                *signer,
                amount,
                *old(dest_holding),
                *final(dest_holding),
                r,
            ),
    {
        let pid = self.program_id;
        proof {
            assert(old(self).vaults@[vault_index as int].wf(pid@));
        }
        let vr = &mut self.vaults[vault_index];
        let r = vr.withdraw(stake_acct, signer, amount, dest_holding, &pid);
        r
    }
}

impl Bank {
    /// Hand out the authority proof for the vault at `vault_index`: the
    /// derivation inputs that let the keyless vault address authorize its
    /// own outgoing transfers, tied by derivation to that vault's address.
    pub fn vault_authority(&self, vault_index: usize) -> (r: VaultAuthority)
        requires
            self.wf(),
            vault_index < self.vaults@.len(),
        ensures
            r.token_mint_spec() == self.vaults@[vault_index as int].vault.token_mint@,
            r.bump_spec() == self.vaults@[vault_index as int].bump,
            vault_derivation(r.token_mint_spec(), self.program_id@) == Some(
                (self.vaults@[vault_index as int].addr@, r.bump_spec()),
            ),
    {
        let vr = &self.vaults[vault_index];
        VaultAuthority::from_parts(&vr.vault.token_mint, vr.bump)
    }
}

/// Conservation of custody: in any well-formed ledger — and every operation
/// here both requires and re-establishes well-formedness, so after any
/// sequence of successful deposits and withdrawals — the balances of a
/// vault's staking accounts sum to exactly the token quantity held in that
/// vault's custodial holding account.
pub proof fn lemma_conservation(b: Bank, i: int)
    requires
        b.wf(),
        0 <= i < b.vaults@.len(),
    ensures
        sum_balances(b.vaults@[i].stakes@) == b.vaults@[i].custodial,
{
}

} // verus!
