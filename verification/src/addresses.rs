//! Deterministic address derivation: the sole mechanism for locating vault
//! and staking-account records and for proving a vault's authority over its
//! custodial holding account without key material.

use vstd::prelude::*;
use anchor_lang::prelude::Pubkey;

verus! {

/// A 32-byte account address, viewed as the sequence of its bytes.
#[derive(Clone, Copy, Debug, PartialEq, Eq)]
pub struct Address {
    pub bytes: [u8; 32],
}

impl View for Address {
    type V = Seq<u8>;

    open spec fn view(&self) -> Seq<u8> {
        self.bytes@
    }
}

/// The all-zero address, the state of an `owner` field before any writer set it.
pub open spec fn zero_address() -> Seq<u8> {
    Seq::new(32, |i: int| 0u8)
}

impl Address {
    pub fn new(bytes: [u8; 32]) -> (r: Address)
        ensures
            r@ == bytes@,
    {
        Address { bytes }
    }

    pub fn zero() -> (r: Address)
        ensures
            r@ == zero_address(),
    {
        let a = Address { bytes: [0u8; 32] };
        proof {
            assert(a@ =~= zero_address());
        }
        a
    }

    pub fn equals(&self, other: &Address) -> (r: bool)
        ensures
            r <==> self@ == other@,
    {
        let mut i: usize = 0;
        while i < 32
            invariant
                0 <= i <= 32,
                forall|k: int| 0 <= k < i ==> self.bytes@[k] == other.bytes@[k],
            decreases 32 - i,
        {
            if self.bytes[i] != other.bytes[i] {
                return false;
            }
            i += 1;
        }
        proof {
            assert(self@ =~= other@);
        }
        true
    }

    pub fn is_zero(&self) -> (r: bool)
        ensures
            r <==> self@ == zero_address(),
    {
        let mut i: usize = 0;
        while i < 32
            invariant
                0 <= i <= 32,
                forall|k: int| 0 <= k < i ==> self.bytes@[k] == 0u8,
            decreases 32 - i,
        {
            if self.bytes[i] != 0 {
                return false;
            }
            i += 1;
        }
        proof {
            assert(self@ =~= zero_address());
        }
        true
    }
}

/// What `Pubkey::try_find_program_address` returns for given seeds and
/// program id: the derived address and its bump, or nothing when no bump
/// in the search space yields a valid address or the seed list itself is
/// out of shape (too many seeds, or one longer than a seed may be).
pub uninterp spec fn find_derived(seeds: Seq<Seq<u8>>, program_id: Seq<u8>) -> Option<(Seq<u8>, u8)>;

/// Relies on `Pubkey::try_find_program_address`, re-exported by
/// `anchor_lang`: a pure computation, so the derived address and bump
/// depend on the seeds and the program id alone.
#[verifier::external_body]
fn derive_address(seeds: &Vec<Vec<u8>>, program_id: &Address) -> (r: Option<(Address, u8)>)
    ensures
        match r {
            Some(p) => find_derived(seeds@.map_values(|s: Vec<u8>| s@), program_id@)
                == Some((p.0@, p.1)),
            None => find_derived(seeds@.map_values(|s: Vec<u8>| s@), program_id@) is None,
        },
{
    let seed_refs: Vec<&[u8]> = seeds.iter().map(|s| s.as_slice()).collect();
    let pid = Pubkey::new_from_array(program_id.bytes);
    match Pubkey::try_find_program_address(&seed_refs, &pid) {
        Some((pk, bump)) => Some((Address { bytes: pk.to_bytes() }, bump)),
        None => None,
    }
}

/// The fixed tag `"vault"` that prefixes every vault's seed list.
pub open spec fn vault_tag() -> Seq<u8> {
    seq![118u8, 97u8, 117u8, 108u8, 116u8]
}

/// The fixed tag `"stake"` that prefixes every staking account's seed list.
pub open spec fn stake_tag() -> Seq<u8> {
    seq![115u8, 116u8, 97u8, 107u8, 101u8]
}

/// Seed list that locates the vault for an asset type.
pub open spec fn vault_seeds(token_mint: Seq<u8>) -> Seq<Seq<u8>> {
    seq![vault_tag(), token_mint]
}

/// Seed list that locates the staking account of `owner` against `vault`.
pub open spec fn stake_seeds(owner: Seq<u8>, vault: Seq<u8>) -> Seq<Seq<u8>> {
    seq![stake_tag(), owner, vault]
}

/// Derivation outcome for a vault address.
pub open spec fn vault_derivation(token_mint: Seq<u8>, program_id: Seq<u8>) -> Option<(Seq<u8>, u8)> {
    find_derived(vault_seeds(token_mint), program_id)
}

/// Derivation outcome for a staking-account address.
pub open spec fn stake_derivation(owner: Seq<u8>, vault: Seq<u8>, program_id: Seq<u8>) -> Option<(Seq<u8>, u8)> {
    find_derived(stake_seeds(owner, vault), program_id)
}

/// The address part of a derivation outcome, when one exists.
pub open spec fn derived_addr(d: Option<(Seq<u8>, u8)>) -> Option<Seq<u8>> {
    match d {
        Some(p) => Some(p.0),
        None => None,
    }
}

fn address_to_vec(a: &Address) -> (r: Vec<u8>)
    ensures
        r@ == a@,
{
    let mut v: Vec<u8> = Vec::new();
    let mut i: usize = 0;
    while i < 32
        invariant
            0 <= i <= 32,
            v@ =~= a@.subrange(0, i as int),
        decreases 32 - i,
    {
        v.push(a.bytes[i]);
        i += 1;
    }
    proof {
        assert(v@ =~= a@);
    }
    v
}

fn vault_tag_vec() -> (r: Vec<u8>)
    ensures
        r@ == vault_tag(),
{
    let mut t: Vec<u8> = Vec::new();
    t.push(118);
    t.push(97);
    t.push(117);
    t.push(108);
    t.push(116);
    proof {
        assert(t@ =~= vault_tag());
    }
    t
}

fn stake_tag_vec() -> (r: Vec<u8>)
    ensures
        r@ == stake_tag(),
{
    let mut t: Vec<u8> = Vec::new();
    t.push(115);
    t.push(116);
    t.push(97);
    t.push(107);
    t.push(101);
    proof {
        assert(t@ =~= stake_tag());
    }
    t
}

/// Derive the address of the vault that custodies `token_mint`, together
/// with its bump. Deterministic: the result is a function of the seeds and
/// the program id alone.
pub fn vault_address(token_mint: &Address, program_id: &Address) -> (r: Option<(Address, u8)>)
    ensures
        match r {
            Some(p) => vault_derivation(token_mint@, program_id@) == Some((p.0@, p.1)),
            None => vault_derivation(token_mint@, program_id@) is None,
        },
{
    let mut seeds: Vec<Vec<u8>> = Vec::new();
    seeds.push(vault_tag_vec());
    seeds.push(address_to_vec(token_mint));
    proof {
        assert(seeds@.map_values(|s: Vec<u8>| s@) =~= vault_seeds(token_mint@));
    }
    derive_address(&seeds, program_id)
}

/// Derive the address of the staking account of `owner` against the vault
/// at `vault`, together with its bump. Deterministic in the same way.
pub fn stake_address(owner: &Address, vault: &Address, program_id: &Address) -> (r: Option<(Address, u8)>)
    ensures
        match r {
            Some(p) => stake_derivation(owner@, vault@, program_id@) == Some((p.0@, p.1)),
            None => stake_derivation(owner@, vault@, program_id@) is None,
        },
{
    let mut seeds: Vec<Vec<u8>> = Vec::new();
    seeds.push(stake_tag_vec());
    seeds.push(address_to_vec(owner));
    seeds.push(address_to_vec(vault));
    proof {
        assert(seeds@.map_values(|s: Vec<u8>| s@) =~= stake_seeds(owner@, vault@));
    }
    derive_address(&seeds, program_id)
}

/// Seed list, bump included, with which a vault authorizes its own outgoing
/// transfers: `["vault", token_mint, [bump]]`.
pub open spec fn vault_signer_seeds(token_mint: Seq<u8>, bump: u8) -> Seq<Seq<u8>> {
    vault_seeds(token_mint).push(seq![bump])
}

/// Proof of a vault's authority over its custodial holding account: the
/// derivation inputs, bump included, that reproduce the vault's keyless
/// address. Only the ledger constructs one, from a record it knows to be
/// well formed; callers cannot forge one for an arbitrary address.
pub struct VaultAuthority {
    token_mint: Address,
    bump: u8,
}

impl VaultAuthority {
    /// The asset type whose vault this authority speaks for.
    pub closed spec fn token_mint_spec(self) -> Seq<u8> {
        self.token_mint@
    }

    /// The bump that completes the vault's derivation.
    pub closed spec fn bump_spec(self) -> u8 {
        self.bump
    }

    pub(crate) fn from_parts(token_mint: &Address, bump: u8) -> (r: VaultAuthority)
        ensures
            r.token_mint_spec() == token_mint@,
            r.bump_spec() == bump,
    {
        VaultAuthority { token_mint: *token_mint, bump }
    }

    /// The bump, for handing to the external transfer service.
    pub fn bump(&self) -> (r: u8)
        ensures
            r == self.bump_spec(),
    {
        self.bump
    }

    /// The full signer seed list the vault presents in place of a signature.
    pub fn signer_seeds(&self) -> (r: Vec<Vec<u8>>)
        ensures
            r@.map_values(|s: Vec<u8>| s@) == vault_signer_seeds(
                self.token_mint_spec(),
                self.bump_spec(),
            ),
    {
        let mut seeds: Vec<Vec<u8>> = Vec::new();
        seeds.push(vault_tag_vec());
        seeds.push(address_to_vec(&self.token_mint));
        let mut bump_seed: Vec<u8> = Vec::new();
        bump_seed.push(self.bump);
        proof {
            assert(bump_seed@ =~= seq![self.bump]);
        }
        seeds.push(bump_seed);
        proof {
            assert(seeds@.map_values(|s: Vec<u8>| s@) =~= vault_signer_seeds(
                self.token_mint@,
                self.bump,
            ));
        }
        seeds
    }
}

/// Deriving twice from the same seeds yields the identical address and bump:
/// the derivation outcome is a function of its inputs, so any two results
/// reported for the same seed list and program id coincide.
pub proof fn lemma_derivation_deterministic(
    seeds: Seq<Seq<u8>>,
    program_id: Seq<u8>,
    r1: Option<(Seq<u8>, u8)>,
    r2: Option<(Seq<u8>, u8)>,
)
    requires
        r1 == find_derived(seeds, program_id),
        r2 == find_derived(seeds, program_id),
    ensures
        r1 == r2,
{
}

} // verus!
