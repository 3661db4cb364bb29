//! The persistent records of the vault and the values they hold.
//!
//! Identities, digests and addresses are all 32-byte values, written here as
//! plain `[u8; 32]` arrays; the all-zero value stands for "unset", as it does
//! in the host environment that supplies the records.

use vstd::prelude::*;

verus! {

/// Upper bound on the number of stored assets one vault record may hold.
pub const MAX_ASSETS: usize = 10;

/// Fee charged, in base units of the fee ledger, for one deposit.
pub const HIDE_FEE: u64 = 5_000_000;

/// Fee charged, in base units of the fee ledger, for one unlock authorization.
pub const UNLOCK_FEE: u64 = 7_000_000;

/// One asset deposited into the vault: a reference to the external container
/// that holds it, the asset's class, a fungible/non-fungible discriminator
/// and the recorded quantity.
#[derive(Clone, Copy, PartialEq, Eq, Debug)]
pub struct StoredAsset {
    pub mint: [u8; 32],
    pub asset_account: [u8; 32],
    pub asset_type: u8,
    pub amount: u64,
}

/// The persistent state of one vault instance.
#[derive(Clone, PartialEq, Eq, Debug)]
pub struct VaultPda {
    pub owner: [u8; 32],
    pub assets: Vec<StoredAsset>,
    pub password_hash: [u8; 32],
    pub is_claimed: bool,
    pub claimer: [u8; 32],
}

/// The shared fee ledger record: a running total of collected fees and a set
/// of excluded identities that no transition currently consults.
#[derive(Clone, PartialEq, Eq, Debug)]
pub struct FeeAccount {
    pub total_fees: u64,
    pub blacklisted_accounts: Vec<[u8; 32]>,
}

/// An externally-owned asset container, as the vault logic sees it: its
/// address, the class of asset it holds, the identity that currently has
/// exclusive authority over it, and its balance.
#[derive(Clone, Copy, PartialEq, Eq, Debug)]
pub struct AssetContainer {
    pub id: [u8; 32],
    pub mint: [u8; 32],
    pub authority: [u8; 32],
    pub amount: u64,
}

/// Why an operation was refused. Every failure leaves all records unchanged.
#[derive(Clone, Copy, PartialEq, Eq, Debug)]
pub enum ErrorCode {
    InvalidPassword,
    AlreadyClaimed,
    InvalidClaimer,
    MissingAccount,
    InvalidVaultPda,
    CapacityExceeded,
    InsufficientFunds,
}

/// The 32-byte all-zero value: an unset identity.
pub open spec fn zero_id() -> Seq<u8> {
    Seq::new(32, |i: int| 0u8)
}

/// A vault record counts as initialized once its owner is set: the first
/// successful deposit writes a non-zero owner identity.
pub open spec fn vault_initialized(v: VaultPda) -> bool {
    v.owner@ != zero_id()
}

/// Well-formedness of a vault record: the asset list never outgrows its
/// fixed capacity.
pub open spec fn vault_wf(v: VaultPda) -> bool {
    v.assets@.len() <= MAX_ASSETS
}

/// The all-zero identity as an executable value.
pub fn zero_pubkey() -> (r: [u8; 32])
    ensures
        r@ == zero_id(),
{
    let r = [0u8; 32];
    proof {
        assert(r@ =~= zero_id());
    }
    r
}

/// Byte-for-byte equality of two 32-byte values.
pub fn bytes32_eq(a: &[u8; 32], b: &[u8; 32]) -> (r: bool)
    ensures
        r == (a@ == b@),
{
    let mut i: usize = 0;
    while i < 32
        invariant
            0 <= i <= 32,
            forall|k: int| 0 <= k < i ==> a@[k] == b@[k],
        decreases 32 - i,
    {
        if a[i] != b[i] {
            return false;
        }
        i += 1;
    }
    proof {
        assert(a@ =~= b@);
    }
    true
}

} // verus!
