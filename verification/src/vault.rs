//! The vault lifecycle controller: deposit, unlock authorization, and claim.
//!
//! Each operation is a single atomic state transition over the records it is
//! handed: it either returns `Ok(())` with every effect applied, or an
//! `ErrorCode` with every record exactly as it was. The outcome of each
//! operation is fixed by a spec-level function of the starting state, so the
//! precedence among the failure conditions is part of the contract.

use vstd::prelude::*;

use crate::digest::sha256_digest;
use crate::digest::sha256_of;
use crate::pda::create_pda_of;
use crate::pda::derive_vault_address;
use crate::pda::pda_matches;
use crate::pda::vault_tag;
use crate::pda::vault_tag_spec;
use crate::pda::verify_vault_address;
use crate::records::bytes32_eq;
use crate::records::vault_initialized;
use crate::records::vault_wf;
use crate::records::zero_id;
use crate::records::zero_pubkey;
use crate::records::AssetContainer;
use crate::records::ErrorCode;
use crate::records::FeeAccount;
use crate::records::StoredAsset;
use crate::records::VaultPda;
use crate::records::HIDE_FEE;
use crate::records::MAX_ASSETS;
use crate::records::UNLOCK_FEE;

verus! {

/// What one deposit returns, as a function of the starting state. The checks
/// run in this order: derived-address verification, fee funding, fingerprint
/// match (only an already-initialized record can mismatch), terminality,
/// capacity.
pub open spec fn deposit_outcome(
    vault: VaultPda,
    vault_address: Seq<u8>,
    program_id: Seq<u8>,
    fingerprint: Seq<u8>,
    payer_balance: u64,
) -> Result<(), ErrorCode> {
    if !pda_matches(vault_address, fingerprint, program_id) {
        Err(ErrorCode::InvalidVaultPda)
    } else if payer_balance < HIDE_FEE {
        Err(ErrorCode::InsufficientFunds)
    } else if vault_initialized(vault) && vault.password_hash@ != fingerprint {
        Err(ErrorCode::InvalidPassword)
    } else if vault_initialized(vault) && vault.is_claimed {
        Err(ErrorCode::AlreadyClaimed)
    } else if vault.assets@.len() >= MAX_ASSETS {
        Err(ErrorCode::CapacityExceeded)
    } else {
        Ok(())
    }
}

/// What one unlock authorization returns, as a function of the starting
/// state. The checks run in this order: passphrase digest match,
/// terminality, fee funding.
pub open spec fn unlock_outcome(vault: VaultPda, password: Seq<u8>, payer_balance: u64) -> Result<
    (),
    ErrorCode,
> {
    if vault.password_hash@ != sha256_of(password) {
        Err(ErrorCode::InvalidPassword)
    } else if vault.is_claimed {
        Err(ErrorCode::AlreadyClaimed)
    } else if payer_balance < UNLOCK_FEE {
        Err(ErrorCode::InsufficientFunds)
    } else {
        Ok(())
    }
}

/// Some container in the sequence has the given address.
pub open spec fn has_container(cs: Seq<AssetContainer>, id: Seq<u8>) -> bool {
    exists|j: int| 0 <= j < cs.len() && cs[j].id@ == id
}

/// Position `j` holds the first container in the sequence with the given
/// address: the one a claim pays out from.
pub open spec fn is_first_match(cs: Seq<AssetContainer>, id: Seq<u8>, j: int) -> bool {
    &&& 0 <= j < cs.len()
    &&& cs[j].id@ == id
    &&& forall|i: int| 0 <= i < j ==> cs[i].id@ != id
}

/// Position `j` is paid out by one of the first `n` stored assets.
pub open spec fn claim_target_upto(
    cs: Seq<AssetContainer>,
    assets: Seq<StoredAsset>,
    n: int,
    j: int,
) -> bool {
    exists|k: int| 0 <= k < n && is_first_match(cs, assets[k].asset_account@, j)
}

/// Position `j` is paid out by some stored asset: on a successful claim
/// exactly these containers change authority.
pub open spec fn claim_target(cs: Seq<AssetContainer>, assets: Seq<StoredAsset>, j: int) -> bool {
    claim_target_upto(cs, assets, assets.len() as int, j)
}

/// Every stored asset has a supplied container with its recorded address.
pub open spec fn all_assets_covered(cs: Seq<AssetContainer>, assets: Seq<StoredAsset>) -> bool {
    forall|k: int| 0 <= k < assets.len() ==> has_container(cs, assets[k].asset_account@)
}

/// What one claim returns, as a function of the starting state. The checks
/// run in this order: strict derived-address re-verification with the
/// supplied bump, terminality, claimer identity, coverage of every stored
/// asset by the supplied containers.
pub open spec fn claim_outcome(
    vault: VaultPda,
    vault_address: Seq<u8>,
    program_id: Seq<u8>,
    bump: u8,
    claimer: Seq<u8>,
    containers: Seq<AssetContainer>,
) -> Result<(), ErrorCode> {
    if create_pda_of(vault_tag_spec(), vault.password_hash@, bump, program_id) != Some(
        vault_address,
    ) {
        Err(ErrorCode::InvalidVaultPda)
    } else if vault.is_claimed {
        Err(ErrorCode::AlreadyClaimed)
    } else if claimer != vault.claimer@ {
        Err(ErrorCode::InvalidClaimer)
    } else if !all_assets_covered(containers, vault.assets@) {
        Err(ErrorCode::MissingAccount)
    } else {
        Ok(())
    }
}

/// Two first matches for the same address are the same position.
proof fn lemma_first_match_unique(cs: Seq<AssetContainer>, id: Seq<u8>, j1: int, j2: int)
    requires
        is_first_match(cs, id, j1),
        is_first_match(cs, id, j2),
    ensures
        j1 == j2,
{
    if j1 < j2 {
        assert(cs[j1].id@ != id);
    }
    if j2 < j1 {
        assert(cs[j2].id@ != id);
    }
}

/// Find the first supplied container holding the given address.
fn find_container(containers: &Vec<AssetContainer>, id: &[u8; 32]) -> (r: Option<usize>)
    ensures
        match r {
            Some(j) => is_first_match(containers@, id@, j as int),
            None => !has_container(containers@, id@),
        },
{
    let mut j: usize = 0;
    while j < containers.len()
        invariant
            0 <= j <= containers@.len(),
            forall|i: int| 0 <= i < j ==> containers@[i].id@ != id@,
        decreases containers@.len() - j,
    {
        if bytes32_eq(&containers[j].id, id) {
            return Some(j);
        }
        j += 1;
    }
    None
}

/// Deposit: hide one asset in the vault addressed by `fingerprint`.
///
/// On a fresh record (all-zero owner) the caller becomes the owner and the
/// supplied fingerprint is fixed forever; on an initialized record the
/// supplied fingerprint must equal the stored one. On success the deposit
/// fee moves from the caller's balance into the fee ledger, authority over
/// the supplied asset container passes to the vault's own address, and one
/// stored-asset entry is appended. On failure nothing changes.
pub fn hide_vault(
    vault_pda: &mut VaultPda,
    vault_address: &[u8; 32],
    fee_account: &mut FeeAccount,
    owner: &[u8; 32],
    owner_balance: &mut u64,
    asset_account: &mut AssetContainer,
    program_id: &[u8; 32],
    password_hash: &[u8; 32],
    mint: &[u8; 32],
    asset_type: u8,
    amount: u64,
) -> (r: Result<(), ErrorCode>)
    requires
        old(fee_account).total_fees + HIDE_FEE <= u64::MAX,
        old(asset_account).authority@ == owner@,
    ensures
        r == deposit_outcome(
            *old(vault_pda),
            vault_address@,
            program_id@,
            password_hash@,
            *old(owner_balance),
        ),
        r is Err ==> *final(vault_pda) == *old(vault_pda) && *final(fee_account) == *old(
            fee_account) && *final(owner_balance) == *old(owner_balance) && *final(asset_account)
            == *old(asset_account),
        r is Ok ==> final(vault_pda).owner@ == (if vault_initialized(*old(vault_pda)) {
            old(vault_pda).owner@
        } else {
            owner@
        }),
        r is Ok ==> final(vault_pda).password_hash@ == password_hash@,
        r is Ok && vault_initialized(*old(vault_pda)) ==> final(vault_pda).password_hash@ == old(
            vault_pda).password_hash@,
        r is Ok ==> !final(vault_pda).is_claimed,
        r is Ok ==> final(vault_pda).claimer@ == (if vault_initialized(*old(vault_pda)) {
            old(vault_pda).claimer@
        } else {
            zero_id()
        }),
        r is Ok ==> final(vault_pda).assets@ == old(vault_pda).assets@.push(
            StoredAsset {
                mint: *mint,
                asset_account: old(asset_account).id,
                asset_type: asset_type,
                amount: amount,
            },
        ),
        r is Ok ==> final(fee_account).total_fees == old(fee_account).total_fees + HIDE_FEE
            && final(fee_account).blacklisted_accounts@ == old(fee_account).blacklisted_accounts@,
        r is Ok ==> *final(owner_balance) == *old(owner_balance) - HIDE_FEE,
        r is Ok ==> final(asset_account).authority@ == vault_address@ && final(asset_account).id
            == old(asset_account).id && final(asset_account).mint == old(asset_account).mint
            && final(asset_account).amount == old(asset_account).amount,
        vault_wf(*old(vault_pda)) ==> vault_wf(*final(vault_pda)),
{
    let tag = vault_tag();
    let derived = derive_vault_address(tag.as_slice(), password_hash, program_id);
    let pda_ok = match derived {
        Some(p) => bytes32_eq(&p.0, vault_address),
        None => false,
    };
    if !pda_ok {
        return Err(ErrorCode::InvalidVaultPda);
    }
    if *owner_balance < HIDE_FEE {
        return Err(ErrorCode::InsufficientFunds);
    }
    let zero = zero_pubkey();
    let fresh = bytes32_eq(&vault_pda.owner, &zero);
    if !fresh {
        if !bytes32_eq(&vault_pda.password_hash, password_hash) {
            return Err(ErrorCode::InvalidPassword);
        }
        if vault_pda.is_claimed {
            return Err(ErrorCode::AlreadyClaimed);
        }
    }
    if vault_pda.assets.len() >= MAX_ASSETS {
        return Err(ErrorCode::CapacityExceeded);
    }
    *owner_balance = *owner_balance - HIDE_FEE;
    fee_account.total_fees = fee_account.total_fees + HIDE_FEE;
    if fresh {
        vault_pda.owner = *owner;
        vault_pda.password_hash = *password_hash;
        vault_pda.is_claimed = false;
        vault_pda.claimer = zero;
    }
    asset_account.authority = *vault_address;
    vault_pda.assets.push(
        StoredAsset {
            mint: *mint,
            asset_account: asset_account.id,
            asset_type: asset_type,
            amount: amount,
        },
    );
    Ok(())
}

/// Unlock authorization: present the plaintext passphrase and become the
/// designated claimer.
///
/// On success the unlock fee moves from the caller's balance into the fee
/// ledger and the caller is recorded as the claimer, overwriting any
/// previously recorded claimer. On failure nothing changes.
pub fn unlock_vault(
    vault_pda: &mut VaultPda,
    fee_account: &mut FeeAccount,
    claimer: &[u8; 32],
    claimer_balance: &mut u64,
    password: &[u8],
) -> (r: Result<(), ErrorCode>)
    requires
        old(fee_account).total_fees + UNLOCK_FEE <= u64::MAX,
    ensures
        r == unlock_outcome(*old(vault_pda), password@, *old(claimer_balance)),
        r is Err ==> *final(vault_pda) == *old(vault_pda) && *final(fee_account) == *old(
            fee_account) && *final(claimer_balance) == *old(claimer_balance),
        r is Ok ==> final(vault_pda).claimer@ == claimer@,
        r is Ok ==> final(vault_pda).owner == old(vault_pda).owner,
        r is Ok ==> final(vault_pda).password_hash == old(vault_pda).password_hash,
        r is Ok ==> final(vault_pda).is_claimed == old(vault_pda).is_claimed,
        r is Ok ==> final(vault_pda).assets@ == old(vault_pda).assets@,
        r is Ok ==> final(fee_account).total_fees == old(fee_account).total_fees + UNLOCK_FEE
            && final(fee_account).blacklisted_accounts@ == old(fee_account).blacklisted_accounts@,
        r is Ok ==> *final(claimer_balance) == *old(claimer_balance) - UNLOCK_FEE,
        vault_wf(*old(vault_pda)) ==> vault_wf(*final(vault_pda)),
{
    let computed = sha256_digest(password);
    if !bytes32_eq(&vault_pda.password_hash, &computed) {
        return Err(ErrorCode::InvalidPassword);
    }
    if vault_pda.is_claimed {
        return Err(ErrorCode::AlreadyClaimed);
    }
    if *claimer_balance < UNLOCK_FEE {
        return Err(ErrorCode::InsufficientFunds);
    }
    *claimer_balance = *claimer_balance - UNLOCK_FEE;
    fee_account.total_fees = fee_account.total_fees + UNLOCK_FEE;
    vault_pda.claimer = *claimer;
    Ok(())
}

/// Claim: transfer every stored asset out of custody, all or nothing.
///
/// The record's address must re-derive exactly from the stored fingerprint
/// and the supplied bump, and the caller must be the recorded claimer. If
/// any stored asset has no supplied container with its recorded address, the
/// whole claim fails and nothing changes. On success, authority over the
/// first matching container of every stored asset passes to the claimer, all
/// other containers stay as they were, the record becomes terminal
/// (`is_claimed`) and its asset list is cleared.
#[verifier::loop_isolation(false)]
pub fn claim_treasure(
    vault_pda: &mut VaultPda,
    vault_address: &[u8; 32],
    claimer: &[u8; 32],
    containers: &mut Vec<AssetContainer>,
    program_id: &[u8; 32],
    bump: u8,
) -> (r: Result<(), ErrorCode>)
    ensures
        r == claim_outcome(
            *old(vault_pda),
            vault_address@,
            program_id@,
            bump,
            claimer@,
            old(containers)@,
        ),
        r is Err ==> *final(vault_pda) == *old(vault_pda) && final(containers)@ == old(
            containers)@,
        r is Ok ==> final(vault_pda).is_claimed,
        r is Ok ==> final(vault_pda).assets@.len() == 0,
        r is Ok ==> final(vault_pda).owner == old(vault_pda).owner,
        r is Ok ==> final(vault_pda).password_hash == old(vault_pda).password_hash,
        r is Ok ==> final(vault_pda).claimer == old(vault_pda).claimer,
        r is Ok ==> final(containers)@.len() == old(containers)@.len(),
        r is Ok ==> forall|j: int|
            0 <= j < old(containers)@.len() && claim_target(
                old(containers)@,
                old(vault_pda).assets@,
                j,
            ) ==> (final(containers)@[j].authority@ == claimer@ && final(containers)@[j].id == old(
                containers)@[j].id && final(containers)@[j].mint == old(containers)@[j].mint
                && final(containers)@[j].amount == old(containers)@[j].amount),
        r is Ok ==> forall|j: int|
            0 <= j < old(containers)@.len() && !claim_target(
                old(containers)@,
                old(vault_pda).assets@,
                j,
            ) ==> final(containers)@[j] == old(containers)@[j],
        vault_wf(*old(vault_pda)) ==> vault_wf(*final(vault_pda)),
{
    let tag = vault_tag();
    let derived = verify_vault_address(tag.as_slice(), &vault_pda.password_hash, bump, program_id);
    let pda_ok = match derived {
        Some(a) => bytes32_eq(&a, vault_address),
        None => false,
    };
    if !pda_ok {
        return Err(ErrorCode::InvalidVaultPda);
    }
    if vault_pda.is_claimed {
        return Err(ErrorCode::AlreadyClaimed);
    }
    if !bytes32_eq(claimer, &vault_pda.claimer) {
        return Err(ErrorCode::InvalidClaimer);
    }
    let ghost cs0 = containers@;
    let ghost assets0 = vault_pda.assets@;
    let mut idxs: Vec<usize> = Vec::new();
    let mut k: usize = 0;
    while k < vault_pda.assets.len()
        invariant
            0 <= k <= vault_pda.assets@.len(),
            vault_pda.assets@ == assets0,
            containers@ == cs0,
            idxs@.len() == k,
            forall|t: int|
                0 <= t < k ==> is_first_match(cs0, assets0[t].asset_account@, idxs@[t] as int),
        decreases vault_pda.assets@.len() - k,
    {
        match find_container(containers, &vault_pda.assets[k].asset_account) {
            Some(j) => idxs.push(j),
            None => {
                proof {
                    assert(!has_container(cs0, assets0[k as int].asset_account@));
                    assert(!all_assets_covered(cs0, assets0));
                }
                return Err(ErrorCode::MissingAccount);
            },
        }
        k += 1;
    }
    let mut t: usize = 0;
    while t < idxs.len()
        invariant
            0 <= t <= idxs@.len(),
            idxs@.len() == assets0.len(),
            vault_pda.assets@ == assets0,
            containers@.len() == cs0.len(),
            forall|u: int|
                0 <= u < idxs@.len() ==> is_first_match(
                    cs0,
                    assets0[u].asset_account@,
                    idxs@[u] as int,
                ),
            forall|j: int|
                0 <= j < cs0.len() && claim_target_upto(cs0, assets0, t as int, j) ==> (
                containers@[j].authority@ == claimer@ && containers@[j].id == cs0[j].id
                    && containers@[j].mint == cs0[j].mint && containers@[j].amount
                    == cs0[j].amount),
            forall|j: int|
                0 <= j < cs0.len() && !claim_target_upto(cs0, assets0, t as int, j)
                    ==> containers@[j] == cs0[j],
        decreases idxs@.len() - t,
    {
        let j = idxs[t];
        proof {
            assert(is_first_match(cs0, assets0[t as int].asset_account@, j as int));
        }
        let ghost cs_prev = containers@;
        let mut c = containers[j];
        c.authority = *claimer;
        containers[j] = c;
        proof {
            assert(claim_target_upto(cs0, assets0, t as int + 1, j as int)) by {
                assert(is_first_match(cs0, assets0[t as int].asset_account@, j as int));
            }
            assert forall|p: int|
                0 <= p < cs0.len() && claim_target_upto(cs0, assets0, t as int + 1, p) implies (
            containers@[p].authority@ == claimer@ && containers@[p].id == cs0[p].id
                && containers@[p].mint == cs0[p].mint && containers@[p].amount
                == cs0[p].amount) by {
                if p == j as int {
                    if !claim_target_upto(cs0, assets0, t as int, p) {
                        assert(cs_prev[p] == cs0[p]);
                    }
                } else {
                    let w = choose|w: int|
                        0 <= w < t as int + 1 && is_first_match(cs0, assets0[w].asset_account@, p);
                    if w == t as int {
                        lemma_first_match_unique(cs0, assets0[w].asset_account@, p, j as int);
                        assert(false);
                    }
                    assert(claim_target_upto(cs0, assets0, t as int, p));
                    assert(containers@[p] == cs_prev[p]);
                }
            }
            assert forall|p: int|
                0 <= p < cs0.len() && !claim_target_upto(
                    cs0,
                    assets0,
                    t as int + 1,
                    p,
                ) implies containers@[p] == cs0[p] by {
                assert(p != j as int);
                if claim_target_upto(cs0, assets0, t as int, p) {
                    let w = choose|w: int|
                        0 <= w < t as int && is_first_match(cs0, assets0[w].asset_account@, p);
                    assert(0 <= w < t as int + 1 && is_first_match(
                        cs0,
                        assets0[w].asset_account@,
                        p,
                    ));
                    assert(false);
                }
                assert(containers@[p] == cs_prev[p]);
            }
        }
        t += 1;
    }
    proof {
        assert forall|kk: int| 0 <= kk < assets0.len() implies has_container(
            cs0,
            assets0[kk].asset_account@,
        ) by {
            assert(is_first_match(cs0, assets0[kk].asset_account@, idxs@[kk] as int));
        }
    }
    vault_pda.is_claimed = true;
    vault_pda.assets.clear();
    Ok(())
}

} // verus!
