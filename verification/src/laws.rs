//! The laws the vault lifecycle obeys, proved over the spec-level outcome
//! functions that the three operations' contracts are stated with. The
//! complementary halves about state — that a failed operation changes
//! nothing, and what a successful one writes — stand in the `ensures` of the
//! operations themselves.

use vstd::prelude::*;

use crate::digest::sha256_of;
use crate::pda::create_pda_of;
use crate::pda::pda_matches;
use crate::pda::vault_tag_spec;
use crate::records::vault_initialized;
use crate::records::AssetContainer;
use crate::records::ErrorCode;
use crate::records::VaultPda;
use crate::records::HIDE_FEE;
use crate::records::MAX_ASSETS;
use crate::vault::all_assets_covered;
use crate::vault::claim_outcome;
use crate::vault::deposit_outcome;
use crate::vault::unlock_outcome;

verus! {

/// Fingerprint immutability, refusal half: a deposit that supplies a
/// fingerprint other than the stored one against an initialized record fails
/// with `InvalidPassword`, provided the checks that come first (address
/// derivation, fee funding) pass.
pub proof fn lemma_fingerprint_rejected(
    vault: VaultPda,
    vault_address: Seq<u8>,
    program_id: Seq<u8>,
    fingerprint: Seq<u8>,
    payer_balance: u64,
)
    requires
        vault_initialized(vault),
        vault.password_hash@ != fingerprint,
        pda_matches(vault_address, fingerprint, program_id),
        payer_balance >= HIDE_FEE,
    ensures
        deposit_outcome(vault, vault_address, program_id, fingerprint, payer_balance) == Err::<
            (),
            ErrorCode,
        >(ErrorCode::InvalidPassword),
{
}

/// Fingerprint immutability, success half: a deposit against an initialized
/// record only ever succeeds with the stored fingerprint, so the fingerprint
/// set by the first successful deposit is the one every later successful
/// deposit carries.
pub proof fn lemma_fingerprint_immutable(
    vault: VaultPda,
    vault_address: Seq<u8>,
    program_id: Seq<u8>,
    fingerprint: Seq<u8>,
    payer_balance: u64,
)
    requires
        vault_initialized(vault),
        deposit_outcome(vault, vault_address, program_id, fingerprint, payer_balance) is Ok,
    ensures
        vault.password_hash@ == fingerprint,
{
}

/// Claim terminality for deposits: against a claimed record, a deposit whose
/// earlier checks pass fails with `AlreadyClaimed`.
pub proof fn lemma_terminal_deposit(
    vault: VaultPda,
    vault_address: Seq<u8>,
    program_id: Seq<u8>,
    fingerprint: Seq<u8>,
    payer_balance: u64,
)
    requires
        vault_initialized(vault),
        vault.is_claimed,
        vault.password_hash@ == fingerprint,
        pda_matches(vault_address, fingerprint, program_id),
        payer_balance >= HIDE_FEE,
    ensures
        deposit_outcome(vault, vault_address, program_id, fingerprint, payer_balance) == Err::<
            (),
            ErrorCode,
        >(ErrorCode::AlreadyClaimed),
{
}

/// Claim terminality for unlock authorizations: against a claimed record, an
/// unlock with the matching passphrase fails with `AlreadyClaimed`.
pub proof fn lemma_terminal_unlock(vault: VaultPda, password: Seq<u8>, payer_balance: u64)
    requires
        vault.is_claimed,
        vault.password_hash@ == sha256_of(password),
    ensures
        unlock_outcome(vault, password, payer_balance) == Err::<(), ErrorCode>(
            ErrorCode::AlreadyClaimed,
        ),
{
}

/// Claim terminality for claims: against a claimed record, a claim whose
/// address re-derivation passes fails with `AlreadyClaimed`, whoever calls
/// it and whatever containers are supplied.
pub proof fn lemma_terminal_claim(
    vault: VaultPda,
    vault_address: Seq<u8>,
    program_id: Seq<u8>,
    bump: u8,
    claimer: Seq<u8>,
    containers: Seq<AssetContainer>,
)
    requires
        vault.is_claimed,
        create_pda_of(vault_tag_spec(), vault.password_hash@, bump, program_id) == Some(
            vault_address,
        ),
    ensures
        claim_outcome(vault, vault_address, program_id, bump, claimer, containers) == Err::<
            (),
            ErrorCode,
        >(ErrorCode::AlreadyClaimed),
{
}

/// Capacity bound: a deposit only ever succeeds strictly below capacity, so
/// the asset list never outgrows `MAX_ASSETS`; and against a full record a
/// deposit whose earlier checks pass fails with `CapacityExceeded`.
pub proof fn lemma_capacity_bound(
    vault: VaultPda,
    vault_address: Seq<u8>,
    program_id: Seq<u8>,
    fingerprint: Seq<u8>,
    payer_balance: u64,
)
    ensures
        deposit_outcome(vault, vault_address, program_id, fingerprint, payer_balance) is Ok
            ==> vault.assets@.len() < MAX_ASSETS,
        (vault.assets@.len() >= MAX_ASSETS && pda_matches(vault_address, fingerprint, program_id)
            && payer_balance >= HIDE_FEE && (vault_initialized(vault) ==> (vault.password_hash@
            == fingerprint && !vault.is_claimed))) ==> deposit_outcome(
            vault,
            vault_address,
            program_id,
            fingerprint,
            payer_balance,
        ) == Err::<(), ErrorCode>(ErrorCode::CapacityExceeded),
{
}

/// Claimer gating: a claim by any identity other than the recorded claimer
/// fails with `InvalidClaimer`, provided the checks that come first pass.
pub proof fn lemma_claimer_gating(
    vault: VaultPda,
    vault_address: Seq<u8>,
    program_id: Seq<u8>,
    bump: u8,
    claimer: Seq<u8>,
    containers: Seq<AssetContainer>,
)
    requires
        create_pda_of(vault_tag_spec(), vault.password_hash@, bump, program_id) == Some(
            vault_address,
        ),
        !vault.is_claimed,
        claimer != vault.claimer@,
    ensures
        claim_outcome(vault, vault_address, program_id, bump, claimer, containers) == Err::<
            (),
            ErrorCode,
        >(ErrorCode::InvalidClaimer),
{
}

/// All-or-nothing claim, refusal half: if any stored asset lacks a supplied
/// container with its recorded address, the claim fails with
/// `MissingAccount` — and, by the claim operation's contract, a failed claim
/// leaves the record and every container unchanged.
pub proof fn lemma_all_or_nothing(
    vault: VaultPda,
    vault_address: Seq<u8>,
    program_id: Seq<u8>,
    bump: u8,
    claimer: Seq<u8>,
    containers: Seq<AssetContainer>,
)
    requires
        create_pda_of(vault_tag_spec(), vault.password_hash@, bump, program_id) == Some(
            vault_address,
        ),
        !vault.is_claimed,
        claimer == vault.claimer@,
        !all_assets_covered(containers, vault.assets@),
    ensures
        claim_outcome(vault, vault_address, program_id, bump, claimer, containers) == Err::<
            (),
            ErrorCode,
        >(ErrorCode::MissingAccount),
{
}

} // verus!
