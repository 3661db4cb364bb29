//! Deterministic address derivation for the vault record.
//!
//! The vault record lives at a program-derived address computed from a fixed
//! namespace tag and the passphrase fingerprint; with its bump seed the same
//! derivation serves as the vault's self-signing identity. The derivation
//! itself comes from the Solana address primitives re-exported by
//! `anchor_lang`.

use vstd::prelude::*;

verus! {

/// What `Pubkey::try_find_program_address` returns for the seed pair
/// `(tag, fingerprint)` under `program_id`: the canonical derived address and
/// its bump seed, or nothing in the statistically improbable event that no
/// bump yields a valid address. A pure function of its arguments.
pub uninterp spec fn find_pda_of(tag: Seq<u8>, fingerprint: Seq<u8>, program_id: Seq<u8>) -> Option<
    (Seq<u8>, u8),
>;

/// What `Pubkey::create_program_address` returns for the seed triple
/// `(tag, fingerprint, [bump])` under `program_id`: the derived address, or
/// nothing where the derivation is rejected. A pure function of its
/// arguments.
pub uninterp spec fn create_pda_of(
    tag: Seq<u8>,
    fingerprint: Seq<u8>,
    bump: u8,
    program_id: Seq<u8>,
) -> Option<Seq<u8>>;

/// Relies on `Pubkey::try_find_program_address` (via `anchor_lang`): finds
/// the canonical program-derived address and bump seed for the given seeds,
/// such that re-deriving with that bump through
/// `Pubkey::create_program_address` yields the same address.
#[verifier::external_body]
pub(crate) fn derive_vault_address(tag: &[u8], fingerprint: &[u8; 32], program_id: &[u8; 32]) -> (r:
    Option<([u8; 32], u8)>)
    ensures
        match r {
            Some(p) => find_pda_of(tag@, fingerprint@, program_id@) == Some((p.0@, p.1))
                && create_pda_of(tag@, fingerprint@, p.1, program_id@) == Some(p.0@),
            None => find_pda_of(tag@, fingerprint@, program_id@) is None,
        },
{
    let pid = anchor_lang::prelude::Pubkey::new_from_array(*program_id);
    let found = anchor_lang::prelude::Pubkey::try_find_program_address(&[tag, fingerprint], &pid);
    found.map(|(addr, bump)| (addr.to_bytes(), bump))
}

/// Relies on `Pubkey::create_program_address` (via `anchor_lang`):
/// deterministically re-derives the program address for the given seeds and
/// bump, or reports that the derivation is rejected.
#[verifier::external_body]
pub(crate) fn verify_vault_address(tag: &[u8], fingerprint: &[u8; 32], bump: u8, program_id: &[u8; 32]) -> (r:
    Option<[u8; 32]>)
    ensures
        match r {
            Some(a) => create_pda_of(tag@, fingerprint@, bump, program_id@) == Some(a@),
            None => create_pda_of(tag@, fingerprint@, bump, program_id@) is None,
        },
{
    let pid = anchor_lang::prelude::Pubkey::new_from_array(*program_id);
    let bump_arr = [bump];
    match anchor_lang::prelude::Pubkey::create_program_address(&[tag, fingerprint, &bump_arr], &pid)
    {
        Ok(addr) => Some(addr.to_bytes()),
        Err(_) => None,
    }
}

/// The namespace tag under which vault records are derived: the bytes of
/// the ASCII word `vault`.
pub open spec fn vault_tag_spec() -> Seq<u8> {
    seq![118u8, 97u8, 117u8, 108u8, 116u8]
}

/// The namespace tag as an executable value.
pub fn vault_tag() -> (r: Vec<u8>)
    ensures
        r@ == vault_tag_spec(),
{
    let mut v: Vec<u8> = Vec::new();
    v.push(118u8);
    v.push(97u8);
    v.push(117u8);
    v.push(108u8);
    v.push(116u8);
    proof {
        assert(v@ =~= vault_tag_spec());
    }
    v
}

/// The targeted vault address is the canonical derived address for this
/// fingerprint: the check every deposit makes before touching the record.
pub open spec fn pda_matches(vault_address: Seq<u8>, fingerprint: Seq<u8>, program_id: Seq<u8>) -> bool {
    match find_pda_of(vault_tag_spec(), fingerprint, program_id) {
        Some(p) => p.0 == vault_address,
        None => false,
    }
}

} // verus!
