use sha2::Digest;

use treasure_vault::vault::claim_treasure;
use treasure_vault::vault::hide_vault;
use treasure_vault::vault::unlock_vault;
use treasure_vault::AssetContainer;
use treasure_vault::ErrorCode;
use treasure_vault::FeeAccount;
use treasure_vault::VaultPda;

const PROGRAM_ID: [u8; 32] = [7u8; 32];

fn digest(password: &[u8]) -> [u8; 32] {
    sha2::Sha256::digest(password).into()
}

fn derive(hash: &[u8; 32]) -> ([u8; 32], u8) {
    let pid = anchor_lang::prelude::Pubkey::new_from_array(PROGRAM_ID);
    let (addr, bump) =
        anchor_lang::prelude::Pubkey::find_program_address(&[b"vault", hash], &pid);
    (addr.to_bytes(), bump)
}

fn fresh_vault() -> VaultPda {
    VaultPda {
        owner: [0u8; 32],
        assets: Vec::new(),
        password_hash: [0u8; 32],
        is_claimed: false,
        claimer: [0u8; 32],
    }
}

fn fresh_fees() -> FeeAccount {
    FeeAccount { total_fees: 0, blacklisted_accounts: Vec::new() }
}

fn container(id: u8, mint: u8, authority: [u8; 32], amount: u64) -> AssetContainer {
    AssetContainer { id: [id; 32], mint: [mint; 32], authority, amount }
}

#[test]
fn scenario_a_first_deposit_initializes_the_record() {
    let owner = [1u8; 32];
    let hash = digest(b"p");
    let (addr, _bump) = derive(&hash);
    let mut vault = fresh_vault();
    let mut fees = fresh_fees();
    let mut balance: u64 = 10_000_000;
    let mut asset = container(9, 2, owner, 100);

    let r = hide_vault(
        &mut vault, &addr, &mut fees, &owner, &mut balance, &mut asset, &PROGRAM_ID, &hash,
        &[2u8; 32], 0, 100,
    );
    assert_eq!(r, Ok(()));
    assert_eq!(vault.owner, owner);
    assert_eq!(vault.password_hash, hash);
    assert!(!vault.is_claimed);
    assert_eq!(vault.claimer, [0u8; 32]);
    assert_eq!(vault.assets.len(), 1);
    assert_eq!(vault.assets[0].mint, [2u8; 32]);
    assert_eq!(vault.assets[0].asset_account, [9u8; 32]);
    assert_eq!(vault.assets[0].asset_type, 0);
    assert_eq!(vault.assets[0].amount, 100);
    assert_eq!(fees.total_fees, 5_000_000);
    assert_eq!(balance, 5_000_000);
    assert_eq!(asset.authority, addr);
}

#[test]
fn scenario_b_wrong_passphrase_is_rejected_and_claimer_stays_unset() {
    let owner = [1u8; 32];
    let hash = digest(b"p");
    let (addr, _bump) = derive(&hash);
    let mut vault = fresh_vault();
    let mut fees = fresh_fees();
    let mut balance: u64 = 10_000_000;
    let mut asset = container(9, 2, owner, 100);
    hide_vault(
        &mut vault, &addr, &mut fees, &owner, &mut balance, &mut asset, &PROGRAM_ID, &hash,
        &[2u8; 32], 0, 100,
    )
    .unwrap();

    let claimer = [3u8; 32];
    let mut claimer_balance: u64 = 10_000_000;
    let r = unlock_vault(&mut vault, &mut fees, &claimer, &mut claimer_balance, b"q");
    assert_eq!(r, Err(ErrorCode::InvalidPassword));
    assert_eq!(vault.claimer, [0u8; 32]);
    assert_eq!(fees.total_fees, 5_000_000);
    assert_eq!(claimer_balance, 10_000_000);
}

#[test]
fn scenario_c_unlock_then_claim_hands_the_assets_over() {
    let owner = [1u8; 32];
    let hash = digest(b"p");
    let (addr, bump) = derive(&hash);
    let mut vault = fresh_vault();
    let mut fees = fresh_fees();
    let mut balance: u64 = 10_000_000;
    let mut asset = container(9, 2, owner, 100);
    hide_vault(
        &mut vault, &addr, &mut fees, &owner, &mut balance, &mut asset, &PROGRAM_ID, &hash,
        &[2u8; 32], 0, 100,
    )
    .unwrap();

    let claimer = [3u8; 32];
    let mut claimer_balance: u64 = 10_000_000;
    let r = unlock_vault(&mut vault, &mut fees, &claimer, &mut claimer_balance, b"p");
    assert_eq!(r, Ok(()));
    assert_eq!(vault.claimer, claimer);
    assert_eq!(fees.total_fees, 12_000_000);
    assert_eq!(claimer_balance, 3_000_000);

    let mut supplied = vec![asset];
    let r = claim_treasure(&mut vault, &addr, &claimer, &mut supplied, &PROGRAM_ID, bump);
    assert_eq!(r, Ok(()));
    assert!(vault.is_claimed);
    assert!(vault.assets.is_empty());
    assert_eq!(supplied[0].authority, claimer);
    assert_eq!(supplied[0].id, [9u8; 32]);
    assert_eq!(supplied[0].amount, 100);
}

#[test]
fn scenario_d_claim_by_another_identity_is_rejected() {
    let owner = [1u8; 32];
    let hash = digest(b"p");
    let (addr, bump) = derive(&hash);
    let mut vault = fresh_vault();
    let mut fees = fresh_fees();
    let mut balance: u64 = 10_000_000;
    let mut asset = container(9, 2, owner, 100);
    hide_vault(
        &mut vault, &addr, &mut fees, &owner, &mut balance, &mut asset, &PROGRAM_ID, &hash,
        &[2u8; 32], 0, 100,
    )
    .unwrap();
    let claimer = [3u8; 32];
    let mut claimer_balance: u64 = 10_000_000;
    unlock_vault(&mut vault, &mut fees, &claimer, &mut claimer_balance, b"p").unwrap();

    let intruder = [4u8; 32];
    let mut supplied = vec![asset];
    let r = claim_treasure(&mut vault, &addr, &intruder, &mut supplied, &PROGRAM_ID, bump);
    assert_eq!(r, Err(ErrorCode::InvalidClaimer));
    assert!(!vault.is_claimed);
    assert_eq!(vault.assets.len(), 1);
    assert_eq!(supplied[0].authority, addr);
}

#[test]
fn fingerprint_is_immutable_across_deposits() {
    let owner = [1u8; 32];
    let hash = digest(b"p");
    let (addr, _bump) = derive(&hash);
    let mut vault = fresh_vault();
    let mut fees = fresh_fees();
    let mut balance: u64 = 50_000_000;
    let mut asset = container(9, 2, owner, 100);
    hide_vault(
        &mut vault, &addr, &mut fees, &owner, &mut balance, &mut asset, &PROGRAM_ID, &hash,
        &[2u8; 32], 0, 100,
    )
    .unwrap();

    // A different fingerprint, presented at this record's own address, is
    // refused and changes nothing.
    let other_hash = digest(b"other");
    let mut asset2 = container(8, 2, owner, 5);
    let r = hide_vault(
        &mut vault, &addr, &mut fees, &owner, &mut balance, &mut asset2, &PROGRAM_ID,
        &other_hash, &[2u8; 32], 0, 5,
    );
    assert_eq!(r, Err(ErrorCode::InvalidVaultPda));
    assert_eq!(vault.password_hash, hash);
    assert_eq!(vault.assets.len(), 1);

    // Even at the address derived for the other fingerprint, the stored
    // fingerprint does not match and the deposit is refused.
    let (other_addr, _b) = derive(&other_hash);
    let r = hide_vault(
        &mut vault, &other_addr, &mut fees, &owner, &mut balance, &mut asset2, &PROGRAM_ID,
        &other_hash, &[2u8; 32], 0, 5,
    );
    assert_eq!(r, Err(ErrorCode::InvalidPassword));
    assert_eq!(vault.password_hash, hash);

    // The matching fingerprint still deposits, and leaves it unchanged.
    let r = hide_vault(
        &mut vault, &addr, &mut fees, &owner, &mut balance, &mut asset2, &PROGRAM_ID, &hash,
        &[2u8; 32], 0, 5,
    );
    assert_eq!(r, Ok(()));
    assert_eq!(vault.password_hash, hash);
    assert_eq!(vault.assets.len(), 2);
}

#[test]
fn claimed_record_is_terminal_for_every_operation() {
    let owner = [1u8; 32];
    let hash = digest(b"p");
    let (addr, bump) = derive(&hash);
    let mut vault = fresh_vault();
    let mut fees = fresh_fees();
    let mut balance: u64 = 50_000_000;
    let mut asset = container(9, 2, owner, 100);
    hide_vault(
        &mut vault, &addr, &mut fees, &owner, &mut balance, &mut asset, &PROGRAM_ID, &hash,
        &[2u8; 32], 0, 100,
    )
    .unwrap();
    let claimer = [3u8; 32];
    let mut claimer_balance: u64 = 50_000_000;
    unlock_vault(&mut vault, &mut fees, &claimer, &mut claimer_balance, b"p").unwrap();
    let mut supplied = vec![asset];
    claim_treasure(&mut vault, &addr, &claimer, &mut supplied, &PROGRAM_ID, bump).unwrap();
    let snapshot = vault.clone();
    let fees_total = fees.total_fees;

    let mut asset2 = container(8, 2, owner, 5);
    let r = hide_vault(
        &mut vault, &addr, &mut fees, &owner, &mut balance, &mut asset2, &PROGRAM_ID, &hash,
        &[2u8; 32], 0, 5,
    );
    assert_eq!(r, Err(ErrorCode::AlreadyClaimed));
    assert_eq!(vault, snapshot);

    let r = unlock_vault(&mut vault, &mut fees, &claimer, &mut claimer_balance, b"p");
    assert_eq!(r, Err(ErrorCode::AlreadyClaimed));
    assert_eq!(vault, snapshot);

    let r = claim_treasure(&mut vault, &addr, &claimer, &mut supplied, &PROGRAM_ID, bump);
    assert_eq!(r, Err(ErrorCode::AlreadyClaimed));
    assert_eq!(vault, snapshot);
    assert_eq!(fees.total_fees, fees_total);
}

#[test]
fn capacity_is_bounded_and_the_overflowing_deposit_is_refused() {
    let owner = [1u8; 32];
    let hash = digest(b"p");
    let (addr, _bump) = derive(&hash);
    let mut vault = fresh_vault();
    let mut fees = fresh_fees();
    let mut balance: u64 = 100_000_000;
    for i in 0..10u8 {
        let mut asset = container(100 + i, 2, owner, u64::from(i));
        let r = hide_vault(
            &mut vault, &addr, &mut fees, &owner, &mut balance, &mut asset, &PROGRAM_ID, &hash,
            &[2u8; 32], 0, u64::from(i),
        );
        assert_eq!(r, Ok(()));
    }
    assert_eq!(vault.assets.len(), 10);

    let mut asset = container(200, 2, owner, 11);
    let r = hide_vault(
        &mut vault, &addr, &mut fees, &owner, &mut balance, &mut asset, &PROGRAM_ID, &hash,
        &[2u8; 32], 0, 11,
    );
    assert_eq!(r, Err(ErrorCode::CapacityExceeded));
    assert_eq!(vault.assets.len(), 10);
    assert_eq!(asset.authority, owner);
    assert_eq!(fees.total_fees, 50_000_000);
}

#[test]
fn claim_is_all_or_nothing_when_a_container_is_missing() {
    let owner = [1u8; 32];
    let hash = digest(b"p");
    let (addr, bump) = derive(&hash);
    let mut vault = fresh_vault();
    let mut fees = fresh_fees();
    let mut balance: u64 = 50_000_000;
    let mut asset_a = container(9, 2, owner, 100);
    let mut asset_b = container(10, 2, owner, 7);
    hide_vault(
        &mut vault, &addr, &mut fees, &owner, &mut balance, &mut asset_a, &PROGRAM_ID, &hash,
        &[2u8; 32], 0, 100,
    )
    .unwrap();
    hide_vault(
        &mut vault, &addr, &mut fees, &owner, &mut balance, &mut asset_b, &PROGRAM_ID, &hash,
        &[2u8; 32], 1, 7,
    )
    .unwrap();
    let claimer = [3u8; 32];
    let mut claimer_balance: u64 = 50_000_000;
    unlock_vault(&mut vault, &mut fees, &claimer, &mut claimer_balance, b"p").unwrap();

    // Only the first container is supplied: the whole claim fails and no
    // authority moves.
    let mut supplied = vec![asset_a];
    let r = claim_treasure(&mut vault, &addr, &claimer, &mut supplied, &PROGRAM_ID, bump);
    assert_eq!(r, Err(ErrorCode::MissingAccount));
    assert!(!vault.is_claimed);
    assert_eq!(vault.assets.len(), 2);
    assert_eq!(supplied[0].authority, addr);
}

#[test]
fn claim_pays_out_of_the_first_matching_container() {
    let owner = [1u8; 32];
    let hash = digest(b"p");
    let (addr, bump) = derive(&hash);
    let mut vault = fresh_vault();
    let mut fees = fresh_fees();
    let mut balance: u64 = 50_000_000;
    let mut asset = container(9, 2, owner, 100);
    hide_vault(
        &mut vault, &addr, &mut fees, &owner, &mut balance, &mut asset, &PROGRAM_ID, &hash,
        &[2u8; 32], 0, 100,
    )
    .unwrap();
    let claimer = [3u8; 32];
    let mut claimer_balance: u64 = 50_000_000;
    unlock_vault(&mut vault, &mut fees, &claimer, &mut claimer_balance, b"p").unwrap();

    // A decoy with a different address sits in front; the deposited
    // container follows. Only the matching one changes authority.
    let decoy = container(42, 2, [5u8; 32], 1);
    let mut supplied = vec![decoy, asset];
    let r = claim_treasure(&mut vault, &addr, &claimer, &mut supplied, &PROGRAM_ID, bump);
    assert_eq!(r, Ok(()));
    assert_eq!(supplied[0].authority, [5u8; 32]);
    assert_eq!(supplied[1].authority, claimer);
}

#[test]
fn deposit_at_a_foreign_address_is_rejected() {
    let owner = [1u8; 32];
    let hash = digest(b"p");
    let mut vault = fresh_vault();
    let mut fees = fresh_fees();
    let mut balance: u64 = 10_000_000;
    let mut asset = container(9, 2, owner, 100);
    let wrong_addr = [6u8; 32];
    let r = hide_vault(
        &mut vault, &wrong_addr, &mut fees, &owner, &mut balance, &mut asset, &PROGRAM_ID,
        &hash, &[2u8; 32], 0, 100,
    );
    assert_eq!(r, Err(ErrorCode::InvalidVaultPda));
    assert_eq!(vault, fresh_vault());
    assert_eq!(fees.total_fees, 0);
    assert_eq!(balance, 10_000_000);
    assert_eq!(asset.authority, owner);
}

#[test]
fn claim_with_a_wrong_bump_is_rejected() {
    let owner = [1u8; 32];
    let hash = digest(b"p");
    let (addr, bump) = derive(&hash);
    let mut vault = fresh_vault();
    let mut fees = fresh_fees();
    let mut balance: u64 = 10_000_000;
    let mut asset = container(9, 2, owner, 100);
    hide_vault(
        &mut vault, &addr, &mut fees, &owner, &mut balance, &mut asset, &PROGRAM_ID, &hash,
        &[2u8; 32], 0, 100,
    )
    .unwrap();
    let claimer = [3u8; 32];
    let mut claimer_balance: u64 = 10_000_000;
    unlock_vault(&mut vault, &mut fees, &claimer, &mut claimer_balance, b"p").unwrap();

    let mut supplied = vec![asset];
    let r = claim_treasure(
        &mut vault, &addr, &claimer, &mut supplied, &PROGRAM_ID, bump.wrapping_add(1),
    );
    assert_eq!(r, Err(ErrorCode::InvalidVaultPda));
    assert!(!vault.is_claimed);
    assert_eq!(vault.assets.len(), 1);
}

#[test]
fn underfunded_payers_are_rejected() {
    let owner = [1u8; 32];
    let hash = digest(b"p");
    let (addr, _bump) = derive(&hash);
    let mut vault = fresh_vault();
    let mut fees = fresh_fees();
    let mut balance: u64 = 4_999_999;
    let mut asset = container(9, 2, owner, 100);
    let r = hide_vault(
        &mut vault, &addr, &mut fees, &owner, &mut balance, &mut asset, &PROGRAM_ID, &hash,
        &[2u8; 32], 0, 100,
    );
    assert_eq!(r, Err(ErrorCode::InsufficientFunds));
    assert_eq!(vault, fresh_vault());
    assert_eq!(balance, 4_999_999);

    let mut balance: u64 = 10_000_000;
    hide_vault(
        &mut vault, &addr, &mut fees, &owner, &mut balance, &mut asset, &PROGRAM_ID, &hash,
        &[2u8; 32], 0, 100,
    )
    .unwrap();
    let claimer = [3u8; 32];
    let mut claimer_balance: u64 = 6_999_999;
    let r = unlock_vault(&mut vault, &mut fees, &claimer, &mut claimer_balance, b"p");
    assert_eq!(r, Err(ErrorCode::InsufficientFunds));
    assert_eq!(vault.claimer, [0u8; 32]);
    assert_eq!(claimer_balance, 6_999_999);
}

#[test]
fn reauthorization_overwrites_the_claimer() {
    let owner = [1u8; 32];
    let hash = digest(b"p");
    let (addr, _bump) = derive(&hash);
    let mut vault = fresh_vault();
    let mut fees = fresh_fees();
    let mut balance: u64 = 10_000_000;
    let mut asset = container(9, 2, owner, 100);
    hide_vault(
        &mut vault, &addr, &mut fees, &owner, &mut balance, &mut asset, &PROGRAM_ID, &hash,
        &[2u8; 32], 0, 100,
    )
    .unwrap();

    let first = [3u8; 32];
    let mut first_balance: u64 = 10_000_000;
    unlock_vault(&mut vault, &mut fees, &first, &mut first_balance, b"p").unwrap();
    assert_eq!(vault.claimer, first);

    let second = [4u8; 32];
    let mut second_balance: u64 = 10_000_000;
    unlock_vault(&mut vault, &mut fees, &second, &mut second_balance, b"p").unwrap();
    assert_eq!(vault.claimer, second);
    assert_eq!(fees.total_fees, 5_000_000 + 7_000_000 + 7_000_000);
}
