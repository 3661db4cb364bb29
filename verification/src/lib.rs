//! A password-gated escrow vault.
//!
//! A depositor hides assets behind the digest of a secret passphrase; whoever
//! presents the matching passphrase may be authorized as claimer and later
//! take over authority of every stored asset container in one atomic claim.
//! The vault record itself lives at an address derived deterministically from
//! the passphrase digest, which doubles as the vault's signing identity.

pub mod digest;
pub mod laws;
pub mod pda;
pub mod records;
pub mod vault;

pub use records::AssetContainer;
pub use records::ErrorCode;
pub use records::FeeAccount;
pub use records::StoredAsset;
pub use records::VaultPda;
pub use records::HIDE_FEE;
pub use records::MAX_ASSETS;
pub use records::UNLOCK_FEE;
pub use vault::claim_treasure;
pub use vault::hide_vault;
pub use vault::unlock_vault;
