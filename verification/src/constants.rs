//! Fixed values of the program.

use vstd::prelude::*;

verus! {

/// Seed of the registry's program-derived address: the ASCII bytes of `mint`.
pub const NFT_MINT_PDA_SEED: [u8; 4] = [109, 105, 110, 116];

/// First seed of every address that the token-metadata program derives: the
/// ASCII bytes of `metadata`.
pub const METADATA_SEED: [u8; 8] = [109, 101, 116, 97, 100, 97, 116, 97];

/// Last seed of a master edition's address: the ASCII bytes of `edition`.
pub const EDITION_SEED: [u8; 7] = [101, 100, 105, 116, 105, 111, 110];

/// Address of this program, `Fg6PaFpoGXkYsidMpWTK6W2BeZ7FEfcYkg476zPFsLnS`.
pub const PROGRAM_ID: [u8; 32] = [
    218, 7, 92, 178, 255, 94, 198, 129, 118, 19, 222, 83, 11, 105, 42, 135,
    53, 71, 119, 105, 218, 71, 67, 12, 189, 129, 84, 51, 92, 74, 131, 39,
];

/// Seller fee attached to every minted token, in basis points.
pub const NFT_SELLER_FEE_BASIS_POINTS: u16 = 500;

/// Maximum number of printable copies of a minted token: none.
pub const NFT_MAX_SUPPLY: u64 = 0;

/// Share of the registry in the creator list, in percent.
pub const REGISTRY_CREATOR_SHARE: u8 = 0;

/// Share of the minting signer in the creator list, in percent.
pub const SIGNER_CREATOR_SHARE: u8 = 100;

} // verus!
