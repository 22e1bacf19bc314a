//! The configuration registry: one record per program, changed only by its
//! owner.

use crate::address::Address;
use crate::error::ErrorCode;
use vstd::prelude::*;

verus! {

/// The registry's record.
#[derive(Clone, Copy, Debug, PartialEq, Eq)]
pub struct Configuration {
    /// Who may change the registry and mint.
    pub owner: Address,
    /// The update authority given to the metadata of every minted token.
    pub update_authority: Address,
    /// How many tokens were minted. It only grows, by one per mint.
    pub nft_count: u64,
}

impl Configuration {
    /// Bytes of a stored record: two addresses and the counter. On the ledger
    /// an 8-byte header precedes them.
    pub const LEN: usize = 32 + 32 + 8;

    /// May `signer` change this registry?
    pub open spec fn authorizes(self, signer: Address) -> bool {
        signer@ == self.owner@
    }

    /// The authority gate: passes for the recorded owner and for nobody else.
    pub fn check(&self, signer: &Address) -> (result: Result<(), ErrorCode>)
        ensures
            self.authorizes(*signer) ==> result == Ok::<(), ErrorCode>(()),
            !self.authorizes(*signer) ==> result == Err::<(), ErrorCode>(
                ErrorCode::PermissionDenied,
            ),
    {
        if *signer == self.owner {
            Ok(())
        } else {
            Err(ErrorCode::PermissionDenied)
        }
    }
}

impl Default for Configuration {
    /// The record of zero addresses with the counter at zero.
    fn default() -> (registry: Configuration)
        ensures
            registry.owner@ == Seq::new(32, |i: int| 0u8),
            registry.update_authority@ == Seq::new(32, |i: int| 0u8),
            registry.nft_count == 0,
    {
        Configuration {
            owner: Address::default(),
            update_authority: Address::default(),
            nft_count: 0,
        }
    }
}

/// An account on the ledger: its address and what it holds.
#[derive(Clone, Copy, Debug, PartialEq, Eq)]
pub struct Account<T> {
    pub key: Address,
    pub data: T,
}

/// The accounts of `initialize`. The registry's account holds no record
/// before the registry is created.
#[derive(Clone, Copy, Debug, PartialEq, Eq)]
pub struct Initialize {
    pub signer: Address,
    pub configuration: Account<Option<Configuration>>,
    pub system_program: Address,
    pub token_program: Address,
    pub rent: Address,
}

/// The accounts of `update_config`.
#[derive(Clone, Copy, Debug, PartialEq, Eq)]
pub struct UpdateConfig {
    pub signer: Address,
    pub configuration: Account<Configuration>,
}

/// The record of a registry that `signer` has just created.
pub open spec fn fresh_registry(signer: Address, update_authority: Address) -> Configuration {
    Configuration { owner: signer, update_authority, nft_count: 0 }
}

/// What `initialize` leaves and returns.
pub open spec fn initialize_spec(ctx: Initialize, update_authority: Address) -> (
    Initialize,
    Result<(), ErrorCode>,
) {
    if ctx.configuration.data is Some {
        (ctx, Err(ErrorCode::AlreadyInitialized))
    } else {
        (
            Initialize {
                configuration: Account {
                    key: ctx.configuration.key,
                    data: Some(fresh_registry(ctx.signer, update_authority)),
                },
                ..ctx
            },
            Ok(()),
        )
    }
}

/// What `update_config` leaves and returns.
pub open spec fn update_config_spec(ctx: UpdateConfig, update_authority: Address) -> (
    UpdateConfig,
    Result<(), ErrorCode>,
) {
    if ctx.configuration.data.authorizes(ctx.signer) {
        (
            UpdateConfig {
                configuration: Account {
                    key: ctx.configuration.key,
                    data: Configuration {
                        owner: ctx.signer,
                        update_authority,
                        nft_count: ctx.configuration.data.nft_count,
                    },
                },
                ..ctx
            },
            Ok(()),
        )
    } else {
        (ctx, Err(ErrorCode::PermissionDenied))
    }
}

/// Creates the registry: the signer becomes its owner, the counter starts at
/// zero. Fails, and changes nothing, where the account already holds a record.
pub fn initialize(ctx: &mut Initialize, _config_nonce: u8, update_authority: Address) -> (result:
    Result<(), ErrorCode>)
    ensures
        (*final(ctx), result) == initialize_spec(*old(ctx), update_authority),
{
    if ctx.configuration.data.is_some() {
        return Err(ErrorCode::AlreadyInitialized);
    }
    ctx.configuration.data = Some(
        Configuration { owner: ctx.signer, update_authority, nft_count: 0 },
    );
    Ok(())
}

/// Sets the update authority, and the owner to the signer. Fails, and changes
/// nothing, where the signer is not the owner. The counter stays as it is.
pub fn update_config(ctx: &mut UpdateConfig, _config_nonce: u8, update_authority: Address) -> (result:
    Result<(), ErrorCode>)
    ensures
        (*final(ctx), result) == update_config_spec(*old(ctx), update_authority),
{
    match ctx.configuration.data.check(&ctx.signer) {
        Ok(()) => {},
        Err(error) => {
            return Err(error);
        },
    }
    ctx.configuration.data.owner = ctx.signer;
    ctx.configuration.data.update_authority = update_authority;
    Ok(())
}

/// A second `initialize` on the same registry fails with `AlreadyInitialized`
/// and leaves what the first call left, whoever signs it and whatever the
/// first call found.
pub proof fn lemma_initialize_twice(
    ctx: Initialize,
    first_authority: Address,
    second_signer: Address,
    second_authority: Address,
)
    ensures
        ({
            let first = initialize_spec(ctx, first_authority);
            let again = Initialize { signer: second_signer, ..first.0 };
            let second = initialize_spec(again, second_authority);
            &&& second.1 == Err::<(), ErrorCode>(ErrorCode::AlreadyInitialized)
            &&& second.0 == again
            &&& second.0.configuration == first.0.configuration
        }),
{
}

/// An `update_config` by anyone but the owner fails with `PermissionDenied`
/// and leaves the owner, the update authority and the counter as they were.
pub proof fn lemma_update_config_denied(ctx: UpdateConfig, update_authority: Address)
    requires
        ctx.signer@ != ctx.configuration.data.owner@,
    ensures
        update_config_spec(ctx, update_authority).1 == Err::<(), ErrorCode>(
            ErrorCode::PermissionDenied,
        ),
        update_config_spec(ctx, update_authority).0 == ctx,
{
}

/// After a successful `update_config` the signer is the owner, so a different
/// signer is refused until the owner hands the registry over.
pub proof fn lemma_update_config_keeps_gate(
    ctx: UpdateConfig,
    update_authority: Address,
    other: Address,
    other_authority: Address,
)
    requires
        ctx.configuration.data.authorizes(ctx.signer),
        other@ != ctx.signer@,
    ensures
        ({
            let first = update_config_spec(ctx, update_authority);
            let second = update_config_spec(
                UpdateConfig { signer: other, ..first.0 },
                other_authority,
            );
            &&& first.1 == Ok::<(), ErrorCode>(())
            &&& first.0.configuration.data.update_authority == update_authority
            &&& first.0.configuration.data.nft_count == ctx.configuration.data.nft_count
            &&& second.1 == Err::<(), ErrorCode>(ErrorCode::PermissionDenied)
            &&& second.0.configuration == first.0.configuration
        }),
{
}

} // verus!
