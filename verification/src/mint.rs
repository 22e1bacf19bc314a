//! Minting: three sub-invocations of the token-metadata program, in a fixed
//! order, signed for the registry, and then one step of the counter.
//!
//! The ledger performs the sub-invocations. `minting_nft` decides what they
//! are; `MintSession::pending` names the next one and `MintSession::record`
//! takes its outcome. The counter moves only when the third has succeeded.

use crate::address::{bytes_of, seed_bytes, Address};
use crate::constants::{
    NFT_MAX_SUPPLY, NFT_MINT_PDA_SEED, NFT_SELLER_FEE_BASIS_POINTS, REGISTRY_CREATOR_SHARE,
    SIGNER_CREATOR_SHARE,
};
use crate::derive::{
    master_edition_address, master_edition_address_of, metadata_address, metadata_address_of,
};
use crate::error::ErrorCode;
use crate::protocol::{
    create_master_edition, create_master_edition_data, create_master_edition_instruction,
    create_metadata_account, create_metadata_account_data, create_metadata_account_instruction,
    creator_views, update_metadata_account, update_metadata_account_data,
    update_metadata_account_instruction, utf8_len, Creator, Instruction, InstructionView,
};
use crate::registry::{Account, Configuration};
use vstd::bytes::{spec_u64_to_le_bytes, spec_u64_to_le_bytes_to_open};
use vstd::prelude::*;

verus! {

/// The accounts of `minting_nft`.
#[derive(Clone, Copy, Debug, PartialEq, Eq)]
pub struct MintingNFT {
    pub signer: Address,
    pub configuration: Account<Configuration>,
    /// The token to mint: created by the caller, still without supply.
    pub mint: Address,
    pub metadata: Address,
    pub masteredition: Address,
    pub token_metadata_program: Address,
    pub token_program: Address,
    pub system_program: Address,
    pub clock: Address,
    pub rent: Address,
}

/// The right to sign for the registry's address: the seed and the nonce that
/// the address was derived with.
#[derive(Clone, Debug, PartialEq, Eq)]
pub struct SigningCapability {
    pub seed: Vec<u8>,
    pub nonce: u8,
}

impl View for SigningCapability {
    type V = (Seq<u8>, u8);

    open spec fn view(&self) -> (Seq<u8>, u8) {
        (self.seed@, self.nonce)
    }
}

impl SigningCapability {
    /// The capability of the registry, for the nonce that the caller names.
    pub fn registry(nonce: u8) -> (capability: SigningCapability)
        ensures
            capability@ == (NFT_MINT_PDA_SEED@, nonce),
    {
        SigningCapability { seed: bytes_of(&NFT_MINT_PDA_SEED), nonce }
    }

    /// The seeds that are presented to the ledger: the seed, then the nonce
    /// as one byte.
    pub open spec fn signer_seeds(capability: (Seq<u8>, u8)) -> Seq<Seq<u8>> {
        seq![capability.0, seq![capability.1]]
    }

    /// Returns the seeds that are presented to the ledger.
    pub fn seeds(&self) -> (seeds: Vec<Vec<u8>>)
        ensures
            seed_bytes(seeds@) == Self::signer_seeds(self@),
    {
        let mut nonce: Vec<u8> = Vec::new();
        nonce.push(self.nonce);
        let mut seeds: Vec<Vec<u8>> = Vec::new();
        seeds.push(self.seed.clone());
        seeds.push(nonce);
        assert(seed_bytes(seeds@) =~= Self::signer_seeds(self@));
        seeds
    }
}

/// One sub-invocation: the instruction, the accounts handed over with it, and
/// the capability it is signed with.
#[derive(Clone, Debug, PartialEq, Eq)]
pub struct Invocation {
    pub instruction: Instruction,
    pub accounts: Vec<Address>,
    pub signer: SigningCapability,
}

/// What a sub-invocation holds.
pub struct InvocationView {
    pub instruction: InstructionView,
    pub accounts: Seq<Address>,
    pub signer: (Seq<u8>, u8),
}

impl View for Invocation {
    type V = InvocationView;

    open spec fn view(&self) -> InvocationView {
        InvocationView {
            instruction: self.instruction@,
            accounts: self.accounts@,
            signer: self.signer@,
        }
    }
}

/// How far a mint has come.
#[derive(Clone, Copy, Debug, PartialEq, Eq, Structural)]
pub enum MintStage {
    /// The metadata account is to be created.
    CreateMetadata,
    /// The metadata account exists; the master edition is to be created.
    CreateMasterEdition,
    /// Both accounts exist; the update authority and the primary-sale flag
    /// are to be set.
    UpdateMetadata,
    /// All three sub-invocations succeeded and the counter was incremented.
    Completed,
    /// A sub-invocation failed. Nothing of the mint is kept.
    Failed,
}

impl MintStage {
    /// The stage that follows when the pending sub-invocation has succeeded
    /// or failed. The two final stages stay.
    pub open spec fn after(self, succeeded: bool) -> MintStage {
        match self {
            MintStage::CreateMetadata => if succeeded {
                MintStage::CreateMasterEdition
            } else {
                MintStage::Failed
            },
            MintStage::CreateMasterEdition => if succeeded {
                MintStage::UpdateMetadata
            } else {
                MintStage::Failed
            },
            MintStage::UpdateMetadata => if succeeded {
                MintStage::Completed
            } else {
                MintStage::Failed
            },
            MintStage::Completed => MintStage::Completed,
            MintStage::Failed => MintStage::Failed,
        }
    }

    /// Is a sub-invocation pending?
    pub open spec fn in_progress(self) -> bool {
        self != MintStage::Completed && self != MintStage::Failed
    }

    /// Does this outcome finish the mint?
    pub open spec fn completes(self, succeeded: bool) -> bool {
        self == MintStage::UpdateMetadata && succeeded
    }
}

/// A mint under way: the three sub-invocations and the stage reached.
#[derive(Clone, Debug, PartialEq, Eq)]
pub struct MintSession {
    pub stage: MintStage,
    pub create_metadata: Invocation,
    pub create_master_edition: Invocation,
    pub update_metadata: Invocation,
}

/// What a mint under way holds.
pub struct MintSessionView {
    pub stage: MintStage,
    pub create_metadata: InvocationView,
    pub create_master_edition: InvocationView,
    pub update_metadata: InvocationView,
}

impl View for MintSession {
    type V = MintSessionView;

    open spec fn view(&self) -> MintSessionView {
        MintSessionView {
            stage: self.stage,
            create_metadata: self.create_metadata@,
            create_master_edition: self.create_master_edition@,
            update_metadata: self.update_metadata@,
        }
    }
}

impl MintSessionView {
    /// The sub-invocation that is pending at the stage reached, if any.
    pub open spec fn pending(self) -> Option<InvocationView> {
        match self.stage {
            MintStage::CreateMetadata => Some(self.create_metadata),
            MintStage::CreateMasterEdition => Some(self.create_master_edition),
            MintStage::UpdateMetadata => Some(self.update_metadata),
            MintStage::Completed => None,
            MintStage::Failed => None,
        }
    }

    /// The mint after the outcome of its pending sub-invocation.
    pub open spec fn after(self, succeeded: bool) -> MintSessionView {
        MintSessionView { stage: self.stage.after(succeeded), ..self }
    }
}

/// A pending sub-invocation by what it holds.
pub open spec fn pending_view(next: Option<&Invocation>) -> Option<InvocationView> {
    match next {
        Some(invocation) => Some(invocation@),
        None => None,
    }
}

/// The creators of every minted token: the registry, verified, with no
/// share; then the signer, not verified, with the whole share.
pub open spec fn mint_creators(registry: Address, signer: Address) -> Seq<Creator> {
    seq![
        Creator { address: registry, verified: true, share: REGISTRY_CREATOR_SHARE },
        Creator { address: signer, verified: false, share: SIGNER_CREATOR_SHARE },
    ]
}

/// The instruction of the first sub-invocation: create the metadata account
/// at `metadata`. The signer is mint authority and payer, the registry is
/// update authority and signs; the metadata is mutable.
pub open spec fn create_metadata_of_mint(
    ctx: MintingNFT,
    name: Seq<char>,
    symbol: Seq<char>,
    uri: Seq<char>,
    metadata: Address,
) -> InstructionView {
    create_metadata_account(
        metadata,
        ctx.mint,
        ctx.signer,
        ctx.signer,
        ctx.configuration.key,
        true,
        ctx.system_program,
        ctx.rent,
        name,
        symbol,
        uri,
        NFT_SELLER_FEE_BASIS_POINTS,
        mint_creators(ctx.configuration.key, ctx.signer),
        true,
    )
}

/// The instruction of the second sub-invocation: create the master edition at
/// `edition`, for the metadata account at `metadata`, with no printable
/// copies.
pub open spec fn create_master_edition_of_mint(
    ctx: MintingNFT,
    metadata: Address,
    edition: Address,
) -> InstructionView {
    create_master_edition(
        edition,
        ctx.mint,
        ctx.configuration.key,
        ctx.signer,
        ctx.signer,
        metadata,
        ctx.token_program,
        ctx.system_program,
        ctx.rent,
        Some(NFT_MAX_SUPPLY),
    )
}

/// The instruction of the third sub-invocation: hand the metadata's update
/// authority to the one that the registry records, and mark the primary sale
/// as happened. No new descriptive data are handed over, and the mutability
/// stays as it is.
pub open spec fn update_metadata_of_mint(ctx: MintingNFT, metadata: Address) -> InstructionView {
    update_metadata_account(
        metadata,
        ctx.configuration.key,
        None,
        Some(ctx.configuration.data.update_authority),
        Some(true),
        None,
    )
}

/// The three sub-invocations of a mint around the given instructions: the
/// accounts that are handed over with each, and the registry's capability.
pub open spec fn mint_session(
    ctx: MintingNFT,
    nonce: u8,
    create_metadata: InstructionView,
    create_master_edition: InstructionView,
    update_metadata: InstructionView,
) -> MintSessionView {
    MintSessionView {
        stage: MintStage::CreateMetadata,
        create_metadata: InvocationView {
            instruction: create_metadata,
            accounts: seq![
                ctx.metadata,
                ctx.mint,
                ctx.signer,
                ctx.configuration.key,
                ctx.token_metadata_program,
                ctx.token_program,
                ctx.system_program,
                ctx.rent,
            ],
            signer: (NFT_MINT_PDA_SEED@, nonce),
        },
        create_master_edition: InvocationView {
            instruction: create_master_edition,
            accounts: seq![
                ctx.masteredition,
                ctx.metadata,
                ctx.mint,
                ctx.signer,
                ctx.configuration.key,
                ctx.token_metadata_program,
                ctx.token_program,
                ctx.system_program,
                ctx.rent,
            ],
            signer: (NFT_MINT_PDA_SEED@, nonce),
        },
        update_metadata: InvocationView {
            instruction: update_metadata,
            accounts: seq![
                ctx.token_metadata_program,
                ctx.metadata,
                ctx.signer,
                ctx.configuration.key,
            ],
            signer: (NFT_MINT_PDA_SEED@, nonce),
        },
    }
}

/// The mint of `ctx.mint` before its first sub-invocation, with the metadata
/// and master-edition accounts at the given addresses.
pub open spec fn mint_plan(
    ctx: MintingNFT,
    nonce: u8,
    name: Seq<char>,
    symbol: Seq<char>,
    uri: Seq<char>,
    metadata: Address,
    edition: Address,
) -> MintSessionView {
    mint_session(
        ctx,
        nonce,
        create_metadata_of_mint(ctx, name, symbol, uri, metadata),
        create_master_edition_of_mint(ctx, metadata, edition),
        update_metadata_of_mint(ctx, metadata),
    )
}

/// The result of `minting_nft`: the owner is checked first, then the two
/// addresses are derived.
pub open spec fn minting_nft_spec(
    ctx: MintingNFT,
    nonce: u8,
    name: Seq<char>,
    symbol: Seq<char>,
    uri: Seq<char>,
) -> Result<MintSessionView, ErrorCode> {
    if !ctx.configuration.data.authorizes(ctx.signer) {
        Err(ErrorCode::PermissionDenied)
    } else {
        match (metadata_address_of(ctx.mint@), master_edition_address_of(ctx.mint@)) {
            (Some(metadata), Some(edition)) => Ok(
                mint_plan(
                    ctx,
                    nonce,
                    name,
                    symbol,
                    uri,
                    Address::of(metadata.0),
                    Address::of(edition.0),
                ),
            ),
            _ => Err(ErrorCode::AddressDerivationFailed),
        }
    }
}

/// A started mint by what it holds, a refusal as it is.
pub open spec fn started_view(result: Result<MintSession, ErrorCode>) -> Result<
    MintSessionView,
    ErrorCode,
> {
    match result {
        Ok(session) => Ok(session@),
        Err(error) => Err(error),
    }
}

/// Builds the creator list of a mint.
pub fn creators_of_mint(registry: &Address, signer: &Address) -> (creators: Vec<Creator>)
    ensures
        creators@ == mint_creators(*registry, *signer),
{
    let mut creators: Vec<Creator> = Vec::new();
    creators.push(Creator { address: *registry, verified: true, share: REGISTRY_CREATOR_SHARE });
    creators.push(Creator { address: *signer, verified: false, share: SIGNER_CREATOR_SHARE });
    assert(creators@ =~= mint_creators(*registry, *signer));
    creators
}

impl MintSession {
    /// Puts a mint together from its three instructions: each gets the
    /// accounts that the ledger needs for it and the registry's capability
    /// for the nonce that the caller names. The first is pending.
    pub fn assemble(
        ctx: &MintingNFT,
        nonce_config: u8,
        create_metadata: Instruction,
        create_master_edition: Instruction,
        update_metadata: Instruction,
    ) -> (session: MintSession)
        ensures
            session@ == mint_session(
                *ctx,
                nonce_config,
                create_metadata@,
                create_master_edition@,
                update_metadata@,
            ),
    {
        let registry = ctx.configuration.key;
        let ghost plan = mint_session(
            *ctx,
            nonce_config,
            create_metadata@,
            create_master_edition@,
            update_metadata@,
        );

        let mut accounts: Vec<Address> = Vec::new();
        accounts.push(ctx.metadata);
        accounts.push(ctx.mint);
        accounts.push(ctx.signer);
        accounts.push(registry);
        accounts.push(ctx.token_metadata_program);
        accounts.push(ctx.token_program);
        accounts.push(ctx.system_program);
        accounts.push(ctx.rent);
        assert(accounts@ =~= plan.create_metadata.accounts);
        let first = Invocation {
            instruction: create_metadata,
            accounts,
            signer: SigningCapability::registry(nonce_config),
        };

        let mut accounts: Vec<Address> = Vec::new();
        accounts.push(ctx.masteredition);
        accounts.push(ctx.metadata);
        accounts.push(ctx.mint);
        accounts.push(ctx.signer);
        accounts.push(registry);
        accounts.push(ctx.token_metadata_program);
        accounts.push(ctx.token_program);
        accounts.push(ctx.system_program);
        accounts.push(ctx.rent);
        assert(accounts@ =~= plan.create_master_edition.accounts);
        let second = Invocation {
            instruction: create_master_edition,
            accounts,
            signer: SigningCapability::registry(nonce_config),
        };

        let mut accounts: Vec<Address> = Vec::new();
        accounts.push(ctx.token_metadata_program);
        accounts.push(ctx.metadata);
        accounts.push(ctx.signer);
        accounts.push(registry);
        assert(accounts@ =~= plan.update_metadata.accounts);
        let third = Invocation {
            instruction: update_metadata,
            accounts,
            signer: SigningCapability::registry(nonce_config),
        };

        MintSession {
            stage: MintStage::CreateMetadata,
            create_metadata: first,
            create_master_edition: second,
            update_metadata: third,
        }
    }
}

/// Lays out the three sub-invocations of a mint whose metadata and
/// master-edition accounts are at the given addresses.
pub fn plan_mint(
    ctx: &MintingNFT,
    nonce_config: u8,
    name: String,
    symbol: String,
    uri: String,
    metadata: Address,
    edition: Address,
) -> (session: MintSession)
    requires
        utf8_len(name@) <= u32::MAX,
        utf8_len(symbol@) <= u32::MAX,
        utf8_len(uri@) <= u32::MAX,
    ensures
        session@ == mint_plan(*ctx, nonce_config, name@, symbol@, uri@, metadata, edition),
{
    let registry = ctx.configuration.key;
    let creators = creators_of_mint(&registry, &ctx.signer);
    let create_metadata = create_metadata_account_instruction(
        &metadata,
        &ctx.mint,
        &ctx.signer,
        &ctx.signer,
        &registry,
        true,
        &ctx.system_program,
        &ctx.rent,
        name,
        symbol,
        uri,
        NFT_SELLER_FEE_BASIS_POINTS,
        &creators,
        true,
    );
    let create_master_edition = create_master_edition_instruction(
        &edition,
        &ctx.mint,
        &registry,
        &ctx.signer,
        &ctx.signer,
        &metadata,
        &ctx.token_program,
        &ctx.system_program,
        &ctx.rent,
        Some(NFT_MAX_SUPPLY),
    );
    let update_metadata = update_metadata_account_instruction(
        &metadata,
        &registry,
        None,
        Some(ctx.configuration.data.update_authority),
        Some(true),
        None,
    );
    MintSession::assemble(ctx, nonce_config, create_metadata, create_master_edition, update_metadata)
}

/// Starts a mint of the token `ctx.mint`. Only the registry's owner may mint:
/// anyone else is refused whatever the texts are. For the owner the texts
/// must fit the protocol's encoding, whose lengths have 32 bits. Nothing is
/// changed yet: the result holds the sub-invocations that the ledger is to
/// perform, the first of them pending.
pub fn minting_nft(
    ctx: &MintingNFT,
    nonce_config: u8,
    name: String,
    symbol: String,
    uri: String,
) -> (result: Result<MintSession, ErrorCode>)
    requires
        ctx.configuration.data.authorizes(ctx.signer) ==> {
            &&& utf8_len(name@) <= u32::MAX
            &&& utf8_len(symbol@) <= u32::MAX
            &&& utf8_len(uri@) <= u32::MAX
        },
    ensures
        started_view(result) == minting_nft_spec(*ctx, nonce_config, name@, symbol@, uri@),
{
    match ctx.configuration.data.check(&ctx.signer) {
        Ok(()) => {},
        Err(error) => {
            return Err(error);
        },
    }
    let metadata = match metadata_address(&ctx.mint) {
        Some(found) => found.0,
        None => {
            return Err(ErrorCode::AddressDerivationFailed);
        },
    };
    let edition = match master_edition_address(&ctx.mint) {
        Some(found) => found.0,
        None => {
            return Err(ErrorCode::AddressDerivationFailed);
        },
    };
    proof {
        Address::lemma_of_view(metadata);
        Address::lemma_of_view(edition);
    }
    Ok(plan_mint(ctx, nonce_config, name, symbol, uri, metadata, edition))
}

/// The registry's record after the pending sub-invocation of a mint at
/// `stage` has succeeded or failed: the counter grows by one when the third
/// sub-invocation succeeds, and nothing else ever changes.
pub open spec fn registry_after(registry: Configuration, stage: MintStage, succeeded: bool) -> Configuration {
    if stage.completes(succeeded) {
        Configuration { nft_count: (registry.nft_count + 1) as u64, ..registry }
    } else {
        registry
    }
}

impl MintSession {
    /// The sub-invocation that the ledger is to perform now, if the mint is
    /// still under way.
    pub fn pending(&self) -> (next: Option<&Invocation>)
        ensures
            self.stage == MintStage::CreateMetadata ==> next == Some(&self.create_metadata),
            self.stage == MintStage::CreateMasterEdition ==> next == Some(
                &self.create_master_edition,
            ),
            self.stage == MintStage::UpdateMetadata ==> next == Some(&self.update_metadata),
            !self.stage.in_progress() ==> next is None,
            pending_view(next) == self@.pending(),
    {
        match self.stage {
            MintStage::CreateMetadata => Some(&self.create_metadata),
            MintStage::CreateMasterEdition => Some(&self.create_master_edition),
            MintStage::UpdateMetadata => Some(&self.update_metadata),
            MintStage::Completed => None,
            MintStage::Failed => None,
        }
    }

    /// Takes the outcome of the pending sub-invocation. A failure ends the
    /// mint; a success moves it on, and the third success increments the
    /// registry's counter. A mint that has ended stays as it is.
    pub fn record(&mut self, ctx: &mut MintingNFT, succeeded: bool)
        requires
            old(self).stage.completes(succeeded) ==> old(ctx).configuration.data.nft_count
                < u64::MAX,
        ensures
            final(self)@ == old(self)@.after(succeeded),
            *final(ctx) == (MintingNFT {
                configuration: Account {
                    key: old(ctx).configuration.key,
                    data: registry_after(old(ctx).configuration.data, old(self).stage, succeeded),
                },
                ..*old(ctx)
            }),
    {
        match self.stage {
            MintStage::CreateMetadata => {
                self.stage = if succeeded {
                    MintStage::CreateMasterEdition
                } else {
                    MintStage::Failed
                };
            },
            MintStage::CreateMasterEdition => {
                self.stage = if succeeded {
                    MintStage::UpdateMetadata
                } else {
                    MintStage::Failed
                };
            },
            MintStage::UpdateMetadata => {
                if succeeded {
                    ctx.configuration.data.nft_count = ctx.configuration.data.nft_count + 1;
                    self.stage = MintStage::Completed;
                } else {
                    self.stage = MintStage::Failed;
                }
            },
            MintStage::Completed => {},
            MintStage::Failed => {},
        }
    }

    /// How the mint ended, once it has: well, or with the failure of a
    /// sub-invocation.
    pub fn outcome(&self) -> (ended: Option<Result<(), ErrorCode>>)
        ensures
            self.stage.in_progress() ==> ended is None,
            self.stage == MintStage::Completed ==> ended == Some(Ok::<(), ErrorCode>(())),
            self.stage == MintStage::Failed ==> ended == Some(
                Err::<(), ErrorCode>(ErrorCode::ExternalProtocolFailure),
            ),
    {
        match self.stage {
            MintStage::Completed => Some(Ok(())),
            MintStage::Failed => Some(Err(ErrorCode::ExternalProtocolFailure)),
            _ => None,
        }
    }
}

/// The stage and the registry's record after the outcomes of successive
/// sub-invocations were taken, first to last.
pub open spec fn after_outcomes(stage: MintStage, registry: Configuration, outcomes: Seq<bool>) -> (
    MintStage,
    Configuration,
)
    decreases outcomes.len(),
{
    if outcomes.len() == 0 {
        (stage, registry)
    } else {
        after_outcomes(
            stage.after(outcomes[0]),
            registry_after(registry, stage, outcomes[0]),
            outcomes.drop_first(),
        )
    }
}

/// A mint that has ended takes no further outcome: stage and registry stay.
pub proof fn lemma_ended_mint_stays(stage: MintStage, registry: Configuration, outcomes: Seq<bool>)
    requires
        !stage.in_progress(),
    ensures
        after_outcomes(stage, registry, outcomes) == (stage, registry),
    decreases outcomes.len(),
{
    if outcomes.len() > 0 {
        lemma_ended_mint_stays(stage, registry, outcomes.drop_first());
    }
}

/// Where a new mint stands after its outcomes: the first three decide.
spec fn decided_by_first_three(registry: Configuration, outcomes: Seq<bool>) -> (
    MintStage,
    Configuration,
) {
    if outcomes.len() == 0 {
        (MintStage::CreateMetadata, registry)
    } else if !outcomes[0] {
        (MintStage::Failed, registry)
    } else if outcomes.len() == 1 {
        (MintStage::CreateMasterEdition, registry)
    } else if !outcomes[1] {
        (MintStage::Failed, registry)
    } else if outcomes.len() == 2 {
        (MintStage::UpdateMetadata, registry)
    } else if !outcomes[2] {
        (MintStage::Failed, registry)
    } else {
        (MintStage::Completed, registry_after(registry, MintStage::UpdateMetadata, true))
    }
}

proof fn lemma_first_three_decide(registry: Configuration, outcomes: Seq<bool>)
    ensures
        after_outcomes(MintStage::CreateMetadata, registry, outcomes) == decided_by_first_three(
            registry,
            outcomes,
        ),
{
    reveal_with_fuel(after_outcomes, 4);
    if outcomes.len() >= 1 {
        let first = outcomes.drop_first();
        if !outcomes[0] {
            lemma_ended_mint_stays(MintStage::Failed, registry, first);
        } else if first.len() >= 1 {
            let second = first.drop_first();
            if !first[0] {
                lemma_ended_mint_stays(MintStage::Failed, registry, second);
            } else if second.len() >= 1 {
                let third = second.drop_first();
                let stage = MintStage::UpdateMetadata.after(second[0]);
                let counted = registry_after(registry, MintStage::UpdateMetadata, second[0]);
                lemma_ended_mint_stays(stage, counted, third);
            }
        }
    }
}

/// A mint completes exactly when its first three sub-invocations succeed. A
/// completed mint has incremented the counter by exactly one; any other
/// leaves the registry as it was. Owner and update authority never change.
pub proof fn lemma_mint_counts_once(registry: Configuration, outcomes: Seq<bool>)
    requires
        registry.nft_count < u64::MAX,
    ensures
        ({
            let end = after_outcomes(MintStage::CreateMetadata, registry, outcomes);
            &&& end.0 == MintStage::Completed <==> outcomes.len() >= 3 && outcomes[0]
                && outcomes[1] && outcomes[2]
            &&& end.0 == MintStage::Completed ==> end.1.nft_count == registry.nft_count + 1
            &&& end.0 != MintStage::Completed ==> end.1 == registry
            &&& end.1.owner == registry.owner
            &&& end.1.update_authority == registry.update_authority
        }),
{
    lemma_first_three_decide(registry, outcomes);
}

/// A mint fails exactly when one of its first three sub-invocations fails
/// after all before it succeeded, and then no later one is pending.
pub proof fn lemma_mint_fails_on_first_failure(registry: Configuration, outcomes: Seq<bool>)
    ensures
        ({
            let end = after_outcomes(MintStage::CreateMetadata, registry, outcomes);
            end.0 == MintStage::Failed <==> {
                ||| outcomes.len() >= 1 && !outcomes[0]
                ||| outcomes.len() >= 2 && outcomes[0] && !outcomes[1]
                ||| outcomes.len() >= 3 && outcomes[0] && outcomes[1] && !outcomes[2]
            }
        }),
{
    lemma_first_three_decide(registry, outcomes);
}

/// The sub-invocations of a mint come in one order: the metadata account, the
/// master edition, the update of the metadata, and then none. Each is pending
/// only after all before it succeeded, and after a failure none is pending.
pub proof fn lemma_mint_order(session: MintSessionView)
    requires
        session.stage == MintStage::CreateMetadata,
    ensures
        session.pending() == Some(session.create_metadata),
        session.after(true).pending() == Some(session.create_master_edition),
        session.after(true).after(true).pending() == Some(session.update_metadata),
        session.after(true).after(true).after(true).pending() is None,
        session.after(true).after(true).after(true).stage == MintStage::Completed,
        session.after(false).pending() is None,
        session.after(true).after(false).pending() is None,
        session.after(true).after(true).after(false).pending() is None,
        forall|succeeded: bool|
            session.after(true).after(true).after(true).after(succeeded).pending() is None,
{
}

/// What a mint hands to the token-metadata program, whatever the texts. The
/// creators are the registry, verified, with share 0, then the signer, not
/// verified, with share 100; the seller fee is 500 basis points and the
/// metadata is mutable. The master edition allows no printable copy: its
/// payload is the number 17 and a maximum supply of zero. The last
/// sub-invocation, number 15, hands over no new data, sets the update
/// authority that the registry records, marks the primary sale as happened
/// and leaves the mutability as it is.
pub proof fn lemma_mint_attributes(
    ctx: MintingNFT,
    nonce: u8,
    name: Seq<char>,
    symbol: Seq<char>,
    uri: Seq<char>,
    metadata: Address,
    edition: Address,
)
    ensures
        ({
            let plan = mint_plan(ctx, nonce, name, symbol, uri, metadata, edition);
            &&& plan.create_metadata.instruction.data == create_metadata_account_data(
                name,
                symbol,
                uri,
                500,
                seq![(ctx.configuration.key@, true, 0u8), (ctx.signer@, false, 100u8)],
                true,
            )
            &&& plan.create_master_edition.instruction.data == create_master_edition_data(
                Some(0u64),
            )
            &&& plan.create_master_edition.instruction.data == seq![
                17u8,
                1u8,
                0u8,
                0u8,
                0u8,
                0u8,
                0u8,
                0u8,
                0u8,
                0u8,
            ]
            &&& plan.update_metadata.instruction.data == update_metadata_account_data(
                None,
                Some(ctx.configuration.data.update_authority@),
                Some(true),
                None,
            )
            &&& plan.update_metadata.instruction.data == seq![15u8, 0u8, 1u8]
                + ctx.configuration.data.update_authority@ + seq![1u8, 1u8, 0u8]
        }),
{
    assert(creator_views(mint_creators(ctx.configuration.key, ctx.signer)) =~= seq![
        (ctx.configuration.key@, true, 0u8),
        (ctx.signer@, false, 100u8),
    ]);
    spec_u64_to_le_bytes_to_open(0u64);
    assert(0u64 & 0xff == 0 && (0u64 >> 8) & 0xff == 0 && (0u64 >> 16) & 0xff == 0 && (0u64 >> 24)
        & 0xff == 0 && (0u64 >> 32) & 0xff == 0 && (0u64 >> 40) & 0xff == 0 && (0u64 >> 48) & 0xff
        == 0 && (0u64 >> 56) & 0xff == 0) by (bit_vector);
    assert(spec_u64_to_le_bytes(0u64) =~= seq![0u8, 0u8, 0u8, 0u8, 0u8, 0u8, 0u8, 0u8]);
    assert(create_master_edition_data(Some(0u64)) =~= seq![
        17u8,
        1u8,
        0u8,
        0u8,
        0u8,
        0u8,
        0u8,
        0u8,
        0u8,
        0u8,
    ]);
    assert(update_metadata_account_data(
        None,
        Some(ctx.configuration.data.update_authority@),
        Some(true),
        None,
    ) =~= seq![15u8, 0u8, 1u8] + ctx.configuration.data.update_authority@ + seq![1u8, 1u8, 0u8]);
}

/// A mint by anyone but the owner is refused with `PermissionDenied`, whatever
/// the token, the texts and the nonce. No mint is started, so there is no
/// sub-invocation to perform and no outcome that could move the counter: the
/// registry stays as it was.
pub proof fn lemma_mint_denied(
    ctx: MintingNFT,
    nonce: u8,
    name: Seq<char>,
    symbol: Seq<char>,
    uri: Seq<char>,
)
    requires
        ctx.signer@ != ctx.configuration.data.owner@,
    ensures
        minting_nft_spec(ctx, nonce, name, symbol, uri) == Err::<MintSessionView, ErrorCode>(
            ErrorCode::PermissionDenied,
        ),
        forall|result: Result<MintSession, ErrorCode>|
            started_view(result) == minting_nft_spec(ctx, nonce, name, symbol, uri) ==> result
                == Err::<MintSession, ErrorCode>(ErrorCode::PermissionDenied),
{
}

/// A mint by the owner, whatever the token, the texts and the nonce: it
/// starts unless an address cannot be derived; it starts with the metadata
/// account pending; and when its three sub-invocations succeed it is
/// completed, the counter is one more, and owner and update authority are as
/// they were.
pub proof fn lemma_mint_of_owner(
    ctx: MintingNFT,
    nonce: u8,
    name: Seq<char>,
    symbol: Seq<char>,
    uri: Seq<char>,
)
    requires
        ctx.configuration.data.authorizes(ctx.signer),
        ctx.configuration.data.nft_count < u64::MAX,
    ensures
        match minting_nft_spec(ctx, nonce, name, symbol, uri) {
            Ok(plan) => {
                let end = after_outcomes(plan.stage, ctx.configuration.data, seq![true, true, true]);
                &&& plan.stage == MintStage::CreateMetadata
                &&& plan.pending() == Some(plan.create_metadata)
                &&& end.0 == MintStage::Completed
                &&& end.1.nft_count == ctx.configuration.data.nft_count + 1
                &&& end.1.owner == ctx.configuration.data.owner
                &&& end.1.update_authority == ctx.configuration.data.update_authority
            },
            Err(error) => error == ErrorCode::AddressDerivationFailed,
        },
{
    lemma_mint_counts_once(ctx.configuration.data, seq![true, true, true]);
}

} // verus!
