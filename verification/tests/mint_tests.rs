use nft_mint::address::Address;
use nft_mint::error::ErrorCode;
use nft_mint::mint::{
    creators_of_mint, minting_nft, plan_mint, Invocation, MintSession, MintStage, MintingNFT,
    SigningCapability,
};
use nft_mint::protocol::{
    create_master_edition_instruction, create_metadata_account_instruction,
    update_metadata_account_instruction, AccountMeta, Creator, Data,
};
use nft_mint::registry::{Account, Configuration};

const TOKEN_METADATA_PROGRAM: [u8; 32] = [
    11, 112, 101, 177, 227, 209, 124, 69, 56, 157, 82, 127, 107, 4, 195, 205, 88, 184, 108, 115,
    26, 160, 253, 181, 73, 182, 209, 188, 3, 248, 41, 70,
];

const METADATA_OF_TOKEN_7: [u8; 32] = [
    13, 130, 168, 112, 197, 107, 179, 32, 182, 35, 51, 58, 179, 210, 231, 163, 250, 243, 99, 63,
    216, 165, 52, 36, 61, 1, 169, 32, 93, 100, 21, 127,
];

const EDITION_OF_TOKEN_7: [u8; 32] = [
    206, 219, 68, 126, 94, 18, 214, 226, 7, 246, 232, 23, 120, 100, 187, 109, 94, 39, 4, 112, 138,
    141, 115, 92, 11, 101, 142, 44, 189, 156, 21, 247,
];

const OWNER: u8 = 1;
const AUTHORITY: u8 = 2;
const REGISTRY: u8 = 50;
const TOKEN_PROGRAM: u8 = 51;
const RENT: u8 = 52;
const CLOCK: u8 = 53;
const SYSTEM_PROGRAM: u8 = 0;

fn address(byte: u8) -> Address {
    Address::new([byte; 32])
}

fn writable(pubkey: Address, is_signer: bool) -> AccountMeta {
    AccountMeta { pubkey, is_signer, is_writable: true }
}

fn readonly(pubkey: Address, is_signer: bool) -> AccountMeta {
    AccountMeta { pubkey, is_signer, is_writable: false }
}

/// The accounts of a mint of the token `[token; 32]` by `[signer; 32]`,
/// with the metadata and master-edition accounts at their derived addresses
/// where the token is `[7; 32]`.
fn accounts_of(signer: u8, token: u8, nft_count: u64) -> MintingNFT {
    MintingNFT {
        signer: address(signer),
        configuration: Account {
            key: address(REGISTRY),
            data: Configuration {
                owner: address(OWNER),
                update_authority: address(AUTHORITY),
                nft_count,
            },
        },
        mint: address(token),
        metadata: Address::new(METADATA_OF_TOKEN_7),
        masteredition: Address::new(EDITION_OF_TOKEN_7),
        token_metadata_program: Address::new(TOKEN_METADATA_PROGRAM),
        token_program: address(TOKEN_PROGRAM),
        system_program: address(SYSTEM_PROGRAM),
        clock: address(CLOCK),
        rent: address(RENT),
    }
}

fn text(s: &str) -> String {
    s.to_string()
}

/// A stand-in for the ledger and the token-metadata program: it knows which
/// accounts exist and refuses to create one twice.
struct Ledger {
    existing: Vec<Address>,
    performed: Vec<u8>,
}

impl Ledger {
    fn new() -> Ledger {
        Ledger { existing: Vec::new(), performed: Vec::new() }
    }

    fn invoke_signed(&mut self, invocation: &Invocation) -> bool {
        let instruction = &invocation.instruction;
        let target = instruction.accounts[0].pubkey;
        let allowed = match instruction.data[0] {
            33 => !self.existing.contains(&target),
            17 => {
                !self.existing.contains(&target)
                    && self.existing.contains(&instruction.accounts[5].pubkey)
            }
            15 => self.existing.contains(&target),
            _ => false,
        };
        if allowed {
            self.performed.push(instruction.data[0]);
            if !self.existing.contains(&target) {
                self.existing.push(target);
            }
        }
        allowed
    }
}

/// Runs a whole mint against the stand-in ledger, as the hosting program does.
fn mint(ledger: &mut Ledger, ctx: &mut MintingNFT, name: &str, symbol: &str, uri: &str) -> Result<(), ErrorCode> {
    let mut session = minting_nft(ctx, 255, text(name), text(symbol), text(uri))?;
    loop {
        let succeeded = match session.pending() {
            Some(invocation) => ledger.invoke_signed(invocation),
            None => break,
        };
        session.record(ctx, succeeded);
    }
    session.outcome().unwrap()
}

fn started(ctx: &MintingNFT) -> MintSession {
    minting_nft(ctx, 255, text("Name"), text("SYM"), text("uri://x")).unwrap()
}

fn create_metadata_payload() -> Vec<u8> {
    let mut data: Vec<u8> = vec![33];
    data.extend_from_slice(&[4, 0, 0, 0]);
    data.extend_from_slice(b"Name");
    data.extend_from_slice(&[3, 0, 0, 0]);
    data.extend_from_slice(b"SYM");
    data.extend_from_slice(&[7, 0, 0, 0]);
    data.extend_from_slice(b"uri://x");
    data.extend_from_slice(&[244, 1]);
    data.extend_from_slice(&[1, 2, 0, 0, 0]);
    data.extend_from_slice(&[REGISTRY; 32]);
    data.extend_from_slice(&[1, 0]);
    data.extend_from_slice(&[OWNER; 32]);
    data.extend_from_slice(&[0, 100]);
    data.extend_from_slice(&[0, 0, 1, 0]);
    data
}

#[test]
fn mint_succeeds_once_and_fails_on_the_same_token() {
    let mut ledger = Ledger::new();
    let mut ctx = accounts_of(OWNER, 7, 0);
    assert_eq!(mint(&mut ledger, &mut ctx, "Name", "SYM", "uri://x"), Ok(()));
    assert_eq!(ctx.configuration.data.nft_count, 1);
    assert_eq!(ledger.performed, vec![33, 17, 15]);

    let after_first = ctx;
    assert_eq!(
        mint(&mut ledger, &mut ctx, "Name", "SYM", "uri://x"),
        Err(ErrorCode::ExternalProtocolFailure)
    );
    assert_eq!(ctx.configuration.data.nft_count, 1);
    assert_eq!(ctx, after_first);
    assert_eq!(ledger.performed, vec![33, 17, 15]);
}

#[test]
fn successful_mint_counts_one_and_keeps_owner_and_authority() {
    let mut ledger = Ledger::new();
    let mut ctx = accounts_of(OWNER, 7, 41);
    assert_eq!(mint(&mut ledger, &mut ctx, "Name", "SYM", "uri://x"), Ok(()));
    assert_eq!(ctx.configuration.data.nft_count, 42);
    assert_eq!(ctx.configuration.data.owner, address(OWNER));
    assert_eq!(ctx.configuration.data.update_authority, address(AUTHORITY));
    assert_eq!(ctx.configuration.key, address(REGISTRY));

    let mut other = accounts_of(OWNER, 9, 42);
    other.metadata = address(90);
    other.masteredition = address(91);
    assert_eq!(mint(&mut ledger, &mut other, "Other", "OTH", "uri://y"), Ok(()));
    assert_eq!(other.configuration.data.nft_count, 43);
}

#[test]
fn mint_by_stranger_is_denied_before_any_sub_invocation() {
    let mut ledger = Ledger::new();
    let mut ctx = accounts_of(8, 7, 5);
    let before = ctx;
    assert_eq!(
        mint(&mut ledger, &mut ctx, "Name", "SYM", "uri://x"),
        Err(ErrorCode::PermissionDenied)
    );
    assert_eq!(ctx, before);
    assert_eq!(ctx.configuration.data.nft_count, 5);
    assert!(ledger.performed.is_empty());
    assert_eq!(
        minting_nft(&ctx, 255, text("Name"), text("SYM"), text("uri://x")),
        Err(ErrorCode::PermissionDenied)
    );
}

#[test]
fn stranger_is_denied_whatever_the_token_and_the_texts() {
    for token in [0u8, 7, 255] {
        let ctx = accounts_of(8, token, 5);
        let result = minting_nft(&ctx, token, text(""), "x".repeat(70_000), text("uri"));
        assert_eq!(result, Err(ErrorCode::PermissionDenied));
        assert_eq!(ctx, accounts_of(8, token, 5));
    }
}

#[test]
fn mint_starts_with_the_metadata_account_pending() {
    let ctx = accounts_of(OWNER, 7, 0);
    let session = started(&ctx);
    assert_eq!(session.stage, MintStage::CreateMetadata);
    assert_eq!(session.pending(), Some(&session.create_metadata));
    assert_eq!(session.outcome(), None);
    assert_eq!(ctx, accounts_of(OWNER, 7, 0));
}

#[test]
fn create_metadata_step_is_laid_out_exactly() {
    let ctx = accounts_of(OWNER, 7, 0);
    let step = started(&ctx).create_metadata;
    let metadata = Address::new(METADATA_OF_TOKEN_7);
    assert_eq!(step.instruction.program_id, Address::new(TOKEN_METADATA_PROGRAM));
    assert_eq!(
        step.instruction.accounts,
        vec![
            writable(metadata, false),
            readonly(address(7), false),
            readonly(address(OWNER), true),
            writable(address(OWNER), true),
            readonly(address(REGISTRY), true),
            readonly(address(SYSTEM_PROGRAM), false),
            readonly(address(RENT), false),
        ]
    );
    assert_eq!(step.instruction.data, create_metadata_payload());
    assert_eq!(
        step.accounts,
        vec![
            metadata,
            address(7),
            address(OWNER),
            address(REGISTRY),
            Address::new(TOKEN_METADATA_PROGRAM),
            address(TOKEN_PROGRAM),
            address(SYSTEM_PROGRAM),
            address(RENT),
        ]
    );
    assert_eq!(step.signer, SigningCapability { seed: b"mint".to_vec(), nonce: 255 });
}

#[test]
fn create_master_edition_step_allows_no_printable_copy() {
    let ctx = accounts_of(OWNER, 7, 0);
    let step = started(&ctx).create_master_edition;
    let metadata = Address::new(METADATA_OF_TOKEN_7);
    let edition = Address::new(EDITION_OF_TOKEN_7);
    assert_eq!(step.instruction.program_id, Address::new(TOKEN_METADATA_PROGRAM));
    assert_eq!(
        step.instruction.accounts,
        vec![
            writable(edition, false),
            writable(address(7), false),
            readonly(address(REGISTRY), true),
            readonly(address(OWNER), true),
            writable(address(OWNER), true),
            writable(metadata, false),
            readonly(address(TOKEN_PROGRAM), false),
            readonly(address(SYSTEM_PROGRAM), false),
            readonly(address(RENT), false),
        ]
    );
    assert_eq!(step.instruction.data, vec![17, 1, 0, 0, 0, 0, 0, 0, 0, 0]);
    assert_eq!(
        step.accounts,
        vec![
            edition,
            metadata,
            address(7),
            address(OWNER),
            address(REGISTRY),
            Address::new(TOKEN_METADATA_PROGRAM),
            address(TOKEN_PROGRAM),
            address(SYSTEM_PROGRAM),
            address(RENT),
        ]
    );
    assert_eq!(step.signer, SigningCapability { seed: b"mint".to_vec(), nonce: 255 });
}

#[test]
fn update_metadata_step_hands_over_to_the_recorded_authority() {
    let ctx = accounts_of(OWNER, 7, 0);
    let step = started(&ctx).update_metadata;
    let metadata = Address::new(METADATA_OF_TOKEN_7);
    assert_eq!(step.instruction.program_id, Address::new(TOKEN_METADATA_PROGRAM));
    assert_eq!(
        step.instruction.accounts,
        vec![writable(metadata, false), readonly(address(REGISTRY), true)]
    );
    let mut data: Vec<u8> = vec![15, 0, 1];
    data.extend_from_slice(&[AUTHORITY; 32]);
    data.extend_from_slice(&[1, 1, 0]);
    assert_eq!(step.instruction.data, data);
    assert_eq!(
        step.accounts,
        vec![
            Address::new(TOKEN_METADATA_PROGRAM),
            metadata,
            address(OWNER),
            address(REGISTRY),
        ]
    );
    assert_eq!(step.signer, SigningCapability { seed: b"mint".to_vec(), nonce: 255 });
}

#[test]
fn mint_exposes_no_print_edition_operation() {
    let ctx = accounts_of(OWNER, 7, 0);
    let mut session = started(&ctx);
    let mut ctx = ctx;
    let mut operations: Vec<u8> = Vec::new();
    loop {
        let operation = match session.pending() {
            Some(invocation) => invocation.instruction.data[0],
            None => break,
        };
        operations.push(operation);
        session.record(&mut ctx, true);
    }
    assert_eq!(operations, vec![33, 17, 15]);
    assert_eq!(session.create_master_edition.instruction.data[1..], [1, 0, 0, 0, 0, 0, 0, 0, 0]);
}

#[test]
fn nonce_of_the_caller_goes_into_every_step() {
    let ctx = accounts_of(OWNER, 7, 0);
    let session = minting_nft(&ctx, 9, text("a"), text("b"), text("c")).unwrap();
    assert_eq!(session.create_metadata.signer.nonce, 9);
    assert_eq!(session.create_master_edition.signer.nonce, 9);
    assert_eq!(session.update_metadata.signer.nonce, 9);
    assert_eq!(session.update_metadata.signer.seeds(), vec![b"mint".to_vec(), vec![9u8]]);
    assert_eq!(SigningCapability::registry(254).seeds(), vec![vec![109, 105, 110, 116], vec![254]]);
}

#[test]
fn failure_of_the_first_step_ends_the_mint() {
    let mut ctx = accounts_of(OWNER, 7, 3);
    let mut session = started(&ctx);
    session.record(&mut ctx, false);
    assert_eq!(session.stage, MintStage::Failed);
    assert_eq!(session.pending(), None);
    assert_eq!(session.outcome(), Some(Err(ErrorCode::ExternalProtocolFailure)));
    assert_eq!(ctx.configuration.data.nft_count, 3);
    session.record(&mut ctx, true);
    assert_eq!(session.stage, MintStage::Failed);
    assert_eq!(ctx.configuration.data.nft_count, 3);
}

#[test]
fn failure_of_the_second_step_ends_the_mint() {
    let mut ctx = accounts_of(OWNER, 7, 3);
    let mut session = started(&ctx);
    session.record(&mut ctx, true);
    assert_eq!(session.stage, MintStage::CreateMasterEdition);
    assert_eq!(session.pending(), Some(&session.create_master_edition));
    assert_eq!(session.outcome(), None);
    session.record(&mut ctx, false);
    assert_eq!(session.stage, MintStage::Failed);
    assert_eq!(session.outcome(), Some(Err(ErrorCode::ExternalProtocolFailure)));
    assert_eq!(ctx, accounts_of(OWNER, 7, 3));
}

#[test]
fn failure_of_the_third_step_leaves_the_counter() {
    let mut ctx = accounts_of(OWNER, 7, 3);
    let mut session = started(&ctx);
    session.record(&mut ctx, true);
    session.record(&mut ctx, true);
    assert_eq!(session.stage, MintStage::UpdateMetadata);
    assert_eq!(session.pending(), Some(&session.update_metadata));
    assert_eq!(ctx.configuration.data.nft_count, 3);
    session.record(&mut ctx, false);
    assert_eq!(session.stage, MintStage::Failed);
    assert_eq!(session.outcome(), Some(Err(ErrorCode::ExternalProtocolFailure)));
    assert_eq!(ctx, accounts_of(OWNER, 7, 3));
}

#[test]
fn third_success_completes_and_counts_once() {
    let mut ctx = accounts_of(OWNER, 7, 3);
    let mut session = started(&ctx);
    let plan = session.clone();
    session.record(&mut ctx, true);
    session.record(&mut ctx, true);
    session.record(&mut ctx, true);
    assert_eq!(session.stage, MintStage::Completed);
    assert_eq!(session.pending(), None);
    assert_eq!(session.outcome(), Some(Ok(())));
    assert_eq!(ctx, accounts_of(OWNER, 7, 4));
    session.record(&mut ctx, true);
    session.record(&mut ctx, false);
    assert_eq!(session.stage, MintStage::Completed);
    assert_eq!(ctx, accounts_of(OWNER, 7, 4));
    assert_eq!(session.create_metadata, plan.create_metadata);
    assert_eq!(session.create_master_edition, plan.create_master_edition);
    assert_eq!(session.update_metadata, plan.update_metadata);
}

#[test]
fn counter_reaches_its_last_value() {
    let mut ctx = accounts_of(OWNER, 7, u64::MAX - 1);
    let mut session = started(&ctx);
    session.record(&mut ctx, true);
    session.record(&mut ctx, true);
    session.record(&mut ctx, true);
    assert_eq!(ctx.configuration.data.nft_count, u64::MAX);
}

#[test]
fn plan_takes_the_addresses_it_is_given() {
    let ctx = accounts_of(OWNER, 7, 0);
    let session = plan_mint(&ctx, 1, text("Name"), text("SYM"), text("uri://x"), address(70), address(71));
    assert_eq!(session.stage, MintStage::CreateMetadata);
    assert_eq!(session.create_metadata.instruction.accounts[0], writable(address(70), false));
    assert_eq!(session.create_master_edition.instruction.accounts[0], writable(address(71), false));
    assert_eq!(session.create_master_edition.instruction.accounts[5], writable(address(70), false));
    assert_eq!(session.update_metadata.instruction.accounts[0], writable(address(70), false));
    assert_eq!(session.create_metadata.accounts[0], Address::new(METADATA_OF_TOKEN_7));
    assert_eq!(session.create_metadata.instruction.data, create_metadata_payload());
}

#[test]
fn creators_are_the_registry_and_the_signer() {
    assert_eq!(
        creators_of_mint(&address(REGISTRY), &address(OWNER)),
        vec![
            Creator { address: address(REGISTRY), verified: true, share: 0 },
            Creator { address: address(OWNER), verified: false, share: 100 },
        ]
    );
}

#[test]
fn metadata_instruction_encodes_text_fee_and_creators() {
    let creators = vec![Creator { address: address(5), verified: false, share: 60 }];
    let instruction = create_metadata_account_instruction(
        &address(10),
        &address(11),
        &address(12),
        &address(13),
        &address(14),
        false,
        &address(15),
        &address(16),
        text("é"),
        text(""),
        text("u"),
        258,
        &creators,
        false,
    );
    assert_eq!(instruction.program_id, Address::new(TOKEN_METADATA_PROGRAM));
    assert_eq!(
        instruction.accounts,
        vec![
            writable(address(10), false),
            readonly(address(11), false),
            readonly(address(12), true),
            writable(address(13), true),
            readonly(address(14), false),
            readonly(address(15), false),
            readonly(address(16), false),
        ]
    );
    let mut data: Vec<u8> = vec![33, 2, 0, 0, 0, 0xc3, 0xa9, 0, 0, 0, 0, 1, 0, 0, 0, b'u', 2, 1];
    data.extend_from_slice(&[1, 1, 0, 0, 0]);
    data.extend_from_slice(&[5; 32]);
    data.extend_from_slice(&[0, 60]);
    data.extend_from_slice(&[0, 0, 0, 0]);
    assert_eq!(instruction.data, data);
}

#[test]
fn master_edition_instruction_encodes_the_maximum_supply() {
    let build = |max_supply| {
        create_master_edition_instruction(
            &address(10),
            &address(11),
            &address(12),
            &address(13),
            &address(14),
            &address(15),
            &address(16),
            &address(17),
            &address(18),
            max_supply,
        )
    };
    let unlimited = build(None);
    assert_eq!(unlimited.data, vec![17, 0]);
    let limited = build(Some(258));
    assert_eq!(limited.data, vec![17, 1, 2, 1, 0, 0, 0, 0, 0, 0]);
    assert_eq!(limited.program_id, Address::new(TOKEN_METADATA_PROGRAM));
    assert_eq!(
        limited.accounts,
        vec![
            writable(address(10), false),
            writable(address(11), false),
            readonly(address(12), true),
            readonly(address(13), true),
            writable(address(14), true),
            writable(address(15), false),
            readonly(address(16), false),
            readonly(address(17), false),
            readonly(address(18), false),
        ]
    );
    assert_eq!(unlimited.accounts, limited.accounts);
}

#[test]
fn update_instruction_encodes_authority_and_sale_flag() {
    let keep =
        update_metadata_account_instruction(&address(10), &address(11), None, None, None, None);
    assert_eq!(keep.data, vec![15, 0, 0, 0, 0]);
    assert_eq!(keep.accounts, vec![writable(address(10), false), readonly(address(11), true)]);
    assert_eq!(keep.program_id, Address::new(TOKEN_METADATA_PROGRAM));

    let unsold = update_metadata_account_instruction(
        &address(10),
        &address(11),
        None,
        Some(address(12)),
        Some(false),
        None,
    );
    let mut data: Vec<u8> = vec![15, 0, 1];
    data.extend_from_slice(&[12; 32]);
    data.extend_from_slice(&[1, 0, 0]);
    assert_eq!(unsold.data, data);
}

#[test]
fn update_instruction_encodes_mutability() {
    let frozen = update_metadata_account_instruction(
        &address(10),
        &address(11),
        None,
        None,
        Some(true),
        Some(false),
    );
    assert_eq!(frozen.data, vec![15, 0, 0, 1, 1, 1, 0]);
    let open =
        update_metadata_account_instruction(&address(10), &address(11), None, None, None, Some(true));
    assert_eq!(open.data, vec![15, 0, 0, 0, 1, 1]);
}

#[test]
fn update_instruction_encodes_new_data() {
    let with_creator = Data {
        name: text("Nm"),
        symbol: text("S"),
        uri: text(""),
        seller_fee_basis_points: 513,
        creators: Some(vec![Creator { address: address(5), verified: true, share: 7 }]),
    };
    let instruction = update_metadata_account_instruction(
        &address(10),
        &address(11),
        Some(with_creator),
        None,
        None,
        None,
    );
    let mut data: Vec<u8> = vec![15, 1, 2, 0, 0, 0, b'N', b'm', 1, 0, 0, 0, b'S', 0, 0, 0, 0, 1, 2];
    data.extend_from_slice(&[1, 1, 0, 0, 0]);
    data.extend_from_slice(&[5; 32]);
    data.extend_from_slice(&[1, 7]);
    data.extend_from_slice(&[0, 0]);
    data.extend_from_slice(&[0, 0, 0]);
    assert_eq!(instruction.data, data);
    assert_eq!(
        instruction.accounts,
        vec![writable(address(10), false), readonly(address(11), true)]
    );

    let without_creators = Data {
        name: text(""),
        symbol: text(""),
        uri: text("u"),
        seller_fee_basis_points: 0,
        creators: None,
    };
    let instruction = update_metadata_account_instruction(
        &address(10),
        &address(11),
        Some(without_creators),
        Some(address(12)),
        Some(true),
        Some(true),
    );
    let mut data: Vec<u8> = vec![15, 1, 0, 0, 0, 0, 0, 0, 0, 0, 1, 0, 0, 0, b'u', 0, 0, 0, 0, 0];
    data.push(1);
    data.extend_from_slice(&[12; 32]);
    data.extend_from_slice(&[1, 1, 1, 1]);
    assert_eq!(instruction.data, data);
}

#[test]
fn third_step_hands_over_no_new_data() {
    let ctx = accounts_of(OWNER, 7, 0);
    let step = started(&ctx).update_metadata;
    let expected = update_metadata_account_instruction(
        &Address::new(METADATA_OF_TOKEN_7),
        &address(REGISTRY),
        None,
        Some(address(AUTHORITY)),
        Some(true),
        None,
    );
    assert_eq!(step.instruction, expected);
    assert_eq!(step.instruction.data[..2], [15, 0]);
    assert_eq!(step.instruction.data.len(), 2 + 33 + 2 + 1);
}
