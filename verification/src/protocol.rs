//! The token-metadata protocol as this program sees it: the instructions it
//! hands to that program, built by the protocol's own client library.

use crate::address::Address;
use mpl_token_metadata::instructions::{
    CreateMasterEditionV3, CreateMasterEditionV3InstructionArgs, CreateMetadataAccountV3,
    CreateMetadataAccountV3InstructionArgs, UpdateMetadataAccountV2,
    UpdateMetadataAccountV2InstructionArgs,
};
use mpl_token_metadata::types::{Creator as ProtocolCreator, DataV2};
use vstd::bytes::spec_u64_to_le_bytes;
use vstd::prelude::*;
use vstd::utf8::encode_utf8;

verus! {

/// An account that an instruction touches, and how.
#[derive(Clone, Copy, Debug, PartialEq, Eq)]
pub struct AccountMeta {
    pub pubkey: Address,
    pub is_signer: bool,
    pub is_writable: bool,
}

/// An instruction for a program on the ledger.
#[derive(Clone, Debug, PartialEq, Eq)]
pub struct Instruction {
    pub program_id: Address,
    pub accounts: Vec<AccountMeta>,
    pub data: Vec<u8>,
}

/// What an instruction holds: the bytes of the program's address, the
/// accounts in order, and the payload.
pub struct InstructionView {
    pub program_id: Seq<u8>,
    pub accounts: Seq<AccountMeta>,
    pub data: Seq<u8>,
}

impl View for Instruction {
    type V = InstructionView;

    open spec fn view(&self) -> InstructionView {
        InstructionView { program_id: self.program_id@, accounts: self.accounts@, data: self.data@ }
    }
}

/// An identity credited on a token's metadata, with its share in percent.
#[derive(Clone, Copy, Debug, PartialEq, Eq)]
pub struct Creator {
    pub address: Address,
    pub verified: bool,
    pub share: u8,
}

impl View for Creator {
    type V = (Seq<u8>, bool, u8);

    open spec fn view(&self) -> (Seq<u8>, bool, u8) {
        (self.address@, self.verified, self.share)
    }
}

/// The views of a list of creators.
pub open spec fn creator_views(creators: Seq<Creator>) -> Seq<(Seq<u8>, bool, u8)> {
    creators.map_values(|creator: Creator| creator@)
}

/// The descriptive data of a metadata account.
#[derive(Clone, Debug, PartialEq, Eq)]
pub struct Data {
    pub name: String,
    pub symbol: String,
    pub uri: String,
    pub seller_fee_basis_points: u16,
    pub creators: Option<Vec<Creator>>,
}

/// What descriptive data hold.
pub struct DataView {
    pub name: Seq<char>,
    pub symbol: Seq<char>,
    pub uri: Seq<char>,
    pub seller_fee_basis_points: u16,
    pub creators: Option<Seq<(Seq<u8>, bool, u8)>>,
}

impl View for Data {
    type V = DataView;

    open spec fn view(&self) -> DataView {
        DataView {
            name: self.name@,
            symbol: self.symbol@,
            uri: self.uri@,
            seller_fee_basis_points: self.seller_fee_basis_points,
            creators: match self.creators {
                Some(creators) => Some(creator_views(creators@)),
                None => None,
            },
        }
    }
}

impl DataView {
    /// Do the texts and the creator list fit the encoding's 32-bit lengths?
    pub open spec fn encodable(self) -> bool {
        &&& utf8_len(self.name) <= u32::MAX
        &&& utf8_len(self.symbol) <= u32::MAX
        &&& utf8_len(self.uri) <= u32::MAX
        &&& self.creators matches Some(creators) ==> creators.len() <= u32::MAX
    }

    /// The bytes of the data inside an instruction's payload.
    pub open spec fn encoded(self) -> Seq<u8> {
        new_metadata_data(
            self.name,
            self.symbol,
            self.uri,
            self.seller_fee_basis_points,
            self.creators,
        )
    }
}

/// Optional descriptive data by the bytes that stand for them in a payload.
pub open spec fn optional_data(data: Option<DataView>) -> Option<Seq<u8>> {
    match data {
        Some(data) => Some(data.encoded()),
        None => None,
    }
}

/// An account that the instruction may write to.
pub open spec fn writable(pubkey: Address, is_signer: bool) -> AccountMeta {
    AccountMeta { pubkey, is_signer, is_writable: true }
}

/// An account that the instruction only reads.
pub open spec fn readonly(pubkey: Address, is_signer: bool) -> AccountMeta {
    AccountMeta { pubkey, is_signer, is_writable: false }
}

/// The address of the token-metadata program,
/// `metaqbxxUerdq28cj1RbAWkYQm3ybzjb6a8bt518x1s`.
pub open spec fn token_metadata_program() -> Seq<u8> {
    seq![
        11u8, 112, 101, 177, 227, 209, 124, 69, 56, 157, 82, 127, 107, 4, 195, 205,
        88, 184, 108, 115, 26, 160, 253, 181, 73, 182, 209, 188, 3, 248, 41, 70,
    ]
}

/// The number of bytes of a text in UTF-8.
pub open spec fn utf8_len(text: Seq<char>) -> nat {
    encode_utf8(text).len()
}

/// The payload of a "create metadata account" instruction, as the protocol's
/// client library encodes these arguments.
pub uninterp spec fn create_metadata_account_data(
    name: Seq<char>,
    symbol: Seq<char>,
    uri: Seq<char>,
    seller_fee_basis_points: u16,
    creators: Seq<(Seq<u8>, bool, u8)>,
    is_mutable: bool,
) -> Seq<u8>;

/// An optional value as the protocol encodes it: one byte that says whether
/// the value is there, then the value's bytes.
pub open spec fn optional_bytes(value: Option<Seq<u8>>) -> Seq<u8> {
    match value {
        Some(bytes) => seq![1u8] + bytes,
        None => seq![0u8],
    }
}

/// An optional flag as the protocol encodes it.
pub open spec fn optional_flag(flag: Option<bool>) -> Seq<u8> {
    match flag {
        Some(true) => seq![1u8, 1u8],
        Some(false) => seq![1u8, 0u8],
        None => seq![0u8],
    }
}

/// An optional address by its bytes.
pub open spec fn optional_address(address: Option<Address>) -> Option<Seq<u8>> {
    match address {
        Some(address) => Some(address@),
        None => None,
    }
}

/// The payload of a "create master edition" instruction: the operation's
/// number, 17, then the optional maximum supply in little-endian order.
pub open spec fn create_master_edition_data(max_supply: Option<u64>) -> Seq<u8> {
    seq![17u8] + optional_bytes(
        match max_supply {
            Some(supply) => Some(spec_u64_to_le_bytes(supply)),
            None => None,
        },
    )
}

/// The bytes of new descriptive data inside the payload of an "update
/// metadata account" instruction, as the protocol's client library encodes
/// them.
pub uninterp spec fn new_metadata_data(
    name: Seq<char>,
    symbol: Seq<char>,
    uri: Seq<char>,
    seller_fee_basis_points: u16,
    creators: Option<Seq<(Seq<u8>, bool, u8)>>,
) -> Seq<u8>;

/// The payload of an "update metadata account" instruction: the operation's
/// number, 15, then the optional new data by its bytes, the optional new
/// update authority, the optional primary-sale flag and the optional
/// mutability.
pub open spec fn update_metadata_account_data(
    new_data: Option<Seq<u8>>,
    new_update_authority: Option<Seq<u8>>,
    primary_sale_happened: Option<bool>,
    is_mutable: Option<bool>,
) -> Seq<u8> {
    seq![15u8] + optional_bytes(new_data) + optional_bytes(new_update_authority) + optional_flag(
        primary_sale_happened,
    ) + optional_flag(is_mutable)
}

/// The accounts of a "create metadata account" instruction, in order.
pub open spec fn create_metadata_account_accounts(
    metadata: Address,
    mint: Address,
    mint_authority: Address,
    payer: Address,
    update_authority: Address,
    update_authority_is_signer: bool,
    system_program: Address,
    rent: Address,
) -> Seq<AccountMeta> {
    seq![
        writable(metadata, false),
        readonly(mint, false),
        readonly(mint_authority, true),
        writable(payer, true),
        readonly(update_authority, update_authority_is_signer),
        readonly(system_program, false),
        readonly(rent, false),
    ]
}

/// The accounts of a "create master edition" instruction, in order.
pub open spec fn create_master_edition_accounts(
    edition: Address,
    mint: Address,
    update_authority: Address,
    mint_authority: Address,
    payer: Address,
    metadata: Address,
    token_program: Address,
    system_program: Address,
    rent: Address,
) -> Seq<AccountMeta> {
    seq![
        writable(edition, false),
        writable(mint, false),
        readonly(update_authority, true),
        readonly(mint_authority, true),
        writable(payer, true),
        writable(metadata, false),
        readonly(token_program, false),
        readonly(system_program, false),
        readonly(rent, false),
    ]
}

/// The accounts of an "update metadata account" instruction, in order.
pub open spec fn update_metadata_account_accounts(
    metadata: Address,
    update_authority: Address,
) -> Seq<AccountMeta> {
    seq![writable(metadata, false), readonly(update_authority, true)]
}

/// An account as the protocol's client library reports it: the bytes of its
/// address, whether it signs, whether it may be written to.
spec fn raw_meta(meta: AccountMeta) -> ([u8; 32], bool, bool) {
    (meta.pubkey.bytes, meta.is_signer, meta.is_writable)
}

/// A creator as the protocol's client library takes it.
spec fn raw_creator(creator: Creator) -> ([u8; 32], bool, u8) {
    (creator.address.bytes, creator.verified, creator.share)
}

/// The views of creators given as plain values.
spec fn raw_creator_views(creators: Seq<([u8; 32], bool, u8)>) -> Seq<(Seq<u8>, bool, u8)> {
    creators.map_values(|creator: ([u8; 32], bool, u8)| (creator.0@, creator.1, creator.2))
}

/// The "create metadata account" instruction for these accounts and arguments.
pub open spec fn create_metadata_account(
    metadata: Address,
    mint: Address,
    mint_authority: Address,
    payer: Address,
    update_authority: Address,
    update_authority_is_signer: bool,
    system_program: Address,
    rent: Address,
    name: Seq<char>,
    symbol: Seq<char>,
    uri: Seq<char>,
    seller_fee_basis_points: u16,
    creators: Seq<Creator>,
    is_mutable: bool,
) -> InstructionView {
    InstructionView {
        program_id: token_metadata_program(),
        accounts: create_metadata_account_accounts(
            metadata,
            mint,
            mint_authority,
            payer,
            update_authority,
            update_authority_is_signer,
            system_program,
            rent,
        ),
        data: create_metadata_account_data(
            name,
            symbol,
            uri,
            seller_fee_basis_points,
            creator_views(creators),
            is_mutable,
        ),
    }
}

/// The "create master edition" instruction for these accounts and this
/// maximum supply.
pub open spec fn create_master_edition(
    edition: Address,
    mint: Address,
    update_authority: Address,
    mint_authority: Address,
    payer: Address,
    metadata: Address,
    token_program: Address,
    system_program: Address,
    rent: Address,
    max_supply: Option<u64>,
) -> InstructionView {
    InstructionView {
        program_id: token_metadata_program(),
        accounts: create_master_edition_accounts(
            edition,
            mint,
            update_authority,
            mint_authority,
            payer,
            metadata,
            token_program,
            system_program,
            rent,
        ),
        data: create_master_edition_data(max_supply),
    }
}

/// The "update metadata account" instruction for these accounts and
/// arguments. What is `None` stays as it is on the ledger.
pub open spec fn update_metadata_account(
    metadata: Address,
    update_authority: Address,
    new_data: Option<DataView>,
    new_update_authority: Option<Address>,
    primary_sale_happened: Option<bool>,
    is_mutable: Option<bool>,
) -> InstructionView {
    InstructionView {
        program_id: token_metadata_program(),
        accounts: update_metadata_account_accounts(metadata, update_authority),
        data: update_metadata_account_data(
            optional_data(new_data),
            optional_address(new_update_authority),
            primary_sale_happened,
            is_mutable,
        ),
    }
}

/// Reads `mpl_token_metadata::ID`. The contract claims the bytes that its
/// base-58 text stands for.
#[verifier::external_body]
fn token_metadata_id() -> (id: [u8; 32])
    ensures
        id@ == token_metadata_program(),
{
    mpl_token_metadata::ID.to_bytes()
}

/// Calls `CreateMetadataAccountV3::instruction` of `mpl_token_metadata`, with
/// no collection, no uses and no collection details, and hands back the
/// accounts and the payload of what it built. The contract claims the account
/// list that the function pushes, and that the payload is a function of the
/// encoded arguments. Lengths that do not fit the encoding's 32-bit length
/// prefix are left out: the function panics on them.
#[verifier::external_body]
fn create_metadata_account_v3(
    metadata: [u8; 32],
    mint: [u8; 32],
    mint_authority: [u8; 32],
    payer: [u8; 32],
    update_authority: [u8; 32],
    update_authority_is_signer: bool,
    system_program: [u8; 32],
    rent: [u8; 32],
    name: String,
    symbol: String,
    uri: String,
    seller_fee_basis_points: u16,
    creators: Vec<([u8; 32], bool, u8)>,
    is_mutable: bool,
) -> (built: (Vec<([u8; 32], bool, bool)>, Vec<u8>))
    requires
        utf8_len(name@) <= u32::MAX,
        utf8_len(symbol@) <= u32::MAX,
        utf8_len(uri@) <= u32::MAX,
        creators@.len() <= u32::MAX,
    ensures
        built.0@ == seq![
            (metadata, false, true),
            (mint, false, false),
            (mint_authority, true, false),
            (payer, true, true),
            (update_authority, update_authority_is_signer, false),
            (system_program, false, false),
            (rent, false, false),
        ],
        built.1@ == create_metadata_account_data(
            name@,
            symbol@,
            uri@,
            seller_fee_basis_points,
            raw_creator_views(creators@),
            is_mutable,
        ),
{
    let creators = creators.into_iter().map(|c| ProtocolCreator { address: c.0.into(), verified: c.1, share: c.2 }).collect();
    let data = DataV2 { name, symbol, uri, seller_fee_basis_points, creators: Some(creators), collection: None, uses: None };
    let built = CreateMetadataAccountV3 {
        metadata: metadata.into(),
        mint: mint.into(),
        mint_authority: mint_authority.into(),
        payer: payer.into(),
        update_authority: (update_authority.into(), update_authority_is_signer),
        system_program: system_program.into(),
        rent: Some(rent.into()),
    }.instruction(CreateMetadataAccountV3InstructionArgs { data, is_mutable, collection_details: None });
    (built.accounts.iter().map(|m| (m.pubkey.to_bytes(), m.is_signer, m.is_writable)).collect(), built.data)
}

/// Calls `CreateMasterEditionV3::instruction` of `mpl_token_metadata` and
/// hands back the accounts and the payload of what it built. The contract
/// claims the account list that the function pushes, and the payload that it
/// encodes: the number 17, then one byte that says whether a maximum supply
/// is given, then the supply in eight bytes, lowest first.
#[verifier::external_body]
fn create_master_edition_v3(
    edition: [u8; 32],
    mint: [u8; 32],
    update_authority: [u8; 32],
    mint_authority: [u8; 32],
    payer: [u8; 32],
    metadata: [u8; 32],
    token_program: [u8; 32],
    system_program: [u8; 32],
    rent: [u8; 32],
    max_supply: Option<u64>,
) -> (built: (Vec<([u8; 32], bool, bool)>, Vec<u8>))
    ensures
        built.0@ == seq![
            (edition, false, true),
            (mint, false, true),
            (update_authority, true, false),
            (mint_authority, true, false),
            (payer, true, true),
            (metadata, false, true),
            (token_program, false, false),
            (system_program, false, false),
            (rent, false, false),
        ],
        built.1@ == create_master_edition_data(max_supply),
{
    let built = CreateMasterEditionV3 {
        edition: edition.into(),
        mint: mint.into(),
        update_authority: update_authority.into(),
        mint_authority: mint_authority.into(),
        payer: payer.into(),
        metadata: metadata.into(),
        token_program: token_program.into(),
        system_program: system_program.into(),
        rent: Some(rent.into()),
    }.instruction(CreateMasterEditionV3InstructionArgs { max_supply });
    (built.accounts.iter().map(|m| (m.pubkey.to_bytes(), m.is_signer, m.is_writable)).collect(), built.data)
}

/// Calls `UpdateMetadataAccountV2::instruction` of `mpl_token_metadata` and
/// hands back the accounts and the payload of what it built. New data come as
/// name, symbol, address of the content, seller fee and creators; they are
/// handed on with no collection and no uses. The contract claims the account
/// list that the function pushes, and the payload that it encodes: the number
/// 15, then each optional argument behind one byte that says whether it is
/// there. Of the bytes of new data it claims only that they are a function of
/// the data. Lengths that do not fit the encoding's 32-bit length prefix are
/// left out: the function panics on them.
#[verifier::external_body]
fn update_metadata_account_v2(
    metadata: [u8; 32],
    update_authority: [u8; 32],
    data: Option<(String, String, String, u16, Option<Vec<([u8; 32], bool, u8)>>)>,
    new_update_authority: Option<[u8; 32]>,
    primary_sale_happened: Option<bool>,
    is_mutable: Option<bool>,
) -> (built: (Vec<([u8; 32], bool, bool)>, Vec<u8>))
    requires
        data matches Some(d) ==> {
            &&& utf8_len(d.0@) <= u32::MAX
            &&& utf8_len(d.1@) <= u32::MAX
            &&& utf8_len(d.2@) <= u32::MAX
            &&& d.4 matches Some(creators) ==> creators@.len() <= u32::MAX
        },
    ensures
        built.0@ == seq![(metadata, false, true), (update_authority, true, false)],
        built.1@ == update_metadata_account_data(
            match data {
                Some(d) => Some(
                    new_metadata_data(
                        d.0@,
                        d.1@,
                        d.2@,
                        d.3,
                        match d.4 {
                            Some(creators) => Some(raw_creator_views(creators@)),
                            None => None,
                        },
                    ),
                ),
                None => None,
            },
            match new_update_authority {
                Some(authority) => Some(authority@),
                None => None,
            },
            primary_sale_happened,
            is_mutable,
        ),
{
    let data = data.map(|d| DataV2 {
        name: d.0,
        symbol: d.1,
        uri: d.2,
        seller_fee_basis_points: d.3,
        creators: d.4.map(|v| v.into_iter().map(|c| ProtocolCreator { address: c.0.into(), verified: c.1, share: c.2 }).collect()),
        collection: None,
        uses: None,
    });
    let new_update_authority = new_update_authority.map(Into::into);
    let built = UpdateMetadataAccountV2 { metadata: metadata.into(), update_authority: update_authority.into() }
        .instruction(UpdateMetadataAccountV2InstructionArgs { data, new_update_authority, primary_sale_happened, is_mutable });
    (built.accounts.iter().map(|m| (m.pubkey.to_bytes(), m.is_signer, m.is_writable)).collect(), built.data)
}

/// Returns the address of the token-metadata program.
pub fn token_metadata_program_id() -> (id: Address)
    ensures
        id@ == token_metadata_program(),
{
    Address::new(token_metadata_id())
}

/// Turns the accounts that the client library reported into account metas.
fn account_metas(raw: &Vec<([u8; 32], bool, bool)>) -> (metas: Vec<AccountMeta>)
    ensures
        metas@.len() == raw@.len(),
        forall|i: int| 0 <= i < raw@.len() ==> raw_meta(#[trigger] metas@[i]) == raw@[i],
{
    let mut metas: Vec<AccountMeta> = Vec::new();
    let mut i: usize = 0;
    while i < raw.len()
        invariant
            i <= raw@.len(),
            metas@.len() == i,
            forall|j: int| 0 <= j < i ==> raw_meta(#[trigger] metas@[j]) == raw@[j],
        decreases raw@.len() - i,
    {
        let entry = raw[i];
        metas.push(
            AccountMeta { pubkey: Address::new(entry.0), is_signer: entry.1, is_writable: entry.2 },
        );
        i += 1;
    }
    metas
}

/// Lays the creators out as the client library takes them.
fn raw_creators(creators: &Vec<Creator>) -> (raw: Vec<([u8; 32], bool, u8)>)
    ensures
        raw@ == creators@.map_values(|creator: Creator| raw_creator(creator)),
        raw_creator_views(raw@) == creator_views(creators@),
{
    let mut raw: Vec<([u8; 32], bool, u8)> = Vec::new();
    let mut i: usize = 0;
    while i < creators.len()
        invariant
            i <= creators@.len(),
            raw@.len() == i,
            forall|j: int| 0 <= j < i ==> raw@[j] == raw_creator(#[trigger] creators@[j]),
        decreases creators@.len() - i,
    {
        let creator = creators[i];
        raw.push((creator.address.bytes, creator.verified, creator.share));
        i += 1;
    }
    assert(raw@ =~= creators@.map_values(|creator: Creator| raw_creator(creator)));
    assert(raw_creator_views(raw@) =~= creator_views(creators@));
    raw
}

/// Builds the instruction that creates the metadata account of `mint`.
pub fn create_metadata_account_instruction(
    metadata: &Address,
    mint: &Address,
    mint_authority: &Address,
    payer: &Address,
    update_authority: &Address,
    update_authority_is_signer: bool,
    system_program: &Address,
    rent: &Address,
    name: String,
    symbol: String,
    uri: String,
    seller_fee_basis_points: u16,
    creators: &Vec<Creator>,
    is_mutable: bool,
) -> (instruction: Instruction)
    requires
        utf8_len(name@) <= u32::MAX,
        utf8_len(symbol@) <= u32::MAX,
        utf8_len(uri@) <= u32::MAX,
        creators@.len() <= u32::MAX,
    ensures
        instruction@ == create_metadata_account(
            *metadata,
            *mint,
            *mint_authority,
            *payer,
            *update_authority,
            update_authority_is_signer,
            *system_program,
            *rent,
            name@,
            symbol@,
            uri@,
            seller_fee_basis_points,
            creators@,
            is_mutable,
        ),
{
    let raw = raw_creators(creators);
    let built = create_metadata_account_v3(
        metadata.bytes,
        mint.bytes,
        mint_authority.bytes,
        payer.bytes,
        update_authority.bytes,
        update_authority_is_signer,
        system_program.bytes,
        rent.bytes,
        name,
        symbol,
        uri,
        seller_fee_basis_points,
        raw,
        is_mutable,
    );
    let accounts = account_metas(&built.0);
    assert(accounts@ =~= create_metadata_account_accounts(
        *metadata,
        *mint,
        *mint_authority,
        *payer,
        *update_authority,
        update_authority_is_signer,
        *system_program,
        *rent,
    ));
    Instruction { program_id: token_metadata_program_id(), accounts, data: built.1 }
}

/// Builds the instruction that creates the master edition of `mint`.
pub fn create_master_edition_instruction(
    edition: &Address,
    mint: &Address,
    update_authority: &Address,
    mint_authority: &Address,
    payer: &Address,
    metadata: &Address,
    token_program: &Address,
    system_program: &Address,
    rent: &Address,
    max_supply: Option<u64>,
) -> (instruction: Instruction)
    ensures
        instruction@ == create_master_edition(
            *edition,
            *mint,
            *update_authority,
            *mint_authority,
            *payer,
            *metadata,
            *token_program,
            *system_program,
            *rent,
            max_supply,
        ),
{
    let built = create_master_edition_v3(
        edition.bytes,
        mint.bytes,
        update_authority.bytes,
        mint_authority.bytes,
        payer.bytes,
        metadata.bytes,
        token_program.bytes,
        system_program.bytes,
        rent.bytes,
        max_supply,
    );
    let accounts = account_metas(&built.0);
    assert(accounts@ =~= create_master_edition_accounts(
        *edition,
        *mint,
        *update_authority,
        *mint_authority,
        *payer,
        *metadata,
        *token_program,
        *system_program,
        *rent,
    ));
    Instruction { program_id: token_metadata_program_id(), accounts, data: built.1 }
}

/// Builds the instruction that updates a metadata account: new descriptive
/// data, a new update authority, the primary-sale flag and the mutability,
/// each only where it is given.
pub fn update_metadata_account_instruction(
    metadata: &Address,
    update_authority: &Address,
    new_data: Option<Data>,
    new_update_authority: Option<Address>,
    primary_sale_happened: Option<bool>,
    is_mutable: Option<bool>,
) -> (instruction: Instruction)
    requires
        new_data matches Some(data) ==> data@.encodable(),
    ensures
        instruction@ == update_metadata_account(
            *metadata,
            *update_authority,
            match new_data {
                Some(data) => Some(data@),
                None => None,
            },
            new_update_authority,
            primary_sale_happened,
            is_mutable,
        ),
{
    let data = match new_data {
        Some(data) => {
            let creators = match &data.creators {
                Some(creators) => Some(raw_creators(creators)),
                None => None,
            };
            Some((data.name, data.symbol, data.uri, data.seller_fee_basis_points, creators))
        },
        None => None,
    };
    let authority = match new_update_authority {
        Some(authority) => Some(authority.bytes),
        None => None,
    };
    let built = update_metadata_account_v2(
        metadata.bytes,
        update_authority.bytes,
        data,
        authority,
        primary_sale_happened,
        is_mutable,
    );
    let accounts = account_metas(&built.0);
    assert(accounts@ =~= update_metadata_account_accounts(*metadata, *update_authority));
    Instruction { program_id: token_metadata_program_id(), accounts, data: built.1 }
}

} // verus!
