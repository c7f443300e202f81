use vstd::prelude::*;
use crate::account::{Address, Participant, Role};

verus! {

/// An ordered set of byte-sequence seeds deriving a program-owned address;
/// holding it authorizes a dispatch to act for that derived identity.
pub struct ProofSet {
    pub seeds: Vec<Vec<u8>>,
}

/// Whether a dispatch carries derived-identity authorization.
pub enum Authorization {
    Unauthorized,
    AuthorizedWith(ProofSet),
}

/// A finished instruction message for the external metadata program: the
/// ordered participant list its wire layout demands, with optional entries
/// omitted in place, and the operation's argument payload.
pub struct Message<A> {
    pub accounts: Vec<Participant>,
    pub args: A,
}

/// A message as handed to the host: either through the plain path or through
/// the authorized path alongside its authority proofs.
pub enum Dispatched<A> {
    Plain(Message<A>),
    Authorized(Message<A>, ProofSet),
}

impl<A> Dispatched<A> {
    /// The message under dispatch, whichever path carries it.
    pub open spec fn message(self) -> Message<A> {
        match self {
            Dispatched::Plain(m) => m,
            Dispatched::Authorized(m, _) => m,
        }
    }

    /// The authority proofs attached, if the authorized path was taken.
    pub open spec fn proofs(self) -> Option<ProofSet> {
        match self {
            Dispatched::Plain(_) => None,
            Dispatched::Authorized(_, p) => Some(p),
        }
    }
}

/// Routes a finished message: a present authority-proof set selects the
/// authorized path, its absence selects the plain path.
pub fn dispatch<A>(message: Message<A>, authority_proofs: Authorization) -> (d: Dispatched<A>)
    ensures
        match authority_proofs {
            Authorization::Unauthorized => d == Dispatched::Plain(message),
            Authorization::AuthorizedWith(p) => d == Dispatched::Authorized(message, p),
        },
{
    match authority_proofs {
        Authorization::Unauthorized => Dispatched::Plain(message),
        Authorization::AuthorizedWith(p) => Dispatched::Authorized(message, p),
    }
}

/// The single-entry sequence of an optional participant when it is present,
/// and the empty sequence when it is absent: optional entries stand in place
/// and are never padded.
pub open spec fn opt_entry(role: Role, address: Option<Address>) -> Seq<Participant> {
    match address {
        Some(a) => seq![Participant { role, address: a }],
        None => Seq::empty(),
    }
}

/// The one-entry sequence of a fixed participant.
pub open spec fn one_entry(role: Role, address: Address) -> Seq<Participant> {
    seq![Participant { role, address }]
}

/// Appends a fixed participant.
fn push_one(list: &mut Vec<Participant>, role: Role, address: Address)
    ensures
        final(list)@ == old(list)@ + one_entry(role, address),
{
    list.push(Participant { role, address });
    proof {
        assert(list@ =~= old(list)@ + one_entry(role, address));
    }
}

/// Appends an optional participant when present; appends nothing when
/// absent.
fn push_opt(list: &mut Vec<Participant>, role: Role, address: &Option<Address>)
    ensures
        final(list)@ == old(list)@ + opt_entry(role, *address),
{
    match address {
        Some(a) => {
            list.push(Participant { role, address: *a });
        }
        None => {}
    }
    proof {
        assert(list@ =~= old(list)@ + opt_entry(role, *address));
    }
}

/// Concatenating onto the empty sequence changes nothing.
proof fn lemma_empty_concat(s: Seq<Participant>)
    ensures
        Seq::<Participant>::empty() + s == s,
{
    assert(Seq::<Participant>::empty() + s =~= s);
}

/// The dispatch path taken matches the authorization handed in: proofs
/// present selects the authorized path carrying exactly those proofs, proofs
/// absent selects the plain path.
pub open spec fn spec_routed<A>(d: Dispatched<A>, authority_proofs: Authorization) -> bool {
    match authority_proofs {
        Authorization::Unauthorized => d is Plain,
        Authorization::AuthorizedWith(p) => d is Authorized && d.proofs() == Some(p),
    }
}

/// Print-run cap of a newly created asset.
#[derive(Clone, Copy, Debug, PartialEq, Eq, Structural)]
pub enum PrintSupply {
    Zero,
    Limited(u64),
    Unlimited,
}

/// The argument payload of a create operation. `asset_data` is owned by the
/// external program and carried through opaquely.
pub struct CreateArgs<A> {
    pub asset_data: A,
    pub decimals: Option<u8>,
    pub print_supply: Option<PrintSupply>,
}

/// What a create message carries: the caller's argument payload and the two
/// creation flags the message header records.
pub struct CreateRequest<A> {
    pub args: A,
    pub initialize_mint: bool,
    pub update_authority_as_signer: bool,
}

/// The argument payload of a transfer. The authorization payload the
/// external program accepts alongside the amount is always absent here.
#[derive(Clone, Copy, Debug, PartialEq, Eq, Structural)]
pub struct TransferArgs {
    pub amount: u64,
}

/// The participant list of a create message: the fixed participants in the
/// external program's declared order, with the optional master edition
/// standing right after the metadata when present.
pub open spec fn create_accounts(
    metadata: Address,
    master_edition: Option<Address>,
    mint: Address,
    authority: Address,
    payer: Address,
    update_authority: Address,
    system_program: Address,
    sysvar_instructions: Address,
    spl_token_program: Address,
) -> Seq<Participant> {
    one_entry(Role::Metadata, metadata) + opt_entry(Role::MasterEdition, master_edition)
        + one_entry(Role::Mint, mint) + one_entry(Role::Authority, authority) + one_entry(
        Role::Payer,
        payer,
    ) + one_entry(Role::UpdateAuthority, update_authority) + one_entry(
        Role::SystemProgram,
        system_program,
    ) + one_entry(Role::SysvarInstructions, sysvar_instructions) + one_entry(
        Role::TokenProgram,
        spl_token_program,
    )
}

/// Assembles and routes a create message for the external metadata program.
pub fn create<A>(
    args: A,
    initialize_mint: bool,
    update_authority_as_signer: bool,
    metadata: Address,
    master_edition: Option<Address>,
    mint: Address,
    authority: Address,
    payer: Address,
    update_authority: Address,
    system_program: Address,
    sysvar_instructions: Address,
    spl_token_program: Address,
    authority_proofs: Authorization,
) -> (d: Dispatched<CreateRequest<A>>)
    ensures
        d.message().accounts@ == create_accounts(
            metadata,
            master_edition,
            mint,
            authority,
            payer,
            update_authority,
            system_program,
            sysvar_instructions,
            spl_token_program,
        ),
        d.message().args.args == args,
        d.message().args.initialize_mint == initialize_mint,
        d.message().args.update_authority_as_signer == update_authority_as_signer,
        spec_routed(d, authority_proofs),
{
    let mut accounts: Vec<Participant> = Vec::new();
    proof {
        assert(accounts@ =~= Seq::<Participant>::empty());
    }
    push_one(&mut accounts, Role::Metadata, metadata);
    push_opt(&mut accounts, Role::MasterEdition, &master_edition);
    push_one(&mut accounts, Role::Mint, mint);
    push_one(&mut accounts, Role::Authority, authority);
    push_one(&mut accounts, Role::Payer, payer);
    push_one(&mut accounts, Role::UpdateAuthority, update_authority);
    push_one(&mut accounts, Role::SystemProgram, system_program);
    push_one(&mut accounts, Role::SysvarInstructions, sysvar_instructions);
    push_one(&mut accounts, Role::TokenProgram, spl_token_program);
    proof {
        lemma_empty_concat(one_entry(Role::Metadata, metadata));
    }
    let message = Message {
        accounts,
        args: CreateRequest { args, initialize_mint, update_authority_as_signer },
    };
    dispatch(message, authority_proofs)
}

/// The participant list of a mint message, in the external program's
/// declared order, optional entries omitted in place.
pub open spec fn mint_accounts(
    token_owner: Option<Address>,
    metadata: Address,
    master_edition: Option<Address>,
    token_record: Option<Address>,
    mint: Address,
    authority: Address,
    delegate_record: Option<Address>,
    payer: Address,
    system_program: Address,
    sysvar_instructions: Address,
    spl_token_program: Address,
    spl_ata_program: Address,
    authorization_rules_program: Option<Address>,
    authorization_rules: Option<Address>,
) -> Seq<Participant> {
    opt_entry(Role::TokenOwner, token_owner)
        + one_entry(Role::Metadata, metadata)
        + opt_entry(Role::MasterEdition, master_edition)
        + opt_entry(Role::TokenRecord, token_record)
        + one_entry(Role::Mint, mint)
        + one_entry(Role::Authority, authority)
        + opt_entry(Role::DelegateRecord, delegate_record)
        + one_entry(Role::Payer, payer)
        + one_entry(Role::SystemProgram, system_program)
        + one_entry(Role::SysvarInstructions, sysvar_instructions)
        + one_entry(Role::TokenProgram, spl_token_program)
        + one_entry(Role::AtaProgram, spl_ata_program)
        + opt_entry(Role::AuthorizationRulesProgram, authorization_rules_program)
        + opt_entry(Role::AuthorizationRules, authorization_rules)
}

/// Assembles and routes a mint message. All optional participants stand in
/// their declared positions; none is padded when absent.
pub fn mint<A>(
    args: A,
    token_owner: Option<Address>,
    metadata: Address,
    master_edition: Option<Address>,
    token_record: Option<Address>,
    mint_account: Address,
    authority: Address,
    delegate_record: Option<Address>,
    payer: Address,
    system_program: Address,
    sysvar_instructions: Address,
    spl_token_program: Address,
    spl_ata_program: Address,
    authorization_rules_program: Option<Address>,
    authorization_rules: Option<Address>,
    authority_proofs: Authorization,
) -> (d: Dispatched<A>)
    ensures
        d.message().accounts@ == mint_accounts(
            token_owner,
            metadata,
            master_edition,
            token_record,
            mint_account,
            authority,
            delegate_record,
            payer,
            system_program,
            sysvar_instructions,
            spl_token_program,
            spl_ata_program,
            authorization_rules_program,
            authorization_rules,
        ),
        d.message().args == args,
        spec_routed(d, authority_proofs),
{
    let mut accounts: Vec<Participant> = Vec::new();
    proof {
        assert(accounts@ =~= Seq::<Participant>::empty());
    }
    push_opt(&mut accounts, Role::TokenOwner, &token_owner);
    push_one(&mut accounts, Role::Metadata, metadata);
    push_opt(&mut accounts, Role::MasterEdition, &master_edition);
    push_opt(&mut accounts, Role::TokenRecord, &token_record);
    push_one(&mut accounts, Role::Mint, mint_account);
    push_one(&mut accounts, Role::Authority, authority);
    push_opt(&mut accounts, Role::DelegateRecord, &delegate_record);
    push_one(&mut accounts, Role::Payer, payer);
    push_one(&mut accounts, Role::SystemProgram, system_program);
    push_one(&mut accounts, Role::SysvarInstructions, sysvar_instructions);
    push_one(&mut accounts, Role::TokenProgram, spl_token_program);
    push_one(&mut accounts, Role::AtaProgram, spl_ata_program);
    push_opt(&mut accounts, Role::AuthorizationRulesProgram, &authorization_rules_program);
    push_opt(&mut accounts, Role::AuthorizationRules, &authorization_rules);
    proof {
        lemma_empty_concat(opt_entry(Role::TokenOwner, token_owner));
    }
    dispatch(Message { accounts, args }, authority_proofs)
}

/// The participant list of a burn message, in the external program's
/// declared order, optional entries omitted in place.
pub open spec fn burn_accounts(
    authority: Address,
    collection_metadata: Option<Address>,
    metadata: Address,
    edition: Option<Address>,
    mint: Address,
    token: Address,
    master_edition: Option<Address>,
    master_edition_mint: Option<Address>,
    master_edition_token: Option<Address>,
    edition_marker: Option<Address>,
    token_record: Option<Address>,
    system_program: Address,
    sysvar_instructions: Address,
    spl_token_program: Address,
) -> Seq<Participant> {
    one_entry(Role::Authority, authority)
        + opt_entry(Role::CollectionMetadata, collection_metadata)
        + one_entry(Role::Metadata, metadata)
        + opt_entry(Role::Edition, edition)
        + one_entry(Role::Mint, mint)
        + one_entry(Role::Token, token)
        + opt_entry(Role::MasterEdition, master_edition)
        + opt_entry(Role::MasterEditionMint, master_edition_mint)
        + opt_entry(Role::MasterEditionToken, master_edition_token)
        + opt_entry(Role::EditionMarker, edition_marker)
        + opt_entry(Role::TokenRecord, token_record)
        + one_entry(Role::SystemProgram, system_program)
        + one_entry(Role::SysvarInstructions, sysvar_instructions)
        + one_entry(Role::TokenProgram, spl_token_program)
}

/// Assembles and routes a burn message.
pub fn burn<A>(
    args: A,
    authority: Address,
    collection_metadata: Option<Address>,
    metadata: Address,
    edition: Option<Address>,
    mint: Address,
    token: Address,
    master_edition: Option<Address>,
    master_edition_mint: Option<Address>,
    master_edition_token: Option<Address>,
    edition_marker: Option<Address>,
    token_record: Option<Address>,
    system_program: Address,
    sysvar_instructions: Address,
    spl_token_program: Address,
    authority_proofs: Authorization,
) -> (d: Dispatched<A>)
    ensures
        d.message().accounts@ == burn_accounts(
            authority,
            collection_metadata,
            metadata,
            edition,
            mint,
            token,
            master_edition,
            master_edition_mint,
            master_edition_token,
            edition_marker,
            token_record,
            system_program,
            sysvar_instructions,
            spl_token_program,
        ),
        d.message().args == args,
        spec_routed(d, authority_proofs),
{
    let mut accounts: Vec<Participant> = Vec::new();
    proof {
        assert(accounts@ =~= Seq::<Participant>::empty());
    }
    push_one(&mut accounts, Role::Authority, authority);
    push_opt(&mut accounts, Role::CollectionMetadata, &collection_metadata);
    push_one(&mut accounts, Role::Metadata, metadata);
    push_opt(&mut accounts, Role::Edition, &edition);
    push_one(&mut accounts, Role::Mint, mint);
    push_one(&mut accounts, Role::Token, token);
    push_opt(&mut accounts, Role::MasterEdition, &master_edition);
    push_opt(&mut accounts, Role::MasterEditionMint, &master_edition_mint);
    push_opt(&mut accounts, Role::MasterEditionToken, &master_edition_token);
    push_opt(&mut accounts, Role::EditionMarker, &edition_marker);
    push_opt(&mut accounts, Role::TokenRecord, &token_record);
    push_one(&mut accounts, Role::SystemProgram, system_program);
    push_one(&mut accounts, Role::SysvarInstructions, sysvar_instructions);
    push_one(&mut accounts, Role::TokenProgram, spl_token_program);
    proof {
        lemma_empty_concat(one_entry(Role::Authority, authority));
    }
    dispatch(Message { accounts, args }, authority_proofs)
}

/// The participant list of a update message, in the external program's
/// declared order, optional entries omitted in place.
pub open spec fn update_accounts(
    authority: Address,
    delegate_record: Option<Address>,
    token: Option<Address>,
    mint: Address,
    metadata: Address,
    edition: Option<Address>,
    payer: Address,
    system_program: Address,
    sysvar_instructions: Address,
    authorization_rules_program: Option<Address>,
    authorization_rules: Option<Address>,
) -> Seq<Participant> {
    one_entry(Role::Authority, authority)
        + opt_entry(Role::DelegateRecord, delegate_record)
        + opt_entry(Role::Token, token)
        + one_entry(Role::Mint, mint)
        + one_entry(Role::Metadata, metadata)
        + opt_entry(Role::Edition, edition)
        + one_entry(Role::Payer, payer)
        + one_entry(Role::SystemProgram, system_program)
        + one_entry(Role::SysvarInstructions, sysvar_instructions)
        + opt_entry(Role::AuthorizationRulesProgram, authorization_rules_program)
        + opt_entry(Role::AuthorizationRules, authorization_rules)
}

/// Assembles and routes an update message.
pub fn update<A>(
    args: A,
    delegate_record: Option<Address>,
    token: Option<Address>,
    mint: Address,
    metadata: Address,
    edition: Option<Address>,
    authority: Address,
    payer: Address,
    system_program: Address,
    sysvar_instructions: Address,
    authorization_rules_program: Option<Address>,
    authorization_rules: Option<Address>,
    authority_proofs: Authorization,
) -> (d: Dispatched<A>)
    ensures
        d.message().accounts@ == update_accounts(
            authority,
            delegate_record,
            token,
            mint,
            metadata,
            edition,
            payer,
            system_program,
            sysvar_instructions,
            authorization_rules_program,
            authorization_rules,
        ),
        d.message().args == args,
        spec_routed(d, authority_proofs),
{
    let mut accounts: Vec<Participant> = Vec::new();
    proof {
        assert(accounts@ =~= Seq::<Participant>::empty());
    }
    push_one(&mut accounts, Role::Authority, authority);
    push_opt(&mut accounts, Role::DelegateRecord, &delegate_record);
    push_opt(&mut accounts, Role::Token, &token);
    push_one(&mut accounts, Role::Mint, mint);
    push_one(&mut accounts, Role::Metadata, metadata);
    push_opt(&mut accounts, Role::Edition, &edition);
    push_one(&mut accounts, Role::Payer, payer);
    push_one(&mut accounts, Role::SystemProgram, system_program);
    push_one(&mut accounts, Role::SysvarInstructions, sysvar_instructions);
    push_opt(&mut accounts, Role::AuthorizationRulesProgram, &authorization_rules_program);
    push_opt(&mut accounts, Role::AuthorizationRules, &authorization_rules);
    proof {
        lemma_empty_concat(one_entry(Role::Authority, authority));
    }
    dispatch(Message { accounts, args }, authority_proofs)
}

/// The participant list of a transfer message, in the external program's
/// declared order, optional entries omitted in place.
pub open spec fn transfer_accounts(
    source_token_account: Address,
    source_token_account_owner: Address,
    destination_token_account: Address,
    destination_token_account_owner: Address,
    token_mint: Address,
    token_metadata: Address,
    token_edition: Option<Address>,
    source_token_account_record: Option<Address>,
    destination_token_account_record: Option<Address>,
    authority: Address,
    payer: Address,
    system_program: Address,
    token_program: Address,
    associated_token_program: Address,
    sysvar_instructions: Address,
    authorization_rules_program: Option<Address>,
    authorization_rules: Option<Address>,
) -> Seq<Participant> {
    one_entry(Role::SourceToken, source_token_account)
        + one_entry(Role::SourceOwner, source_token_account_owner)
        + one_entry(Role::DestinationToken, destination_token_account)
        + one_entry(Role::DestinationOwner, destination_token_account_owner)
        + one_entry(Role::Mint, token_mint)
        + one_entry(Role::Metadata, token_metadata)
        + opt_entry(Role::Edition, token_edition)
        + opt_entry(Role::SourceTokenRecord, source_token_account_record)
        + opt_entry(Role::DestinationTokenRecord, destination_token_account_record)
        + one_entry(Role::Authority, authority)
        + one_entry(Role::Payer, payer)
        + one_entry(Role::SystemProgram, system_program)
        + one_entry(Role::TokenProgram, token_program)
        + one_entry(Role::AtaProgram, associated_token_program)
        + one_entry(Role::SysvarInstructions, sysvar_instructions)
        + opt_entry(Role::AuthorizationRulesProgram, authorization_rules_program)
        + opt_entry(Role::AuthorizationRules, authorization_rules)
}

/// Assembles and routes a transfer message moving `amount` units.
pub fn transfer(
    amount: u64,
    source_token_account: Address,
    source_token_account_owner: Address,
    destination_token_account: Address,
    destination_token_account_owner: Address,
    token_mint: Address,
    token_metadata: Address,
    token_edition: Option<Address>,
    source_token_account_record: Option<Address>,
    destination_token_account_record: Option<Address>,
    authority: Address,
    payer: Address,
    system_program: Address,
    token_program: Address,
    associated_token_program: Address,
    sysvar_instructions: Address,
    authorization_rules_program: Option<Address>,
    authorization_rules: Option<Address>,
    authority_proofs: Authorization,
) -> (d: Dispatched<TransferArgs>)
    ensures
        d.message().accounts@ == transfer_accounts(
            source_token_account,
            source_token_account_owner,
            destination_token_account,
            destination_token_account_owner,
            token_mint,
            token_metadata,
            token_edition,
            source_token_account_record,
            destination_token_account_record,
            authority,
            payer,
            system_program,
            token_program,
            associated_token_program,
            sysvar_instructions,
            authorization_rules_program,
            authorization_rules,
        ),
        d.message().args == (TransferArgs { amount }),
        spec_routed(d, authority_proofs),
{
    let mut accounts: Vec<Participant> = Vec::new();
    proof {
        assert(accounts@ =~= Seq::<Participant>::empty());
    }
    push_one(&mut accounts, Role::SourceToken, source_token_account);
    push_one(&mut accounts, Role::SourceOwner, source_token_account_owner);
    push_one(&mut accounts, Role::DestinationToken, destination_token_account);
    push_one(&mut accounts, Role::DestinationOwner, destination_token_account_owner);
    push_one(&mut accounts, Role::Mint, token_mint);
    push_one(&mut accounts, Role::Metadata, token_metadata);
    push_opt(&mut accounts, Role::Edition, &token_edition);
    push_opt(&mut accounts, Role::SourceTokenRecord, &source_token_account_record);
    push_opt(&mut accounts, Role::DestinationTokenRecord, &destination_token_account_record);
    push_one(&mut accounts, Role::Authority, authority);
    push_one(&mut accounts, Role::Payer, payer);
    push_one(&mut accounts, Role::SystemProgram, system_program);
    push_one(&mut accounts, Role::TokenProgram, token_program);
    push_one(&mut accounts, Role::AtaProgram, associated_token_program);
    push_one(&mut accounts, Role::SysvarInstructions, sysvar_instructions);
    push_opt(&mut accounts, Role::AuthorizationRulesProgram, &authorization_rules_program);
    push_opt(&mut accounts, Role::AuthorizationRules, &authorization_rules);
    proof {
        lemma_empty_concat(one_entry(Role::SourceToken, source_token_account));
    }
    dispatch(Message { accounts, args: TransferArgs { amount } }, authority_proofs)
}

/// The participant list of a lock message, in the external program's
/// declared order, optional entries omitted in place.
pub open spec fn lock_accounts(
    authority: Address,
    token_account_owner: Option<Address>,
    token_account: Address,
    token_mint: Address,
    token_metadata: Address,
    token_edition: Option<Address>,
    token_record: Option<Address>,
    payer: Address,
    system_program: Address,
    sysvar_instructions: Address,
    token_program: Address,
    authorization_rules_program: Option<Address>,
    authorization_rules: Option<Address>,
) -> Seq<Participant> {
    one_entry(Role::Authority, authority)
        + opt_entry(Role::TokenOwner, token_account_owner)
        + one_entry(Role::Token, token_account)
        + one_entry(Role::Mint, token_mint)
        + one_entry(Role::Metadata, token_metadata)
        + opt_entry(Role::Edition, token_edition)
        + opt_entry(Role::TokenRecord, token_record)
        + one_entry(Role::Payer, payer)
        + one_entry(Role::SystemProgram, system_program)
        + one_entry(Role::SysvarInstructions, sysvar_instructions)
        + one_entry(Role::TokenProgram, token_program)
        + opt_entry(Role::AuthorizationRulesProgram, authorization_rules_program)
        + opt_entry(Role::AuthorizationRules, authorization_rules)
}

/// Assembles and routes a lock message. It carries no argument payload of
/// its own; the authorization payload the external program accepts is
/// always absent here.
pub fn lock(
    authority: Address,
    token_mint: Address,
    token_account: Address,
    token_account_owner: Option<Address>,
    token_metadata: Address,
    token_edition: Option<Address>,
    token_record: Option<Address>,
    payer: Address,
    system_program: Address,
    sysvar_instructions: Address,
    token_program: Address,
    authorization_rules_program: Option<Address>,
    authorization_rules: Option<Address>,
    authority_proofs: Authorization,
) -> (d: Dispatched<()>)
    ensures
        d.message().accounts@ == lock_accounts(
            authority,
            token_account_owner,
            token_account,
            token_mint,
            token_metadata,
            token_edition,
            token_record,
            payer,
            system_program,
            sysvar_instructions,
            token_program,
            authorization_rules_program,
            authorization_rules,
        ),
        spec_routed(d, authority_proofs),
{
    let mut accounts: Vec<Participant> = Vec::new();
    proof {
        assert(accounts@ =~= Seq::<Participant>::empty());
    }
    push_one(&mut accounts, Role::Authority, authority);
    push_opt(&mut accounts, Role::TokenOwner, &token_account_owner);
    push_one(&mut accounts, Role::Token, token_account);
    push_one(&mut accounts, Role::Mint, token_mint);
    push_one(&mut accounts, Role::Metadata, token_metadata);
    push_opt(&mut accounts, Role::Edition, &token_edition);
    push_opt(&mut accounts, Role::TokenRecord, &token_record);
    push_one(&mut accounts, Role::Payer, payer);
    push_one(&mut accounts, Role::SystemProgram, system_program);
    push_one(&mut accounts, Role::SysvarInstructions, sysvar_instructions);
    push_one(&mut accounts, Role::TokenProgram, token_program);
    push_opt(&mut accounts, Role::AuthorizationRulesProgram, &authorization_rules_program);
    push_opt(&mut accounts, Role::AuthorizationRules, &authorization_rules);
    proof {
        lemma_empty_concat(one_entry(Role::Authority, authority));
    }
    dispatch(Message { accounts, args: () }, authority_proofs)
}

/// The participant list of a unlock message, in the external program's
/// declared order, optional entries omitted in place.
pub open spec fn unlock_accounts(
    authority: Address,
    token_account_owner: Option<Address>,
    token_account: Address,
    token_mint: Address,
    token_metadata: Address,
    token_edition: Option<Address>,
    token_record: Option<Address>,
    payer: Address,
    system_program: Address,
    sysvar_instructions: Address,
    token_program: Address,
    authorization_rules_program: Option<Address>,
    authorization_rules: Option<Address>,
) -> Seq<Participant> {
    one_entry(Role::Authority, authority)
        + opt_entry(Role::TokenOwner, token_account_owner)
        + one_entry(Role::Token, token_account)
        + one_entry(Role::Mint, token_mint)
        + one_entry(Role::Metadata, token_metadata)
        + opt_entry(Role::Edition, token_edition)
        + opt_entry(Role::TokenRecord, token_record)
        + one_entry(Role::Payer, payer)
        + one_entry(Role::SystemProgram, system_program)
        + one_entry(Role::SysvarInstructions, sysvar_instructions)
        + one_entry(Role::TokenProgram, token_program)
        + opt_entry(Role::AuthorizationRulesProgram, authorization_rules_program)
        + opt_entry(Role::AuthorizationRules, authorization_rules)
}

/// Assembles and routes an unlock message. It carries no argument payload
/// of its own; the authorization payload the external program accepts is
/// always absent here.
pub fn unlock(
    authority: Address,
    token_mint: Address,
    token_account: Address,
    token_account_owner: Option<Address>,
    token_metadata: Address,
    token_edition: Option<Address>,
    token_record: Option<Address>,
    payer: Address,
    system_program: Address,
    sysvar_instructions: Address,
    token_program: Address,
    authorization_rules_program: Option<Address>,
    authorization_rules: Option<Address>,
    authority_proofs: Authorization,
) -> (d: Dispatched<()>)
    ensures
        d.message().accounts@ == unlock_accounts(
            authority,
            token_account_owner,
            token_account,
            token_mint,
            token_metadata,
            token_edition,
            token_record,
            payer,
            system_program,
            sysvar_instructions,
            token_program,
            authorization_rules_program,
            authorization_rules,
        ),
        spec_routed(d, authority_proofs),
{
    let mut accounts: Vec<Participant> = Vec::new();
    proof {
        assert(accounts@ =~= Seq::<Participant>::empty());
    }
    push_one(&mut accounts, Role::Authority, authority);
    push_opt(&mut accounts, Role::TokenOwner, &token_account_owner);
    push_one(&mut accounts, Role::Token, token_account);
    push_one(&mut accounts, Role::Mint, token_mint);
    push_one(&mut accounts, Role::Metadata, token_metadata);
    push_opt(&mut accounts, Role::Edition, &token_edition);
    push_opt(&mut accounts, Role::TokenRecord, &token_record);
    push_one(&mut accounts, Role::Payer, payer);
    push_one(&mut accounts, Role::SystemProgram, system_program);
    push_one(&mut accounts, Role::SysvarInstructions, sysvar_instructions);
    push_one(&mut accounts, Role::TokenProgram, token_program);
    push_opt(&mut accounts, Role::AuthorizationRulesProgram, &authorization_rules_program);
    push_opt(&mut accounts, Role::AuthorizationRules, &authorization_rules);
    proof {
        lemma_empty_concat(one_entry(Role::Authority, authority));
    }
    dispatch(Message { accounts, args: () }, authority_proofs)
}

/// The participant list of a delegate message, in the external program's
/// declared order, optional entries omitted in place.
pub open spec fn delegate_accounts(
    delegate_record: Option<Address>,
    delegate: Address,
    metadata: Address,
    master_edition: Option<Address>,
    token_record: Option<Address>,
    mint: Address,
    token_account: Address,
    authority: Address,
    payer: Address,
    system_program: Address,
    sysvar_instructions: Address,
    token_program: Address,
    authorization_rules_program: Option<Address>,
    authorization_rules: Option<Address>,
) -> Seq<Participant> {
    opt_entry(Role::DelegateRecord, delegate_record)
        + one_entry(Role::Delegate, delegate)
        + one_entry(Role::Metadata, metadata)
        + opt_entry(Role::MasterEdition, master_edition)
        + opt_entry(Role::TokenRecord, token_record)
        + one_entry(Role::Mint, mint)
        + one_entry(Role::Token, token_account)
        + one_entry(Role::Authority, authority)
        + one_entry(Role::Payer, payer)
        + one_entry(Role::SystemProgram, system_program)
        + one_entry(Role::SysvarInstructions, sysvar_instructions)
        + one_entry(Role::TokenProgram, token_program)
        + opt_entry(Role::AuthorizationRulesProgram, authorization_rules_program)
        + opt_entry(Role::AuthorizationRules, authorization_rules)
}

/// Assembles and routes a delegate message.
pub fn delegate<A>(
    args: A,
    delegate_record: Option<Address>,
    delegate_account: Address,
    metadata: Address,
    master_edition: Option<Address>,
    token_record: Option<Address>,
    mint: Address,
    token_account: Address,
    authority: Address,
    payer: Address,
    system_program: Address,
    sysvar_instructions: Address,
    token_program: Address,
    authorization_rules_program: Option<Address>,
    authorization_rules: Option<Address>,
    authority_proofs: Authorization,
) -> (d: Dispatched<A>)
    ensures
        d.message().accounts@ == delegate_accounts(
            delegate_record,
            delegate_account,
            metadata,
            master_edition,
            token_record,
            mint,
            token_account,
            authority,
            payer,
            system_program,
            sysvar_instructions,
            token_program,
            authorization_rules_program,
            authorization_rules,
        ),
        d.message().args == args,
        spec_routed(d, authority_proofs),
{
    let mut accounts: Vec<Participant> = Vec::new();
    proof {
        assert(accounts@ =~= Seq::<Participant>::empty());
    }
    push_opt(&mut accounts, Role::DelegateRecord, &delegate_record);
    push_one(&mut accounts, Role::Delegate, delegate_account);
    push_one(&mut accounts, Role::Metadata, metadata);
    push_opt(&mut accounts, Role::MasterEdition, &master_edition);
    push_opt(&mut accounts, Role::TokenRecord, &token_record);
    push_one(&mut accounts, Role::Mint, mint);
    push_one(&mut accounts, Role::Token, token_account);
    push_one(&mut accounts, Role::Authority, authority);
    push_one(&mut accounts, Role::Payer, payer);
    push_one(&mut accounts, Role::SystemProgram, system_program);
    push_one(&mut accounts, Role::SysvarInstructions, sysvar_instructions);
    push_one(&mut accounts, Role::TokenProgram, token_program);
    push_opt(&mut accounts, Role::AuthorizationRulesProgram, &authorization_rules_program);
    push_opt(&mut accounts, Role::AuthorizationRules, &authorization_rules);
    proof {
        lemma_empty_concat(opt_entry(Role::DelegateRecord, delegate_record));
    }
    dispatch(Message { accounts, args }, authority_proofs)
}

/// The participant list of a revoke message, in the external program's
/// declared order, optional entries omitted in place.
pub open spec fn revoke_accounts(
    delegate_record: Option<Address>,
    delegate: Address,
    metadata: Address,
    master_edition: Option<Address>,
    token_record: Option<Address>,
    mint: Address,
    token_account: Address,
    authority: Address,
    payer: Address,
    system_program: Address,
    sysvar_instructions: Address,
    token_program: Address,
    authorization_rules_program: Option<Address>,
    authorization_rules: Option<Address>,
) -> Seq<Participant> {
    opt_entry(Role::DelegateRecord, delegate_record)
        + one_entry(Role::Delegate, delegate)
        + one_entry(Role::Metadata, metadata)
        + opt_entry(Role::MasterEdition, master_edition)
        + opt_entry(Role::TokenRecord, token_record)
        + one_entry(Role::Mint, mint)
        + one_entry(Role::Token, token_account)
        + one_entry(Role::Authority, authority)
        + one_entry(Role::Payer, payer)
        + one_entry(Role::SystemProgram, system_program)
        + one_entry(Role::SysvarInstructions, sysvar_instructions)
        + one_entry(Role::TokenProgram, token_program)
        + opt_entry(Role::AuthorizationRulesProgram, authorization_rules_program)
        + opt_entry(Role::AuthorizationRules, authorization_rules)
}

/// Assembles and routes a revoke message.
pub fn revoke<A>(
    args: A,
    delegate_record: Option<Address>,
    delegate: Address,
    metadata: Address,
    master_edition: Option<Address>,
    token_record: Option<Address>,
    mint: Address,
    token_account: Address,
    authority: Address,
    payer: Address,
    system_program: Address,
    sysvar_instructions: Address,
    token_program: Address,
    authorization_rules_program: Option<Address>,
    authorization_rules: Option<Address>,
    authority_proofs: Authorization,
) -> (d: Dispatched<A>)
    ensures
        d.message().accounts@ == revoke_accounts(
            delegate_record,
            delegate,
            metadata,
            master_edition,
            token_record,
            mint,
            token_account,
            authority,
            payer,
            system_program,
            sysvar_instructions,
            token_program,
            authorization_rules_program,
            authorization_rules,
        ),
        d.message().args == args,
        spec_routed(d, authority_proofs),
{
    let mut accounts: Vec<Participant> = Vec::new();
    proof {
        assert(accounts@ =~= Seq::<Participant>::empty());
    }
    push_opt(&mut accounts, Role::DelegateRecord, &delegate_record);
    push_one(&mut accounts, Role::Delegate, delegate);
    push_one(&mut accounts, Role::Metadata, metadata);
    push_opt(&mut accounts, Role::MasterEdition, &master_edition);
    push_opt(&mut accounts, Role::TokenRecord, &token_record);
    push_one(&mut accounts, Role::Mint, mint);
    push_one(&mut accounts, Role::Token, token_account);
    push_one(&mut accounts, Role::Authority, authority);
    push_one(&mut accounts, Role::Payer, payer);
    push_one(&mut accounts, Role::SystemProgram, system_program);
    push_one(&mut accounts, Role::SysvarInstructions, sysvar_instructions);
    push_one(&mut accounts, Role::TokenProgram, token_program);
    push_opt(&mut accounts, Role::AuthorizationRulesProgram, &authorization_rules_program);
    push_opt(&mut accounts, Role::AuthorizationRules, &authorization_rules);
    proof {
        lemma_empty_concat(opt_entry(Role::DelegateRecord, delegate_record));
    }
    dispatch(Message { accounts, args }, authority_proofs)
}

/// The participant list of a verify message, in the external program's
/// declared order, optional entries omitted in place.
pub open spec fn verify_accounts(
    authority: Address,
    delegate_record: Option<Address>,
    metadata: Address,
    collection_mint: Option<Address>,
    collection_metadata: Option<Address>,
    collection_master_edition: Option<Address>,
    system_program: Address,
    sysvar_instructions: Address,
) -> Seq<Participant> {
    one_entry(Role::Authority, authority)
        + opt_entry(Role::DelegateRecord, delegate_record)
        + one_entry(Role::Metadata, metadata)
        + opt_entry(Role::CollectionMint, collection_mint)
        + opt_entry(Role::CollectionMetadata, collection_metadata)
        + opt_entry(Role::CollectionMasterEdition, collection_master_edition)
        + one_entry(Role::SystemProgram, system_program)
        + one_entry(Role::SysvarInstructions, sysvar_instructions)
}

/// Assembles and routes a verify message.
pub fn verify<A>(
    args: A,
    authority: Address,
    delegate_record: Option<Address>,
    metadata: Address,
    collection_mint: Option<Address>,
    collection_metadata: Option<Address>,
    collection_master_edition: Option<Address>,
    system_program: Address,
    sysvar_instructions: Address,
    authority_proofs: Authorization,
) -> (d: Dispatched<A>)
    ensures
        d.message().accounts@ == verify_accounts(
            authority,
            delegate_record,
            metadata,
            collection_mint,
            collection_metadata,
            collection_master_edition,
            system_program,
            sysvar_instructions,
        ),
        d.message().args == args,
        spec_routed(d, authority_proofs),
{
    let mut accounts: Vec<Participant> = Vec::new();
    proof {
        assert(accounts@ =~= Seq::<Participant>::empty());
    }
    push_one(&mut accounts, Role::Authority, authority);
    push_opt(&mut accounts, Role::DelegateRecord, &delegate_record);
    push_one(&mut accounts, Role::Metadata, metadata);
    push_opt(&mut accounts, Role::CollectionMint, &collection_mint);
    push_opt(&mut accounts, Role::CollectionMetadata, &collection_metadata);
    push_opt(&mut accounts, Role::CollectionMasterEdition, &collection_master_edition);
    push_one(&mut accounts, Role::SystemProgram, system_program);
    push_one(&mut accounts, Role::SysvarInstructions, sysvar_instructions);
    proof {
        lemma_empty_concat(one_entry(Role::Authority, authority));
    }
    dispatch(Message { accounts, args }, authority_proofs)
}

/// Assembles and routes a create message for a standard non-fungible asset:
/// the master edition participant is always present, the asset keeps zero
/// decimals, and its print supply is fixed at zero.
pub fn create_nft<A>(
    asset_data: A,
    initialize_mint: bool,
    update_authority_as_signer: bool,
    metadata: Address,
    master_edition: Address,
    mint: Address,
    authority: Address,
    payer: Address,
    update_authority: Address,
    system_program: Address,
    sysvar_instructions: Address,
    spl_token_program: Address,
    authority_proofs: Authorization,
) -> (d: Dispatched<CreateRequest<CreateArgs<A>>>)
    ensures
        d.message().accounts@ == create_accounts(
            metadata,
            Some(master_edition),
            mint,
            authority,
            payer,
            update_authority,
            system_program,
            sysvar_instructions,
            spl_token_program,
        ),
        d.message().args.args.asset_data == asset_data,
        d.message().args.args.decimals == Some(0u8),
        d.message().args.args.print_supply == Some(PrintSupply::Zero),
        d.message().args.initialize_mint == initialize_mint,
        d.message().args.update_authority_as_signer == update_authority_as_signer,
        spec_routed(d, authority_proofs),
{
    create(
        CreateArgs { asset_data, decimals: Some(0u8), print_supply: Some(PrintSupply::Zero) },
        initialize_mint,
        update_authority_as_signer,
        metadata,
        Some(master_edition),
        mint,
        authority,
        payer,
        update_authority,
        system_program,
        sysvar_instructions,
        spl_token_program,
        authority_proofs,
    )
}

/// A mint message with every optional participant absent carries exactly the
/// eight fixed participants, in declared order, with nothing padded in the
/// optional positions.
pub proof fn lemma_mint_all_absent(
    metadata: Address,
    mint_account: Address,
    authority: Address,
    payer: Address,
    system_program: Address,
    sysvar_instructions: Address,
    spl_token_program: Address,
    spl_ata_program: Address,
)
    ensures
        mint_accounts(
            None,
            metadata,
            None,
            None,
            mint_account,
            authority,
            None,
            payer,
            system_program,
            sysvar_instructions,
            spl_token_program,
            spl_ata_program,
            None,
            None,
        ) == seq![
            Participant { role: Role::Metadata, address: metadata },
            Participant { role: Role::Mint, address: mint_account },
            Participant { role: Role::Authority, address: authority },
            Participant { role: Role::Payer, address: payer },
            Participant { role: Role::SystemProgram, address: system_program },
            Participant { role: Role::SysvarInstructions, address: sysvar_instructions },
            Participant { role: Role::TokenProgram, address: spl_token_program },
            Participant { role: Role::AtaProgram, address: spl_ata_program },
        ],
{
    assert(mint_accounts(
        None,
        metadata,
        None,
        None,
        mint_account,
        authority,
        None,
        payer,
        system_program,
        sysvar_instructions,
        spl_token_program,
        spl_ata_program,
        None,
        None,
    ) =~= seq![
        Participant { role: Role::Metadata, address: metadata },
        Participant { role: Role::Mint, address: mint_account },
        Participant { role: Role::Authority, address: authority },
        Participant { role: Role::Payer, address: payer },
        Participant { role: Role::SystemProgram, address: system_program },
        Participant { role: Role::SysvarInstructions, address: sysvar_instructions },
        Participant { role: Role::TokenProgram, address: spl_token_program },
        Participant { role: Role::AtaProgram, address: spl_ata_program },
    ]);
}

/// A mint message with every optional participant present holds each one at
/// its declared position, without reordering the fixed participants.
pub proof fn lemma_mint_all_present(
    token_owner: Address,
    metadata: Address,
    master_edition: Address,
    token_record: Address,
    mint_account: Address,
    authority: Address,
    delegate_record: Address,
    payer: Address,
    system_program: Address,
    sysvar_instructions: Address,
    spl_token_program: Address,
    spl_ata_program: Address,
    authorization_rules_program: Address,
    authorization_rules: Address,
)
    ensures
        mint_accounts(
            Some(token_owner),
            metadata,
            Some(master_edition),
            Some(token_record),
            mint_account,
            authority,
            Some(delegate_record),
            payer,
            system_program,
            sysvar_instructions,
            spl_token_program,
            spl_ata_program,
            Some(authorization_rules_program),
            Some(authorization_rules),
        ) == seq![
            Participant { role: Role::TokenOwner, address: token_owner },
            Participant { role: Role::Metadata, address: metadata },
            Participant { role: Role::MasterEdition, address: master_edition },
            Participant { role: Role::TokenRecord, address: token_record },
            Participant { role: Role::Mint, address: mint_account },
            Participant { role: Role::Authority, address: authority },
            Participant { role: Role::DelegateRecord, address: delegate_record },
            Participant { role: Role::Payer, address: payer },
            Participant { role: Role::SystemProgram, address: system_program },
            Participant { role: Role::SysvarInstructions, address: sysvar_instructions },
            Participant { role: Role::TokenProgram, address: spl_token_program },
            Participant { role: Role::AtaProgram, address: spl_ata_program },
            Participant { role: Role::AuthorizationRulesProgram, address: authorization_rules_program },
            Participant { role: Role::AuthorizationRules, address: authorization_rules },
        ],
{
    assert(mint_accounts(
        Some(token_owner),
        metadata,
        Some(master_edition),
        Some(token_record),
        mint_account,
        authority,
        Some(delegate_record),
        payer,
        system_program,
        sysvar_instructions,
        spl_token_program,
        spl_ata_program,
        Some(authorization_rules_program),
        Some(authorization_rules),
    ) =~= seq![
        Participant { role: Role::TokenOwner, address: token_owner },
        Participant { role: Role::Metadata, address: metadata },
        Participant { role: Role::MasterEdition, address: master_edition },
        Participant { role: Role::TokenRecord, address: token_record },
        Participant { role: Role::Mint, address: mint_account },
        Participant { role: Role::Authority, address: authority },
        Participant { role: Role::DelegateRecord, address: delegate_record },
        Participant { role: Role::Payer, address: payer },
        Participant { role: Role::SystemProgram, address: system_program },
        Participant { role: Role::SysvarInstructions, address: sysvar_instructions },
        Participant { role: Role::TokenProgram, address: spl_token_program },
        Participant { role: Role::AtaProgram, address: spl_ata_program },
        Participant { role: Role::AuthorizationRulesProgram, address: authorization_rules_program },
        Participant { role: Role::AuthorizationRules, address: authorization_rules },
    ]);
}

} // verus!
