use nft_utils::{
    burn, create, create_nft, delegate, dispatch, lock, mint, revoke, transfer, unlock, verify,
    Address, Authorization, CreateArgs, CreateRequest, Dispatched, Message, Participant,
    PrintSupply, ProofSet, Role, TransferArgs,
};

fn addr(n: u64) -> Address {
    Address { w0: n, w1: n + 1, w2: n + 2, w3: n + 3 }
}

fn roles<A>(d: &Dispatched<A>) -> Vec<Role> {
    message(d).accounts.iter().map(|p| p.role).collect()
}

fn message<A>(d: &Dispatched<A>) -> &Message<A> {
    match d {
        Dispatched::Plain(m) => m,
        Dispatched::Authorized(m, _) => m,
    }
}

#[test]
fn dispatch_routes_by_authorization() {
    let m = Message { accounts: Vec::new(), args: 1u8 };
    let d = dispatch(m, Authorization::Unauthorized);
    assert!(matches!(d, Dispatched::Plain(_)));

    let m = Message { accounts: Vec::new(), args: 1u8 };
    let proofs = ProofSet { seeds: vec![vec![1, 2, 3], vec![4]] };
    let d = dispatch(m, Authorization::AuthorizedWith(proofs));
    match d {
        Dispatched::Authorized(_, p) => assert_eq!(p.seeds, vec![vec![1, 2, 3], vec![4]]),
        Dispatched::Plain(_) => panic!("expected the authorized path"),
    }
}

#[test]
fn mint_with_no_optionals_has_exactly_the_fixed_entries() {
    let d = mint(
        9u32,
        None,
        addr(1),
        None,
        None,
        addr(2),
        addr(3),
        None,
        addr(4),
        addr(5),
        addr(6),
        addr(7),
        addr(8),
        None,
        None,
        Authorization::Unauthorized,
    );
    let m = message(&d);
    assert_eq!(m.args, 9u32);
    assert_eq!(
        m.accounts,
        vec![
            Participant { role: Role::Metadata, address: addr(1) },
            Participant { role: Role::Mint, address: addr(2) },
            Participant { role: Role::Authority, address: addr(3) },
            Participant { role: Role::Payer, address: addr(4) },
            Participant { role: Role::SystemProgram, address: addr(5) },
            Participant { role: Role::SysvarInstructions, address: addr(6) },
            Participant { role: Role::TokenProgram, address: addr(7) },
            Participant { role: Role::AtaProgram, address: addr(8) },
        ]
    );
}

#[test]
fn mint_with_every_optional_keeps_declared_positions() {
    let d = mint(
        (),
        Some(addr(10)),
        addr(1),
        Some(addr(11)),
        Some(addr(12)),
        addr(2),
        addr(3),
        Some(addr(13)),
        addr(4),
        addr(5),
        addr(6),
        addr(7),
        addr(8),
        Some(addr(14)),
        Some(addr(15)),
        Authorization::Unauthorized,
    );
    assert_eq!(
        roles(&d),
        vec![
            Role::TokenOwner,
            Role::Metadata,
            Role::MasterEdition,
            Role::TokenRecord,
            Role::Mint,
            Role::Authority,
            Role::DelegateRecord,
            Role::Payer,
            Role::SystemProgram,
            Role::SysvarInstructions,
            Role::TokenProgram,
            Role::AtaProgram,
            Role::AuthorizationRulesProgram,
            Role::AuthorizationRules,
        ]
    );
}

#[test]
fn create_places_master_edition_after_metadata() {
    let d = create(
        5u8,
        true,
        false,
        addr(1),
        Some(addr(9)),
        addr(2),
        addr(3),
        addr(4),
        addr(5),
        addr(6),
        addr(7),
        addr(8),
        Authorization::Unauthorized,
    );
    let m = message(&d);
    assert_eq!(m.args.args, 5u8);
    assert!(m.args.initialize_mint);
    assert!(!m.args.update_authority_as_signer);
    assert_eq!(
        roles(&d),
        vec![
            Role::Metadata,
            Role::MasterEdition,
            Role::Mint,
            Role::Authority,
            Role::Payer,
            Role::UpdateAuthority,
            Role::SystemProgram,
            Role::SysvarInstructions,
            Role::TokenProgram,
        ]
    );
}

#[test]
fn create_nft_fixes_decimals_and_print_supply() {
    let d = create_nft(
        "asset",
        true,
        true,
        addr(1),
        addr(9),
        addr(2),
        addr(3),
        addr(4),
        addr(5),
        addr(6),
        addr(7),
        addr(8),
        Authorization::Unauthorized,
    );
    let m = message(&d);
    let CreateRequest { args: CreateArgs { asset_data, decimals, print_supply }, .. } = &m.args;
    assert_eq!(*asset_data, "asset");
    assert_eq!(*decimals, Some(0));
    assert_eq!(*print_supply, Some(PrintSupply::Zero));
    assert_eq!(roles(&d)[0], Role::Metadata);
    assert_eq!(roles(&d)[1], Role::MasterEdition);
    assert_eq!(roles(&d).len(), 9);
}

#[test]
fn burn_layout_with_some_optionals() {
    let d = burn(
        0u8,
        addr(1),
        None,
        addr(2),
        Some(addr(10)),
        addr(3),
        addr(4),
        None,
        None,
        None,
        None,
        Some(addr(11)),
        addr(5),
        addr(6),
        addr(7),
        Authorization::Unauthorized,
    );
    assert_eq!(
        roles(&d),
        vec![
            Role::Authority,
            Role::Metadata,
            Role::Edition,
            Role::Mint,
            Role::Token,
            Role::TokenRecord,
            Role::SystemProgram,
            Role::SysvarInstructions,
            Role::TokenProgram,
        ]
    );
}

#[test]
fn update_layout_with_no_optionals() {
    let d = update_call(None, None, None, None, None);
    assert_eq!(
        roles(&d),
        vec![
            Role::Authority,
            Role::Mint,
            Role::Metadata,
            Role::Payer,
            Role::SystemProgram,
            Role::SysvarInstructions,
        ]
    );
}

#[test]
fn update_layout_with_every_optional() {
    let d = update_call(Some(addr(10)), Some(addr(11)), Some(addr(12)), Some(addr(13)), Some(addr(14)));
    assert_eq!(
        roles(&d),
        vec![
            Role::Authority,
            Role::DelegateRecord,
            Role::Token,
            Role::Mint,
            Role::Metadata,
            Role::Edition,
            Role::Payer,
            Role::SystemProgram,
            Role::SysvarInstructions,
            Role::AuthorizationRulesProgram,
            Role::AuthorizationRules,
        ]
    );
}

fn update_call(
    delegate_record: Option<Address>,
    token: Option<Address>,
    edition: Option<Address>,
    rules_program: Option<Address>,
    rules: Option<Address>,
) -> Dispatched<u8> {
    nft_utils::update(
        0u8,
        delegate_record,
        token,
        addr(1),
        addr(2),
        edition,
        addr(3),
        addr(4),
        addr(5),
        addr(6),
        rules_program,
        rules,
        Authorization::Unauthorized,
    )
}

#[test]
fn transfer_layout_and_amount() {
    let d = transfer(
        77,
        addr(1),
        addr(2),
        addr(3),
        addr(4),
        addr(5),
        addr(6),
        Some(addr(10)),
        None,
        None,
        addr(7),
        addr(8),
        addr(9),
        addr(20),
        addr(21),
        addr(22),
        None,
        None,
        Authorization::Unauthorized,
    );
    let m = message(&d);
    assert_eq!(m.args, TransferArgs { amount: 77 });
    assert_eq!(
        roles(&d),
        vec![
            Role::SourceToken,
            Role::SourceOwner,
            Role::DestinationToken,
            Role::DestinationOwner,
            Role::Mint,
            Role::Metadata,
            Role::Edition,
            Role::Authority,
            Role::Payer,
            Role::SystemProgram,
            Role::TokenProgram,
            Role::AtaProgram,
            Role::SysvarInstructions,
        ]
    );
}

#[test]
fn lock_and_unlock_share_their_layout() {
    let d = lock(
        addr(1),
        addr(2),
        addr(3),
        Some(addr(10)),
        addr(4),
        None,
        Some(addr(11)),
        addr(5),
        addr(6),
        addr(7),
        addr(8),
        None,
        None,
        Authorization::Unauthorized,
    );
    let expected = vec![
        Role::Authority,
        Role::TokenOwner,
        Role::Token,
        Role::Mint,
        Role::Metadata,
        Role::TokenRecord,
        Role::Payer,
        Role::SystemProgram,
        Role::SysvarInstructions,
        Role::TokenProgram,
    ];
    assert_eq!(roles(&d), expected);
    let d = unlock(
        addr(1),
        addr(2),
        addr(3),
        Some(addr(10)),
        addr(4),
        None,
        Some(addr(11)),
        addr(5),
        addr(6),
        addr(7),
        addr(8),
        None,
        None,
        Authorization::Unauthorized,
    );
    assert_eq!(roles(&d), expected);
}

#[test]
fn delegate_and_revoke_share_their_layout() {
    let expected = vec![
        Role::DelegateRecord,
        Role::Delegate,
        Role::Metadata,
        Role::Mint,
        Role::Token,
        Role::Authority,
        Role::Payer,
        Role::SystemProgram,
        Role::SysvarInstructions,
        Role::TokenProgram,
    ];
    let d = delegate(
        0u8,
        Some(addr(10)),
        addr(1),
        addr(2),
        None,
        None,
        addr(3),
        addr(4),
        addr(5),
        addr(6),
        addr(7),
        addr(8),
        addr(9),
        None,
        None,
        Authorization::Unauthorized,
    );
    assert_eq!(roles(&d), expected);
    let d = revoke(
        0u8,
        Some(addr(10)),
        addr(1),
        addr(2),
        None,
        None,
        addr(3),
        addr(4),
        addr(5),
        addr(6),
        addr(7),
        addr(8),
        addr(9),
        None,
        None,
        Authorization::Unauthorized,
    );
    assert_eq!(roles(&d), expected);
}

#[test]
fn verify_layout_with_collection_entries() {
    let d = verify(
        0u8,
        addr(1),
        None,
        addr(2),
        Some(addr(10)),
        Some(addr(11)),
        Some(addr(12)),
        addr(3),
        addr(4),
        Authorization::Unauthorized,
    );
    assert_eq!(
        roles(&d),
        vec![
            Role::Authority,
            Role::Metadata,
            Role::CollectionMint,
            Role::CollectionMetadata,
            Role::CollectionMasterEdition,
            Role::SystemProgram,
            Role::SysvarInstructions,
        ]
    );
}

#[test]
fn assembly_routes_through_the_authorized_path() {
    let proofs = ProofSet { seeds: vec![vec![9, 9]] };
    let d = lock(
        addr(1),
        addr(2),
        addr(3),
        None,
        addr(4),
        None,
        None,
        addr(5),
        addr(6),
        addr(7),
        addr(8),
        None,
        None,
        Authorization::AuthorizedWith(proofs),
    );
    match d {
        Dispatched::Authorized(_, p) => assert_eq!(p.seeds, vec![vec![9, 9]]),
        Dispatched::Plain(_) => panic!("expected the authorized path"),
    }
}
