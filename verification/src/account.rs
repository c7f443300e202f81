use vstd::prelude::*;

verus! {

/// A 32-byte ledger address, held as four words. It stands for the handle
/// under which the host knows a resource or a program; the library only ever
/// compares addresses for equality and copies them into participant lists.
#[derive(Clone, Copy, Debug, PartialEq, Eq, Structural)]
pub struct Address {
    pub w0: u64,
    pub w1: u64,
    pub w2: u64,
    pub w3: u64,
}

/// The role a participant plays in an assembled instruction message. The
/// external metadata program identifies participants positionally; the role
/// tag records the key under which the message header associates each
/// address, so an assembled list carries both the positional and the
/// key-value form.
#[derive(Clone, Copy, Debug, PartialEq, Eq, Structural)]
pub enum Role {
    Metadata,
    Mint,
    Authority,
    Payer,
    UpdateAuthority,
    SystemProgram,
    SysvarInstructions,
    TokenProgram,
    AtaProgram,
    MasterEdition,
    MasterEditionMint,
    MasterEditionToken,
    EditionMarker,
    Edition,
    Token,
    TokenOwner,
    TokenRecord,
    DelegateRecord,
    Delegate,
    CollectionMetadata,
    CollectionMint,
    CollectionMasterEdition,
    SourceToken,
    SourceOwner,
    DestinationToken,
    DestinationOwner,
    SourceTokenRecord,
    DestinationTokenRecord,
    AuthorizationRulesProgram,
    AuthorizationRules,
}

/// One entry of an assembled participant list: an address under the role the
/// message header files it under.
#[derive(Clone, Copy, Debug, PartialEq, Eq, Structural)]
pub struct Participant {
    pub role: Role,
    pub address: Address,
}

} // verus!
