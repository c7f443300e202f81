//! Support library for programs running inside a metered ledger host.
//!
//! Two independent subsystems are covered:
//!
//! - a rent-aware resize engine that grows or shrinks a resource's byte
//!   storage while keeping its backing deposit equal to the host-computed
//!   minimum for its size, decomposing large resizes into host-permitted
//!   bounded steps;
//! - an instruction assembler that builds, for each metadata operation, the
//!   exact ordered participant list the external metadata program expects,
//!   with optional participants omitted in place, and routes the finished
//!   message either through the plain or the authority-proof dispatch path.
//!
//! A collection/creator verification gate evaluates a decoded metadata claim
//! against caller-supplied allow-lists before privileged operations.

pub mod account;
pub mod errors;
pub mod metadata;
pub mod resize;
pub mod validate;

pub use account::{Address, Participant, Role};
pub use errors::{ResizeError, UtilErrors};
pub use metadata::{
    burn, create, create_nft, delegate, dispatch, lock, mint, revoke, transfer, unlock, update,
    verify,
    Authorization, CreateArgs, CreateRequest, Dispatched, Message, PrintSupply, ProofSet,
    TransferArgs,
};
pub use resize::{add_signed, reallocate, resize_steps, RentOracle, Resource, GROWTH_QUOTA};
pub use validate::{
    validate_collection_creator, Collection, Creator, MetadataClaim,
    ValidateCollectionCreatorOutput,
};
