use vstd::prelude::*;
use crate::account::Address;
use crate::errors::UtilErrors;

verus! {

/// A collection reference inside a decoded metadata claim.
#[derive(Clone, Copy, Debug, PartialEq, Eq, Structural)]
pub struct Collection {
    pub verified: bool,
    pub key: Address,
}

/// One creator entry inside a decoded metadata claim.
#[derive(Clone, Copy, Debug, PartialEq, Eq, Structural)]
pub struct Creator {
    pub address: Address,
    pub verified: bool,
}

/// A decoded metadata record, reduced to what the trust gate reads: an
/// optional collection reference and an optional ordered list of creators.
pub struct MetadataClaim {
    pub collection: Option<Collection>,
    pub creators: Option<Vec<Creator>>,
}

/// Which allow-list admitted the claim.
#[derive(Clone, Copy, Debug, PartialEq, Eq, Structural)]
pub enum ValidateCollectionCreatorOutput {
    Collection { address: Address },
    Creator { address: Address },
}

/// The claim names a verified collection that stands in the allow-list. An
/// empty allow-list disables this branch.
pub open spec fn spec_collection_match(claim: MetadataClaim, collections: Seq<Address>) -> bool {
    &&& collections.len() > 0
    &&& claim.collection is Some
    &&& claim.collection->Some_0.verified
    &&& collections.contains(claim.collection->Some_0.key)
}

/// The creator at index `i` of the claim's creator list is verified and
/// stands in the allow-list.
pub open spec fn spec_creator_match_at(entries: Seq<Creator>, creators: Seq<Address>, i: int) -> bool {
    &&& entries[i].verified
    &&& creators.contains(entries[i].address)
}

/// Some creator entry of the claim matches the allow-list. An empty
/// allow-list disables this branch.
pub open spec fn spec_creator_match(claim: MetadataClaim, creators: Seq<Address>) -> bool {
    &&& creators.len() > 0
    &&& claim.creators is Some
    &&& exists|i: int|
        0 <= i < claim.creators->Some_0@.len() && spec_creator_match_at(claim.creators->Some_0@, creators, i)
}

/// Decides whether `list` holds `x`.
fn contains_address(list: &Vec<Address>, x: &Address) -> (r: bool)
    ensures
        r == list@.contains(*x),
{
    let mut i: usize = 0;
    while i < list.len()
        invariant
            0 <= i <= list@.len(),
            forall|j: int| 0 <= j < i ==> list@[j] != *x,
        decreases list@.len() - i,
    {
        if list[i] == *x {
            return true;
        }
        i = i + 1;
    }
    false
}

/// The trust gate used before privileged operations on an asset: admits a
/// claim whose verified collection stands in the collection allow-list, or
/// failing that, whose first verified creator stands in the creator
/// allow-list; rejects everything else as an invalid asset. Empty
/// allow-lists never match.
pub fn validate_collection_creator(
    metadata: &MetadataClaim,
    collections: &Vec<Address>,
    creators: &Vec<Address>,
) -> (r: Result<ValidateCollectionCreatorOutput, UtilErrors>)
    ensures
        spec_collection_match(*metadata, collections@) ==> r == Ok::<
            ValidateCollectionCreatorOutput,
            UtilErrors,
        >(ValidateCollectionCreatorOutput::Collection { address: metadata.collection->Some_0.key }),
        !spec_collection_match(*metadata, collections@) && spec_creator_match(*metadata, creators@)
            ==> {
            exists|i: int|
                {
                    &&& 0 <= i < metadata.creators->Some_0@.len()
                    &&& spec_creator_match_at(metadata.creators->Some_0@, creators@, i)
                    &&& forall|j: int|
                        0 <= j < i ==> !spec_creator_match_at(metadata.creators->Some_0@, creators@, j)
                    &&& r == Ok::<ValidateCollectionCreatorOutput, UtilErrors>(
                        ValidateCollectionCreatorOutput::Creator {
                            address: metadata.creators->Some_0@[i].address,
                        },
                    )
                }
        },
        !spec_collection_match(*metadata, collections@) && !spec_creator_match(*metadata, creators@)
            ==> r == Err::<ValidateCollectionCreatorOutput, UtilErrors>(UtilErrors::InvalidNFT),
{
    if collections.len() > 0 {
        if let Some(collection) = &metadata.collection {
            if collection.verified && contains_address(collections, &collection.key) {
                return Ok(ValidateCollectionCreatorOutput::Collection { address: collection.key });
            }
        }
    }
    if creators.len() > 0 {
        if let Some(metadata_creators) = &metadata.creators {
            let mut i: usize = 0;
            while i < metadata_creators.len()
                invariant
                    0 <= i <= metadata_creators@.len(),
                    metadata.creators is Some,
                    metadata_creators@ == metadata.creators->Some_0@,
                    !spec_collection_match(*metadata, collections@),
                    forall|j: int|
                        0 <= j < i ==> !spec_creator_match_at(metadata_creators@, creators@, j),
                decreases metadata_creators@.len() - i,
            {
                let entry = &metadata_creators[i];
                if entry.verified && contains_address(creators, &entry.address) {
                    proof {
                        assert(metadata.creators->Some_0@ == metadata_creators@);
                        assert(spec_creator_match_at(metadata.creators->Some_0@, creators@, i as int));
                        assert(forall|j: int|
                            0 <= j < i ==> !spec_creator_match_at(
                                metadata.creators->Some_0@,
                                creators@,
                                j,
                            ));
                    }
                    return Ok(ValidateCollectionCreatorOutput::Creator { address: entry.address });
                }
                i = i + 1;
            }
        }
    }
    Err(UtilErrors::InvalidNFT)
}

} // verus!
