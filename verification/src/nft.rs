//! Messages of a collection of token records.

use vstd::prelude::*;
use crate::date::Timestamp;

verus! {

/// The name and symbol of a collection, and when they were last changed.
#[derive(Clone, Debug, PartialEq)]
pub struct CollectionInfo {
    pub name: String,
    pub symbol: String,
    pub updated_at: Timestamp,
}

#[derive(Clone, Debug, PartialEq)]
pub struct Cw721InstantiateMsg<TCollectionExtensionMsg> {
    /// Name of the NFT contract
    pub name: String,
    /// Symbol of the NFT contract
    pub symbol: String,
    /// Optional extension of the collection metadata
    pub collection_info_extension: TCollectionExtensionMsg,
    /// The minter is the only one who can create new NFTs.
    pub minter: Option<String>,
    /// The burner is the only one who can burn NFTs.
    pub burner: Option<String>,
    /// Sets the creator of collection. The creator is the only one eligible to update `CollectionInfo`.
    pub creator: Option<String>,
}

#[derive(Clone, Debug, PartialEq)]
pub struct CollectionInfoMsg<TCollectionExtensionMsg> {
    pub name: Option<String>,
    pub symbol: Option<String>,
    pub extension: TCollectionExtensionMsg,
}

/// The collection's info together with the collection's own settings.
#[derive(Clone, Debug, PartialEq)]
pub struct ContractInfoResponse<TCollectionExtensionMsg> {
    pub collection_info: CollectionInfo,
    pub collection_config: TCollectionExtensionMsg,
}

#[derive(Clone, Debug, PartialEq)]
pub struct OwnerOfResponse {
    /// Owner of the token
    pub owner: String,
}

#[derive(Clone, Copy, Debug, PartialEq)]
pub struct NumTokensResponse {
    pub count: u64,
}

#[derive(Clone, Debug, PartialEq)]
pub struct NftInfoResponse<TNftExtension> {
    /// What the collection keeps of the token beside its owner.
    pub extension: TNftExtension,
    pub owner: String,
    pub token_id: String,
}

#[derive(Clone, Debug, PartialEq)]
pub struct TokensResponse {
    /// Contains all token_ids in lexicographical ordering
    /// If there are more than `limit`, use `start_after` in future queries
    /// to achieve pagination.
    pub tokens: Vec<String>,
}

} // verus!
