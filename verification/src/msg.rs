//! The messages the client exchanges with a cw721 contract: the execute and
//! query request variants it produces, the typed response records it decodes,
//! and the client's error taxonomy.

use vstd::prelude::*;

verus! {

/// A read-only query against the contract, one variant per supported lookup.
/// Pagination-bearing variants carry the cursor and page size verbatim; the
/// contract owns pagination semantics and defaults.
#[derive(Clone, Debug, PartialEq)]
pub enum Cw721QueryMsg {
    OwnerOf { token_id: String, include_expired: Option<bool> },
    Approval { token_id: String, spender: String, include_expired: Option<bool> },
    Approvals { token_id: String, include_expired: Option<bool> },
    AllOperators {
        owner: String,
        include_expired: Option<bool>,
        start_after: Option<String>,
        limit: Option<u32>,
    },
    NumTokens {},
    GetCollectionMetadata {},
    NftInfo { token_id: String },
    AllNftInfo { token_id: String, include_expired: Option<bool> },
    Tokens { owner: String, start_after: Option<String>, limit: Option<u32> },
    AllTokens { start_after: Option<String>, limit: Option<u32> },
}

/// A state-mutating request for the contract, forwarded untouched inside the
/// call envelope built by [`crate::helpers::Cw721Helper::call`].
#[derive(Clone, Debug, PartialEq)]
pub enum Cw721ExecuteMsg {
    TransferNft { recipient: String, token_id: String },
    SendNft { contract: String, token_id: String, msg: String },
    Approve { spender: String, token_id: String },
    Revoke { spender: String, token_id: String },
    ApproveAll { operator: String },
    RevokeAll { operator: String },
    Burn { token_id: String },
}

/// When a grant of approval lapses.
#[derive(Clone, Debug, PartialEq)]
pub enum Expiration {
    AtHeight(u64),
    AtTime(u64),
    Never {},
}

/// One grant: a spender and when it lapses.
#[derive(Clone, Debug, PartialEq)]
pub struct Approval {
    pub spender: String,
    pub expires: Expiration,
}

/// An amount of one ledger denomination, attached to a call envelope.
#[derive(Clone, Debug, PartialEq)]
pub struct Coin {
    pub denom: String,
    pub amount: u128,
}

/// The outbound call envelope: the target contract, the serialized execute
/// request, and the funds attached to the call.
#[derive(Clone, Debug, PartialEq)]
pub struct ExecuteEnvelope {
    pub contract_addr: String,
    pub msg: String,
    pub funds: Vec<Coin>,
}

/// Why a client operation failed.  The client performs no recovery: every
/// error propagates to the caller, except inside the two capability probes.
#[derive(Clone, Debug, PartialEq)]
pub enum Cw721HelperError {
    /// The request could not be encoded.  The client's encoder is total, so
    /// its own operations never return this; it exists for callers that
    /// build payloads through other channels.
    Serialization,
    /// The transport reported a failure; the message is the transport's own.
    Query(String),
    /// The reply did not parse as the expected response record.
    Deserialization,
}

/// Reply to an ownership lookup.
#[derive(Clone, Debug, PartialEq)]
pub struct OwnerOfResponse {
    pub owner: String,
    pub approvals: Vec<Approval>,
}

/// Reply to a single-spender approval lookup.
#[derive(Clone, Debug, PartialEq)]
pub struct ApprovalResponse {
    pub approval: Approval,
}

/// Reply to an approvals-for-token lookup.
#[derive(Clone, Debug, PartialEq)]
pub struct ApprovalsResponse {
    pub approvals: Vec<Approval>,
}

/// Reply to an operator listing.
#[derive(Clone, Debug, PartialEq)]
pub struct OperatorsResponse {
    pub operators: Vec<Approval>,
}

/// Reply to a token count query.
#[derive(Clone, Debug, PartialEq)]
pub struct NumTokensResponse {
    pub count: u64,
}

/// Collection-level metadata; the optional extension carries the
/// contract-specific payload.
#[derive(Clone, Debug, PartialEq)]
pub struct CollectionMetadata {
    pub name: String,
    pub symbol: String,
    pub extension: Option<String>,
}

/// Per-token metadata; the optional extension carries the contract-specific
/// payload.
#[derive(Clone, Debug, PartialEq)]
pub struct NftInfoResponse {
    pub token_uri: Option<String>,
    pub extension: Option<String>,
}

/// Ownership and metadata of one token in a single reply.
#[derive(Clone, Debug, PartialEq)]
pub struct AllNftInfoResponse {
    pub access: OwnerOfResponse,
    pub info: NftInfoResponse,
}

/// Reply to a token enumeration.
#[derive(Clone, Debug, PartialEq)]
pub struct TokensResponse {
    pub tokens: Vec<String>,
}

} // verus!
