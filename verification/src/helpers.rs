//! The contract client: a stateless value wrapping a contract address, with
//! one method per supported execute and query operation.
//!
//! Queries go through a caller-supplied [`Transport`] capability; the client
//! never constructs one itself and promises nothing about what the transport
//! returns.  Everything around the transport call — building the canonical
//! request, decoding the reply — is specified exactly.

use vstd::prelude::*;

use crate::codec::{encode_execute, encode_query, spec_execute_json};
use crate::json::{dec_digits, jopt_str, jstr, str_to_chars};
use crate::msg::{
    AllNftInfoResponse, Approval, ApprovalResponse, ApprovalsResponse, Coin, CollectionMetadata,
    Cw721ExecuteMsg, Cw721HelperError, Cw721QueryMsg, ExecuteEnvelope, NftInfoResponse,
    NumTokensResponse, OperatorsResponse, OwnerOfResponse, TokensResponse,
};
use crate::response::{
    decode_collection_metadata, decode_num_tokens, decode_tokens_response, JsonResponse,
};

verus! {

/// The querying capability the caller supplies: one synchronous smart query
/// against a contract, returning the reply text or the transport's own error
/// message.  Nothing is promised of the result; the client states what holds
/// whatever comes back.
pub trait Transport {
    /// Issues the serialized query `msg` to the contract at `contract_addr`.
    fn smart_query(&self, contract_addr: &str, msg: &str) -> Result<String, String>;
}

/// Decodes a transport reply into the typed record `T`.  Exact on success
/// — the accepted reply is precisely the record's canonical encoding — and,
/// for the records whose decoder is proved complete, success is owed on
/// every canonical reply.
pub fn decode_response<T: JsonResponse>(raw: &str) -> (r: Result<T, Cw721HelperError>)
    ensures
        r matches Ok(v) ==> raw@ == v.to_json(),
        r matches Err(e) ==> e == Cw721HelperError::Deserialization,
        forall|v: T|
            #![trigger v.to_json()]
            T::decode_complete() && raw@ == v.to_json() ==> r is Ok,
{
    let cs = str_to_chars(raw);
    match T::decode_chars(&cs) {
        Some(v) => Ok(v),
        None => Err(Cw721HelperError::Deserialization),
    }
}

/// What the query path returns for each transport reply: a transport error
/// propagates unchanged inside `Query`; a reply accepted by the decoder is
/// exactly the returned record's canonical encoding; anything else is
/// `Deserialization`.
pub fn response_from_reply<T: JsonResponse>(reply: Result<String, String>) -> (r: Result<
    T,
    Cw721HelperError,
>)
    ensures
        reply matches Err(e) ==> (r matches Err(q) && q == Cw721HelperError::Query(e)),
        r matches Ok(v) ==> (reply matches Ok(raw) && raw@ == v.to_json()),
        r matches Err(e) ==> e is Query || e is Deserialization,
        forall|v: T|
            #![trigger v.to_json()]
            (T::decode_complete() && (reply matches Ok(raw) && raw@ == v.to_json())) ==> r
                is Ok,
{
    match reply {
        Ok(raw) => decode_response::<T>(raw.as_str()),
        Err(e) => Err(Cw721HelperError::Query(e)),
    }
}

/// The request [`Cw721Helper::owner_of`] issues: the expiry flag always
/// wrapped in `Some`.
pub fn owner_of_request(token_id: String, include_expired: bool) -> (r: Cw721QueryMsg)
    ensures
        r == (Cw721QueryMsg::OwnerOf { token_id, include_expired: Some(include_expired) }),
{
    Cw721QueryMsg::OwnerOf { token_id, include_expired: Some(include_expired) }
}

/// The request [`Cw721Helper::approval`] issues: the expiry flag forwarded
/// verbatim, not wrapped.
pub fn approval_request(token_id: String, spender: String, include_expired: Option<bool>) -> (r:
    Cw721QueryMsg)
    ensures
        r == (Cw721QueryMsg::Approval { token_id, spender, include_expired }),
{
    Cw721QueryMsg::Approval { token_id, spender, include_expired }
}

/// The request [`Cw721Helper::approvals`] issues: the expiry flag forwarded
/// verbatim, not wrapped.
pub fn approvals_request(token_id: String, include_expired: Option<bool>) -> (r: Cw721QueryMsg)
    ensures
        r == (Cw721QueryMsg::Approvals { token_id, include_expired }),
{
    Cw721QueryMsg::Approvals { token_id, include_expired }
}

/// The request [`Cw721Helper::num_tokens`] issues.
pub fn num_tokens_request() -> (r: Cw721QueryMsg)
    ensures
        r == (Cw721QueryMsg::NumTokens {  }),
{
    Cw721QueryMsg::NumTokens {  }
}

/// The request [`Cw721Helper::collection_metadata`] and the metadata probe
/// issue.
pub fn collection_metadata_request() -> (r: Cw721QueryMsg)
    ensures
        r == (Cw721QueryMsg::GetCollectionMetadata {  }),
{
    Cw721QueryMsg::GetCollectionMetadata {  }
}

/// The request [`Cw721Helper::nft_info`] issues.
pub fn nft_info_request(token_id: String) -> (r: Cw721QueryMsg)
    ensures
        r == (Cw721QueryMsg::NftInfo { token_id }),
{
    Cw721QueryMsg::NftInfo { token_id }
}

/// The request [`Cw721Helper::all_nft_info`] issues: the expiry flag always
/// wrapped in `Some`.
pub fn all_nft_info_request(token_id: String, include_expired: bool) -> (r: Cw721QueryMsg)
    ensures
        r == (Cw721QueryMsg::AllNftInfo { token_id, include_expired: Some(include_expired) }),
{
    Cw721QueryMsg::AllNftInfo { token_id, include_expired: Some(include_expired) }
}

/// The request [`Cw721Helper::tokens`] issues: cursor and page size are
/// forwarded verbatim, with no substitution.
pub fn tokens_request(owner: String, start_after: Option<String>, limit: Option<u32>) -> (r:
    Cw721QueryMsg)
    ensures
        r == (Cw721QueryMsg::Tokens { owner, start_after, limit }),
{
    Cw721QueryMsg::Tokens { owner, start_after, limit }
}

/// The request [`Cw721Helper::all_tokens`] issues: cursor and page size are
/// forwarded verbatim, with no substitution.
pub fn all_tokens_request(start_after: Option<String>, limit: Option<u32>) -> (r: Cw721QueryMsg)
    ensures
        r == (Cw721QueryMsg::AllTokens { start_after, limit }),
{
    Cw721QueryMsg::AllTokens { start_after, limit }
}

/// The request [`Cw721Helper::all_operators`] issues: cursor and page size
/// are forwarded verbatim, with no substitution.
pub fn all_operators_request(
    owner: String,
    include_expired: bool,
    start_after: Option<String>,
    limit: Option<u32>,
) -> (r: Cw721QueryMsg)
    ensures
        r == (Cw721QueryMsg::AllOperators {
            owner,
            include_expired: Some(include_expired),
            start_after,
            limit,
        }),
{
    Cw721QueryMsg::AllOperators { owner, include_expired: Some(include_expired), start_after, limit }
}

/// What [`Cw721Helper::num_tokens`] returns for each transport reply: on
/// success the bare count field of the decoded record, whose canonical
/// encoding is exactly the reply; a reply that is the canonical encoding
/// of a count record always succeeds with that count; a transport error
/// propagates unchanged as `Query`; anything else is `Deserialization`.
pub fn num_tokens_from_reply(reply: Result<String, String>) -> (r: Result<u64, Cw721HelperError>)
    ensures
        reply matches Err(e) ==> (r matches Err(q) && q == Cw721HelperError::Query(e)),
        r matches Ok(n) ==> (reply matches Ok(raw) && exists|resp: NumTokensResponse|
            raw@ == resp.to_json() && n == resp.count),
        forall|m: u64|
            #![trigger dec_digits(m as nat)]
            (reply matches Ok(raw) && raw@ == "{\"count\":"@ + dec_digits(m as nat) + "}"@) ==> (r matches Ok(n) && n == m),
        r matches Err(e) ==> e is Query || e is Deserialization,
{
    match reply {
        Ok(raw) => {
            let cs = str_to_chars(raw.as_str());
            match decode_num_tokens(&cs) {
                Some(resp) => {
                    proof {
                        assert(raw@ == resp.to_json() && resp.count == resp.count);
                    }
                    Ok(resp.count)
                },
                None => Err(Cw721HelperError::Deserialization),
            }
        },
        Err(e) => Err(Cw721HelperError::Query(e)),
    }
}

/// What [`Cw721Helper::all_operators`] returns for each transport reply: on
/// success the bare operator list of the decoded record, whose canonical
/// encoding is exactly the reply; a transport error propagates unchanged as
/// `Query`; anything else is `Deserialization`.
pub fn operators_from_reply(reply: Result<String, String>) -> (r: Result<
    Vec<Approval>,
    Cw721HelperError,
>)
    ensures
        reply matches Err(e) ==> (r matches Err(q) && q == Cw721HelperError::Query(e)),
        r matches Ok(ops) ==> (reply matches Ok(raw) && exists|resp: OperatorsResponse|
            raw@ == resp.to_json() && ops == resp.operators),
        r matches Err(e) ==> e is Query || e is Deserialization,
{
    match reply {
        Ok(raw) => {
            let d: Result<OperatorsResponse, Cw721HelperError> = decode_response(raw.as_str());
            match d {
                Ok(resp) => {
                    proof {
                        assert(raw@ == resp.to_json() && resp.operators == resp.operators);
                    }
                    Ok(resp.operators)
                },
                Err(e) => Err(e),
            }
        },
        Err(e) => Err(Cw721HelperError::Query(e)),
    }
}

/// Decides the metadata probe from the transport's reply: a transport
/// error, as well as a reply that is not a collection metadata record,
/// collapses to `false`; `true` comes exactly from a reply that is a
/// collection metadata record's canonical encoding.
pub fn metadata_probe_outcome(reply: Result<String, String>) -> (r: bool)
    ensures
        reply matches Err(e) ==> r == false,
        r == true ==> (reply matches Ok(raw) && exists|v: CollectionMetadata|
            raw@ == v.to_json()),
        forall|nm: Seq<char>, sy: Seq<char>, exv: Option<Seq<char>>|
            #![trigger jstr(nm), jstr(sy), jopt_str(exv)]
            (reply matches Ok(raw) && raw@ == "{\"name\":"@ + jstr(nm) + ",\"symbol\":"@ + jstr(sy)
                + ",\"extension\":"@ + jopt_str(exv) + "}"@) ==> r == true,
{
    match reply {
        Ok(raw) => {
            let cs = str_to_chars(raw.as_str());
            match decode_collection_metadata(&cs) {
                Some(v) => {
                    proof {
                        assert(raw@ == v.to_json());
                    }
                    true
                },
                None => false,
            }
        },
        Err(_) => false,
    }
}

/// Decides the enumerable probe from the transport's reply, as
/// [`metadata_probe_outcome`] does for the metadata probe: `true` only on a
/// reply that is exactly a token-enumeration record's canonical encoding,
/// `false` on everything else.
pub fn enumerable_probe_outcome(reply: Result<String, String>) -> (r: bool)
    ensures
        reply matches Err(e) ==> r == false,
        r == true ==> (reply matches Ok(raw) && exists|v: TokensResponse| raw@ == v.to_json()),
        (reply matches Ok(raw) && raw@ == "{\"tokens\":[]}"@) ==> r == true,
{
    match reply {
        Ok(raw) => {
            let cs = str_to_chars(raw.as_str());
            match decode_tokens_response(&cs) {
                Some(v) => {
                    proof {
                        assert(raw@ == v.to_json());
                    }
                    true
                },
                None => false,
            }
        },
        Err(_) => false,
    }
}

/// A client for one cw721 contract: the contract's address, stored verbatim
/// at construction and immutable afterwards.  No other state exists.
pub struct Cw721Helper(pub String);

/// The client's earlier name, kept as a compatibility surface.
pub type Cw721Contract = Cw721Helper;

impl Cw721Helper {
    /// Wraps a contract address.  No validation: address format and
    /// existence are the ledger's responsibility.
    pub fn new(addr: String) -> (r: Self)
        ensures
            r.0@ == addr@,
    {
        Cw721Helper(addr)
    }

    /// The wrapped contract address.
    pub fn addr(&self) -> (r: String)
        ensures
            r@ == self.0@,
    {
        self.0.clone()
    }

    /// Builds the outbound call envelope for an execute request: the
    /// client's address as target, the request's canonical encoding as
    /// payload, and an empty attached-funds list, whatever the request.
    /// The encoder is total, so this always succeeds; the `Result` is the
    /// defensive surface callers expect.
    pub fn call(&self, msg: Cw721ExecuteMsg) -> (r: Result<ExecuteEnvelope, Cw721HelperError>)
        ensures
            r is Ok,
            r matches Ok(e) ==> e.contract_addr@ == self.0@ && e.msg@ == spec_execute_json(msg)
                && e.funds@ == Seq::<Coin>::empty(),
    {
        let payload = encode_execute(&msg);
        let funds: Vec<Coin> = Vec::new();
        proof {
            assert(funds@ =~= Seq::<Coin>::empty());
        }
        Ok(ExecuteEnvelope { contract_addr: self.addr(), msg: payload, funds })
    }

    /// Serializes `req`, issues it through the transport, and decodes the
    /// reply through [`response_from_reply`], which fixes what comes back
    /// for each reply value.  Encoding is total, so a `Serialization` error
    /// never comes out: every failure is the transport's (`Query`) or a
    /// reply that is not the expected record (`Deserialization`).
    pub fn query<T: JsonResponse, Q: Transport>(&self, querier: &Q, req: Cw721QueryMsg) -> (r:
        Result<T, Cw721HelperError>)
        ensures
            r matches Err(e) ==> e is Query || e is Deserialization,
    {
        let payload = encode_query(&req);
        let reply = querier.smart_query(self.0.as_str(), payload.as_str());
        response_from_reply::<T>(reply)
    }

    /// Looks up the owner of `token_id`.
    pub fn owner_of<Q: Transport>(
        &self,
        querier: &Q,
        token_id: String,
        include_expired: bool,
    ) -> (r: Result<OwnerOfResponse, Cw721HelperError>)
        ensures
            r matches Err(e) ==> e is Query || e is Deserialization,
    {
        let req = owner_of_request(token_id, include_expired);
        self.query(querier, req)
    }

    /// Looks up one spender's approval on `token_id`.
    pub fn approval<Q: Transport>(
        &self,
        querier: &Q,
        token_id: String,
        spender: String,
        include_expired: Option<bool>,
    ) -> (r: Result<ApprovalResponse, Cw721HelperError>)
        ensures
            r matches Err(e) ==> e is Query || e is Deserialization,
    {
        let req = approval_request(token_id, spender, include_expired);
        let res: ApprovalResponse = match self.query(querier, req) {
            Ok(v) => v,
            Err(e) => { return Err(e); },
        };
        Ok(res)
    }

    /// Lists the approvals on `token_id`.
    pub fn approvals<Q: Transport>(
        &self,
        querier: &Q,
        token_id: String,
        include_expired: Option<bool>,
    ) -> (r: Result<ApprovalsResponse, Cw721HelperError>)
        ensures
            r matches Err(e) ==> e is Query || e is Deserialization,
    {
        let req = approvals_request(token_id, include_expired);
        let res: ApprovalsResponse = match self.query(querier, req) {
            Ok(v) => v,
            Err(e) => { return Err(e); },
        };
        Ok(res)
    }

    /// Lists an owner's operators, unwrapping the reply to the bare list.
    /// Cursor and page size go to the contract verbatim.
    pub fn all_operators<Q: Transport>(
        &self,
        querier: &Q,
        owner: String,
        include_expired: bool,
        start_after: Option<String>,
        limit: Option<u32>,
    ) -> (r: Result<Vec<Approval>, Cw721HelperError>)
        ensures
            r matches Err(e) ==> e is Query || e is Deserialization,
    {
        let req = all_operators_request(owner, include_expired, start_after, limit);
        let payload = encode_query(&req);
        let reply = querier.smart_query(self.0.as_str(), payload.as_str());
        operators_from_reply(reply)
    }

    /// The number of tokens in the collection: the bare count field of the
    /// reply, not the wrapping record.
    pub fn num_tokens<Q: Transport>(&self, querier: &Q) -> (r: Result<u64, Cw721HelperError>)
        ensures
            r matches Err(e) ==> e is Query || e is Deserialization,
    {
        let req = num_tokens_request();
        let payload = encode_query(&req);
        let reply = querier.smart_query(self.0.as_str(), payload.as_str());
        num_tokens_from_reply(reply)
    }

    /// Collection-level metadata, where the contract implements the
    /// metadata extension.
    pub fn collection_metadata<Q: Transport>(&self, querier: &Q) -> (r: Result<
        CollectionMetadata,
        Cw721HelperError,
    >)
        ensures
            r matches Err(e) ==> e is Query || e is Deserialization,
    {
        let req = collection_metadata_request();
        self.query(querier, req)
    }

    /// Per-token metadata, where the contract implements the metadata
    /// extension.
    pub fn nft_info<Q: Transport>(&self, querier: &Q, token_id: String) -> (r: Result<
        NftInfoResponse,
        Cw721HelperError,
    >)
        ensures
            r matches Err(e) ==> e is Query || e is Deserialization,
    {
        let req = nft_info_request(token_id);
        self.query(querier, req)
    }

    /// Ownership and metadata of one token in a single reply.
    pub fn all_nft_info<Q: Transport>(
        &self,
        querier: &Q,
        token_id: String,
        include_expired: bool,
    ) -> (r: Result<AllNftInfoResponse, Cw721HelperError>)
        ensures
            r matches Err(e) ==> e is Query || e is Deserialization,
    {
        let req = all_nft_info_request(token_id, include_expired);
        self.query(querier, req)
    }

    /// Enumerates an owner's tokens, where the contract implements the
    /// enumerable extension.  Cursor and page size go to the contract
    /// verbatim.
    pub fn tokens<Q: Transport>(
        &self,
        querier: &Q,
        owner: String,
        start_after: Option<String>,
        limit: Option<u32>,
    ) -> (r: Result<TokensResponse, Cw721HelperError>)
        ensures
            r matches Err(e) ==> e is Query || e is Deserialization,
    {
        let req = tokens_request(owner, start_after, limit);
        self.query(querier, req)
    }

    /// Enumerates all tokens, where the contract implements the enumerable
    /// extension.  Cursor and page size go to the contract verbatim.
    pub fn all_tokens<Q: Transport>(
        &self,
        querier: &Q,
        start_after: Option<String>,
        limit: Option<u32>,
    ) -> (r: Result<TokensResponse, Cw721HelperError>)
        ensures
            r matches Err(e) ==> e is Query || e is Deserialization,
    {
        let req = all_tokens_request(start_after, limit);
        self.query(querier, req)
    }

    /// The probe request [`Cw721Helper::has_enumerable`] issues: the
    /// client's own address as a syntactically valid owner placeholder, no
    /// cursor, and a page size of one.
    pub fn enumerable_probe_request(&self) -> (r: Cw721QueryMsg)
        ensures
            r matches (Cw721QueryMsg::Tokens { owner, start_after, limit }) && owner@ == self.0@
                && start_after is None && limit == Some(1u32),
    {
        Cw721QueryMsg::Tokens { owner: self.addr(), start_after: None, limit: Some(1) }
    }

    /// Whether the contract supports the metadata extension: true exactly
    /// when the collection-metadata probe succeeds.  Every failure — an
    /// unsupported extension as well as an unrelated transport error — is
    /// collapsed into `false`, as the probe exists only to test for
    /// support.
    pub fn has_metadata<Q: Transport>(&self, querier: &Q) -> bool {
        let req = collection_metadata_request();
        let payload = encode_query(&req);
        let reply = querier.smart_query(self.0.as_str(), payload.as_str());
        metadata_probe_outcome(reply)
    }

    /// Whether the contract supports the enumerable extension: true exactly
    /// when the tokens-by-owner probe ([`Cw721Helper::enumerable_probe_request`])
    /// succeeds.  Every failure is collapsed into `false`, as with
    /// [`Cw721Helper::has_metadata`].
    pub fn has_enumerable<Q: Transport>(&self, querier: &Q) -> bool {
        let probe = self.enumerable_probe_request();
        let payload = encode_query(&probe);
        let reply = querier.smart_query(self.0.as_str(), payload.as_str());
        enumerable_probe_outcome(reply)
    }
}

/// Building a call is pure: two envelopes whose payloads satisfy
/// [`Cw721Helper::call`]'s contract for the same execute request carry
/// identical payload text.
pub proof fn lemma_call_payload_deterministic(
    m: Cw721ExecuteMsg,
    e1: ExecuteEnvelope,
    e2: ExecuteEnvelope,
)
    requires
        e1.msg@ == spec_execute_json(m),
        e2.msg@ == spec_execute_json(m),
    ensures
        e1.msg@ == e2.msg@,
{
}

} // verus!
