use std::cell::RefCell;

use cw721::helpers::{decode_response, Cw721Contract, Cw721Helper, Transport};
use cw721::msg::{
    Approval, Coin, CollectionMetadata, Cw721ExecuteMsg, Cw721HelperError, Expiration,
    NumTokensResponse, OwnerOfResponse, TokensResponse,
};

/// Replies with a fixed string to every query.
struct EchoTransport(String);

impl Transport for EchoTransport {
    fn smart_query(&self, _contract_addr: &str, _msg: &str) -> Result<String, String> {
        Ok(self.0.clone())
    }
}

/// Fails every query.
struct ErrTransport;

impl Transport for ErrTransport {
    fn smart_query(&self, _contract_addr: &str, _msg: &str) -> Result<String, String> {
        Err("boom".to_string())
    }
}

/// Records every request it is handed, then replies with a fixed result.
struct RecordingTransport {
    reply: Result<String, String>,
    seen: RefCell<Vec<(String, String)>>,
}

impl RecordingTransport {
    fn new(reply: Result<String, String>) -> Self {
        RecordingTransport { reply, seen: RefCell::new(Vec::new()) }
    }
}

impl Transport for RecordingTransport {
    fn smart_query(&self, contract_addr: &str, msg: &str) -> Result<String, String> {
        self.seen.borrow_mut().push((contract_addr.to_string(), msg.to_string()));
        self.reply.clone()
    }
}

fn client() -> Cw721Helper {
    Cw721Helper::new("contract0".to_string())
}

#[test]
fn addr_returns_stored_address() {
    assert_eq!(client().addr(), "contract0");
}

#[test]
fn legacy_alias_is_same_client() {
    let c: Cw721Contract = Cw721Helper::new("contract0".to_string());
    assert_eq!(c.addr(), "contract0");
}

#[test]
fn call_builds_envelope_with_empty_funds() {
    let c = client();
    let m = Cw721ExecuteMsg::Burn { token_id: "9".to_string() };
    let env = c.call(m).expect("building a call never fails");
    assert_eq!(env.contract_addr, "contract0");
    assert_eq!(env.msg, "{\"burn\":{\"token_id\":\"9\"}}");
    let empty: Vec<Coin> = Vec::new();
    assert_eq!(env.funds, empty);
}

#[test]
fn call_is_pure() {
    let c = client();
    let m = Cw721ExecuteMsg::ApproveAll { operator: "op".to_string() };
    let e1 = c.call(m.clone()).unwrap();
    let e2 = c.call(m).unwrap();
    assert_eq!(e1.msg, e2.msg);
    assert_eq!(e1, e2);
}

#[test]
fn owner_of_echoes_mock_response() {
    let c = client();
    let t = EchoTransport("{\"owner\":\"alice\",\"approvals\":[]}".to_string());
    let res = c.owner_of(&t, "tok".to_string(), false).unwrap();
    assert_eq!(
        res,
        OwnerOfResponse { owner: "alice".to_string(), approvals: Vec::new() }
    );
}

#[test]
fn approval_echoes_mock_response() {
    let c = client();
    let t = EchoTransport(
        "{\"approval\":{\"spender\":\"bob\",\"expires\":{\"at_height\":100}}}".to_string(),
    );
    let res = c.approval(&t, "tok".to_string(), "bob".to_string(), None).unwrap();
    assert_eq!(res.approval.spender, "bob");
    assert_eq!(res.approval.expires, Expiration::AtHeight(100));
}

#[test]
fn approvals_echoes_mock_response() {
    let c = client();
    let t = EchoTransport(
        "{\"approvals\":[{\"spender\":\"bob\",\"expires\":{\"never\":{}}},{\"spender\":\"carol\",\"expires\":{\"at_time\":123}}]}"
            .to_string(),
    );
    let res = c.approvals(&t, "tok".to_string(), Some(true)).unwrap();
    assert_eq!(res.approvals.len(), 2);
    assert_eq!(res.approvals[0].spender, "bob");
    assert_eq!(res.approvals[0].expires, Expiration::Never {});
    assert_eq!(res.approvals[1].expires, Expiration::AtTime(123));
}

#[test]
fn all_operators_unwraps_to_bare_list() {
    let c = client();
    let t = EchoTransport(
        "{\"operators\":[{\"spender\":\"op\",\"expires\":{\"never\":{}}}]}".to_string(),
    );
    let res = c.all_operators(&t, "alice".to_string(), false, None, None).unwrap();
    assert_eq!(
        res,
        vec![Approval { spender: "op".to_string(), expires: Expiration::Never {} }]
    );
}

#[test]
fn num_tokens_extracts_bare_count() {
    let c = client();
    let t = EchoTransport("{\"count\":7}".to_string());
    assert_eq!(c.num_tokens(&t).unwrap(), 7);
}

#[test]
fn collection_metadata_echoes_mock_response() {
    let c = client();
    let t = EchoTransport(
        "{\"name\":\"Spaces\",\"symbol\":\"SPC\",\"extension\":null}".to_string(),
    );
    let res = c.collection_metadata(&t).unwrap();
    assert_eq!(
        res,
        CollectionMetadata {
            name: "Spaces".to_string(),
            symbol: "SPC".to_string(),
            extension: None,
        }
    );
    let t2 = EchoTransport(
        "{\"name\":\"Spaces\",\"symbol\":\"SPC\",\"extension\":\"royalty:5\"}".to_string(),
    );
    let res2 = c.collection_metadata(&t2).unwrap();
    assert_eq!(res2.extension, Some("royalty:5".to_string()));
}

#[test]
fn nft_info_echoes_mock_response() {
    let c = client();
    let t = EchoTransport(
        "{\"token_uri\":\"ipfs://x\",\"extension\":null}".to_string(),
    );
    let res = c.nft_info(&t, "tok".to_string()).unwrap();
    assert_eq!(res.token_uri, Some("ipfs://x".to_string()));
    assert_eq!(res.extension, None);
}

#[test]
fn all_nft_info_echoes_mock_response() {
    let c = client();
    let t = EchoTransport(
        "{\"access\":{\"owner\":\"alice\",\"approvals\":[]},\"info\":{\"token_uri\":null,\"extension\":\"meta\"}}"
            .to_string(),
    );
    let res = c.all_nft_info(&t, "tok".to_string(), true).unwrap();
    assert_eq!(res.access.owner, "alice");
    assert_eq!(res.info.token_uri, None);
    assert_eq!(res.info.extension, Some("meta".to_string()));
}

#[test]
fn tokens_echoes_mock_response() {
    let c = client();
    let t = EchoTransport("{\"tokens\":[\"a\",\"b\"]}".to_string());
    let res = c.tokens(&t, "alice".to_string(), None, None).unwrap();
    assert_eq!(
        res,
        TokensResponse { tokens: vec!["a".to_string(), "b".to_string()] }
    );
}

#[test]
fn all_tokens_echoes_mock_response() {
    let c = client();
    let t = EchoTransport("{\"tokens\":[]}".to_string());
    let res = c.all_tokens(&t, None, Some(30)).unwrap();
    assert_eq!(res.tokens.len(), 0);
}

#[test]
fn query_error_propagates() {
    let c = client();
    let res = c.num_tokens(&ErrTransport);
    assert_eq!(res, Err(Cw721HelperError::Query("boom".to_string())));
}

#[test]
fn malformed_reply_is_deserialization_error() {
    let c = client();
    let t = EchoTransport("{\"count\":-3}".to_string());
    assert_eq!(c.num_tokens(&t), Err(Cw721HelperError::Deserialization));
}

#[test]
fn decode_response_rejects_trailing_text() {
    let r: Result<NumTokensResponse, Cw721HelperError> = decode_response("{\"count\":7} ");
    assert_eq!(r, Err(Cw721HelperError::Deserialization));
}

#[test]
fn pagination_forwarded_verbatim() {
    let c = client();
    let t = RecordingTransport::new(Ok("{\"tokens\":[]}".to_string()));
    c.tokens(&t, "alice".to_string(), Some("42".to_string()), Some(10)).unwrap();
    c.all_tokens(&t, Some("42".to_string()), Some(10)).unwrap();
    let seen = t.seen.borrow();
    assert_eq!(
        seen[0].1,
        "{\"tokens\":{\"owner\":\"alice\",\"start_after\":\"42\",\"limit\":10}}"
    );
    assert_eq!(
        seen[1].1,
        "{\"all_tokens\":{\"start_after\":\"42\",\"limit\":10}}"
    );

    let t2 = RecordingTransport::new(Ok("{\"operators\":[]}".to_string()));
    c.all_operators(&t2, "alice".to_string(), true, Some("42".to_string()), Some(10)).unwrap();
    let seen2 = t2.seen.borrow();
    assert_eq!(
        seen2[0].1,
        "{\"all_operators\":{\"owner\":\"alice\",\"include_expired\":true,\"start_after\":\"42\",\"limit\":10}}"
    );
}

#[test]
fn has_metadata_probe() {
    let c = client();
    assert!(!c.has_metadata(&ErrTransport));
    let empty = EchoTransport(
        "{\"name\":\"\",\"symbol\":\"\",\"extension\":null}".to_string(),
    );
    assert!(c.has_metadata(&empty));
    let record = RecordingTransport::new(Err("down".to_string()));
    assert!(!c.has_metadata(&record));
    assert_eq!(record.seen.borrow()[0].1, "{\"get_collection_metadata\":{}}");
}

#[test]
fn has_metadata_true_on_extension_bearing_reply() {
    let c = client();
    let t = EchoTransport(
        "{\"name\":\"X\",\"symbol\":\"Y\",\"extension\":\"uri:e\"}".to_string(),
    );
    assert!(c.has_metadata(&t));
}

#[test]
fn has_enumerable_probe_uses_own_address_and_limit_one() {
    let c = client();
    assert!(!c.has_enumerable(&ErrTransport));
    let record = RecordingTransport::new(Ok("{\"tokens\":[]}".to_string()));
    assert!(c.has_enumerable(&record));
    let seen = record.seen.borrow();
    assert_eq!(seen[0].0, "contract0");
    assert_eq!(
        seen[0].1,
        "{\"tokens\":{\"owner\":\"contract0\",\"start_after\":null,\"limit\":1}}"
    );
}

#[test]
fn num_tokens_handles_largest_count() {
    let c = client();
    let t = EchoTransport("{\"count\":18446744073709551615}".to_string());
    assert_eq!(c.num_tokens(&t).unwrap(), u64::MAX);
    let too_big = EchoTransport("{\"count\":18446744073709551616}".to_string());
    assert_eq!(c.num_tokens(&too_big), Err(Cw721HelperError::Deserialization));
}

#[test]
fn owner_of_unescapes_reply_strings() {
    let c = client();
    let t = EchoTransport("{\"owner\":\"a\\\"b\\\\c\",\"approvals\":[]}".to_string());
    let res = c.owner_of(&t, "tok".to_string(), false).unwrap();
    assert_eq!(res.owner, "a\"b\\c");
}

#[test]
fn malformed_operator_array_is_deserialization_error() {
    let c = client();
    let t = EchoTransport("{\"operators\":[{\"spender\":\"op\"}]}".to_string());
    let res = c.all_operators(&t, "alice".to_string(), false, None, None);
    assert_eq!(res, Err(Cw721HelperError::Deserialization));
}

#[test]
fn queries_target_the_client_address() {
    let c = Cw721Helper::new("market7".to_string());
    let record = RecordingTransport::new(Ok("{\"count\":0}".to_string()));
    c.num_tokens(&record).unwrap();
    assert_eq!(record.seen.borrow()[0].0, "market7");
}
