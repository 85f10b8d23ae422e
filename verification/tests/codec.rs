use cw721::codec::{decode_query, encode_execute, encode_query};
use cw721::msg::{Cw721ExecuteMsg, Cw721QueryMsg};

fn chars(s: &str) -> Vec<char> {
    s.chars().collect()
}

fn round_trip(q: Cw721QueryMsg) {
    let encoded = encode_query(&q);
    let decoded = decode_query(&chars(&encoded));
    assert_eq!(decoded, Some(q));
}

#[test]
fn round_trip_owner_of() {
    round_trip(Cw721QueryMsg::OwnerOf {
        token_id: "tok-1".to_string(),
        include_expired: Some(true),
    });
    round_trip(Cw721QueryMsg::OwnerOf { token_id: String::new(), include_expired: None });
}

#[test]
fn round_trip_approval() {
    round_trip(Cw721QueryMsg::Approval {
        token_id: "tok".to_string(),
        spender: "alice".to_string(),
        include_expired: Some(false),
    });
}

#[test]
fn round_trip_approvals() {
    round_trip(Cw721QueryMsg::Approvals { token_id: "tok".to_string(), include_expired: None });
}

#[test]
fn round_trip_all_operators() {
    round_trip(Cw721QueryMsg::AllOperators {
        owner: "alice".to_string(),
        include_expired: Some(true),
        start_after: Some("42".to_string()),
        limit: Some(10),
    });
    round_trip(Cw721QueryMsg::AllOperators {
        owner: "bob".to_string(),
        include_expired: None,
        start_after: None,
        limit: None,
    });
}

#[test]
fn round_trip_num_tokens() {
    round_trip(Cw721QueryMsg::NumTokens {});
}

#[test]
fn round_trip_get_collection_metadata() {
    round_trip(Cw721QueryMsg::GetCollectionMetadata {});
}

#[test]
fn round_trip_nft_info() {
    round_trip(Cw721QueryMsg::NftInfo { token_id: "a/b c".to_string() });
}

#[test]
fn round_trip_all_nft_info() {
    round_trip(Cw721QueryMsg::AllNftInfo {
        token_id: "tok".to_string(),
        include_expired: Some(false),
    });
}

#[test]
fn round_trip_tokens() {
    round_trip(Cw721QueryMsg::Tokens {
        owner: "alice".to_string(),
        start_after: Some("42".to_string()),
        limit: Some(10),
    });
}

#[test]
fn round_trip_all_tokens() {
    round_trip(Cw721QueryMsg::AllTokens { start_after: None, limit: Some(30) });
}

#[test]
fn round_trip_escaped_token_id() {
    round_trip(Cw721QueryMsg::NftInfo { token_id: "a\"b\\c\nd\re\tf".to_string() });
}

#[test]
fn encode_tokens_exact_text() {
    let q = Cw721QueryMsg::Tokens {
        owner: "alice".to_string(),
        start_after: Some("42".to_string()),
        limit: Some(10),
    };
    assert_eq!(
        encode_query(&q),
        "{\"tokens\":{\"owner\":\"alice\",\"start_after\":\"42\",\"limit\":10}}"
    );
}

#[test]
fn encode_num_tokens_exact_text() {
    assert_eq!(encode_query(&Cw721QueryMsg::NumTokens {}), "{\"num_tokens\":{}}");
}

#[test]
fn encode_escapes_exact_text() {
    let q = Cw721QueryMsg::NftInfo { token_id: "a\"b\\c".to_string() };
    assert_eq!(encode_query(&q), "{\"nft_info\":{\"token_id\":\"a\\\"b\\\\c\"}}");
}

#[test]
fn encode_execute_exact_text() {
    let m = Cw721ExecuteMsg::TransferNft {
        recipient: "bob".to_string(),
        token_id: "7".to_string(),
    };
    assert_eq!(
        encode_execute(&m),
        "{\"transfer_nft\":{\"recipient\":\"bob\",\"token_id\":\"7\"}}"
    );
}

#[test]
fn decode_rejects_noncanonical() {
    // Whitespace, unknown tags, trailing text and leading zeroes are not
    // canonical.
    assert_eq!(decode_query(&chars("{ \"num_tokens\": {} }")), None);
    assert_eq!(decode_query(&chars("{\"mint\":{}}")), None);
    assert_eq!(decode_query(&chars("{\"num_tokens\":{}}x")), None);
    assert_eq!(
        decode_query(&chars("{\"all_tokens\":{\"start_after\":null,\"limit\":007}}")),
        None
    );
}

#[test]
fn encoded_query_is_valid_json() {
    let q = Cw721QueryMsg::AllOperators {
        owner: "al\"ice".to_string(),
        include_expired: Some(true),
        start_after: Some("42".to_string()),
        limit: Some(10),
    };
    let text = encode_query(&q);
    let v: serde_json::Value = serde_json::from_str(&text).expect("valid JSON");
    let body = v.get("all_operators").expect("tagged object");
    assert_eq!(body.get("owner").unwrap().as_str(), Some("al\"ice"));
    assert_eq!(body.get("include_expired").unwrap().as_bool(), Some(true));
    assert_eq!(body.get("start_after").unwrap().as_str(), Some("42"));
    assert_eq!(body.get("limit").unwrap().as_u64(), Some(10));
}

#[test]
fn encoded_execute_is_valid_json() {
    let m = Cw721ExecuteMsg::SendNft {
        contract: "other".to_string(),
        token_id: "t\\1".to_string(),
        msg: "{}".to_string(),
    };
    let text = encode_execute(&m);
    let v: serde_json::Value = serde_json::from_str(&text).expect("valid JSON");
    let body = v.get("send_nft").expect("tagged object");
    assert_eq!(body.get("contract").unwrap().as_str(), Some("other"));
    assert_eq!(body.get("token_id").unwrap().as_str(), Some("t\\1"));
    assert_eq!(body.get("msg").unwrap().as_str(), Some("{}"));
}
