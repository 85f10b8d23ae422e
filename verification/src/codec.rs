//! The canonical JSON wire form of the execute and query requests: its
//! specification, the encoder, and the decoder for query requests.
//!
//! The decoder accepts exactly the canonical form the encoder produces:
//! whenever it returns a request, the input was that request's encoding.

use vstd::prelude::*;

use crate::json::{
    chars_to_string, dec_digits, is_digit, jopt_bool, jopt_num, jopt_str, jstr, jstr_at,
    lemma_dec_digits_basics, lemma_subrange_concat, num_at, parse_jstring, parse_lit, parse_u64,
    push_jstr, push_str_chars, push_u64,
};
use crate::msg::{Cw721ExecuteMsg, Cw721QueryMsg};

verus! {

/// The view of an optional string.
pub open spec fn view_opt_str(o: Option<String>) -> Option<Seq<char>> {
    match o {
        Option::None => Option::None,
        Option::Some(s) => Option::Some(s@),
    }
}

/// The view of an optional page size.
pub open spec fn view_opt_u32(o: Option<u32>) -> Option<nat> {
    match o {
        Option::None => Option::None,
        Option::Some(n) => Option::Some(n as nat),
    }
}

/// The canonical JSON encoding of a query request.
pub open spec fn spec_query_json(q: Cw721QueryMsg) -> Seq<char> {
    match q {
        Cw721QueryMsg::OwnerOf { token_id, include_expired } =>
            "{\"owner_of\":{\"token_id\":"@ + jstr(token_id@) + ",\"include_expired\":"@
                + jopt_bool(include_expired) + "}}"@,
        Cw721QueryMsg::Approval { token_id, spender, include_expired } =>
            "{\"approval\":{\"token_id\":"@ + jstr(token_id@) + ",\"spender\":"@ + jstr(spender@)
                + ",\"include_expired\":"@ + jopt_bool(include_expired) + "}}"@,
        Cw721QueryMsg::Approvals { token_id, include_expired } =>
            "{\"approvals\":{\"token_id\":"@ + jstr(token_id@) + ",\"include_expired\":"@
                + jopt_bool(include_expired) + "}}"@,
        Cw721QueryMsg::AllOperators { owner, include_expired, start_after, limit } =>
            "{\"all_operators\":{\"owner\":"@ + jstr(owner@) + ",\"include_expired\":"@
                + jopt_bool(include_expired) + ",\"start_after\":"@
                + jopt_str(view_opt_str(start_after)) + ",\"limit\":"@
                + jopt_num(view_opt_u32(limit)) + "}}"@,
        Cw721QueryMsg::NumTokens {  } => "{\"num_tokens\":{}}"@,
        Cw721QueryMsg::GetCollectionMetadata {  } => "{\"get_collection_metadata\":{}}"@,
        Cw721QueryMsg::NftInfo { token_id } =>
            "{\"nft_info\":{\"token_id\":"@ + jstr(token_id@) + "}}"@,
        Cw721QueryMsg::AllNftInfo { token_id, include_expired } =>
            "{\"all_nft_info\":{\"token_id\":"@ + jstr(token_id@) + ",\"include_expired\":"@
                + jopt_bool(include_expired) + "}}"@,
        Cw721QueryMsg::Tokens { owner, start_after, limit } =>
            "{\"tokens\":{\"owner\":"@ + jstr(owner@) + ",\"start_after\":"@
                + jopt_str(view_opt_str(start_after)) + ",\"limit\":"@
                + jopt_num(view_opt_u32(limit)) + "}}"@,
        Cw721QueryMsg::AllTokens { start_after, limit } =>
            "{\"all_tokens\":{\"start_after\":"@ + jopt_str(view_opt_str(start_after))
                + ",\"limit\":"@ + jopt_num(view_opt_u32(limit)) + "}}"@,
    }
}

/// The canonical JSON encoding of an execute request.
pub open spec fn spec_execute_json(m: Cw721ExecuteMsg) -> Seq<char> {
    match m {
        Cw721ExecuteMsg::TransferNft { recipient, token_id } =>
            "{\"transfer_nft\":{\"recipient\":"@ + jstr(recipient@) + ",\"token_id\":"@
                + jstr(token_id@) + "}}"@,
        Cw721ExecuteMsg::SendNft { contract, token_id, msg } =>
            "{\"send_nft\":{\"contract\":"@ + jstr(contract@) + ",\"token_id\":"@ + jstr(token_id@)
                + ",\"msg\":"@ + jstr(msg@) + "}}"@,
        Cw721ExecuteMsg::Approve { spender, token_id } =>
            "{\"approve\":{\"spender\":"@ + jstr(spender@) + ",\"token_id\":"@ + jstr(token_id@)
                + "}}"@,
        Cw721ExecuteMsg::Revoke { spender, token_id } =>
            "{\"revoke\":{\"spender\":"@ + jstr(spender@) + ",\"token_id\":"@ + jstr(token_id@)
                + "}}"@,
        Cw721ExecuteMsg::ApproveAll { operator } =>
            "{\"approve_all\":{\"operator\":"@ + jstr(operator@) + "}}"@,
        Cw721ExecuteMsg::RevokeAll { operator } =>
            "{\"revoke_all\":{\"operator\":"@ + jstr(operator@) + "}}"@,
        Cw721ExecuteMsg::Burn { token_id } =>
            "{\"burn\":{\"token_id\":"@ + jstr(token_id@) + "}}"@,
    }
}

/// Appends an optional boolean.
pub fn push_opt_bool(out: &mut Vec<char>, o: &Option<bool>)
    ensures
        final(out)@ == old(out)@ + jopt_bool(*o),
{
    match o {
        Option::None => push_str_chars(out, "null"),
        Option::Some(b) => {
            if *b {
                push_str_chars(out, "true");
            } else {
                push_str_chars(out, "false");
            }
        },
    }
}

/// Appends an optional JSON string.
pub fn push_opt_str(out: &mut Vec<char>, o: &Option<String>)
    ensures
        final(out)@ == old(out)@ + jopt_str(view_opt_str(*o)),
{
    match o {
        Option::None => push_str_chars(out, "null"),
        Option::Some(s) => push_jstr(out, s.as_str()),
    }
}

/// Appends an optional page size.
pub fn push_opt_u32(out: &mut Vec<char>, o: &Option<u32>)
    ensures
        final(out)@ == old(out)@ + jopt_num(view_opt_u32(*o)),
{
    match o {
        Option::None => push_str_chars(out, "null"),
        Option::Some(n) => push_u64(out, *n as u64),
    }
}

/// Encodes a query request into its canonical JSON text.
pub fn encode_query(q: &Cw721QueryMsg) -> (r: String)
    ensures
        r@ == spec_query_json(*q),
{
    let mut out: Vec<char> = Vec::new();
    match q {
        Cw721QueryMsg::OwnerOf { token_id, include_expired } => {
            push_str_chars(&mut out, "{\"owner_of\":{\"token_id\":");
            push_jstr(&mut out, token_id.as_str());
            push_str_chars(&mut out, ",\"include_expired\":");
            push_opt_bool(&mut out, include_expired);
            push_str_chars(&mut out, "}}");
        },
        Cw721QueryMsg::Approval { token_id, spender, include_expired } => {
            push_str_chars(&mut out, "{\"approval\":{\"token_id\":");
            push_jstr(&mut out, token_id.as_str());
            push_str_chars(&mut out, ",\"spender\":");
            push_jstr(&mut out, spender.as_str());
            push_str_chars(&mut out, ",\"include_expired\":");
            push_opt_bool(&mut out, include_expired);
            push_str_chars(&mut out, "}}");
        },
        Cw721QueryMsg::Approvals { token_id, include_expired } => {
            push_str_chars(&mut out, "{\"approvals\":{\"token_id\":");
            push_jstr(&mut out, token_id.as_str());
            push_str_chars(&mut out, ",\"include_expired\":");
            push_opt_bool(&mut out, include_expired);
            push_str_chars(&mut out, "}}");
        },
        Cw721QueryMsg::AllOperators { owner, include_expired, start_after, limit } => {
            push_str_chars(&mut out, "{\"all_operators\":{\"owner\":");
            push_jstr(&mut out, owner.as_str());
            push_str_chars(&mut out, ",\"include_expired\":");
            push_opt_bool(&mut out, include_expired);
            push_str_chars(&mut out, ",\"start_after\":");
            push_opt_str(&mut out, start_after);
            push_str_chars(&mut out, ",\"limit\":");
            push_opt_u32(&mut out, limit);
            push_str_chars(&mut out, "}}");
        },
        Cw721QueryMsg::NumTokens {  } => {
            push_str_chars(&mut out, "{\"num_tokens\":{}}");
        },
        Cw721QueryMsg::GetCollectionMetadata {  } => {
            push_str_chars(&mut out, "{\"get_collection_metadata\":{}}");
        },
        Cw721QueryMsg::NftInfo { token_id } => {
            push_str_chars(&mut out, "{\"nft_info\":{\"token_id\":");
            push_jstr(&mut out, token_id.as_str());
            push_str_chars(&mut out, "}}");
        },
        Cw721QueryMsg::AllNftInfo { token_id, include_expired } => {
            push_str_chars(&mut out, "{\"all_nft_info\":{\"token_id\":");
            push_jstr(&mut out, token_id.as_str());
            push_str_chars(&mut out, ",\"include_expired\":");
            push_opt_bool(&mut out, include_expired);
            push_str_chars(&mut out, "}}");
        },
        Cw721QueryMsg::Tokens { owner, start_after, limit } => {
            push_str_chars(&mut out, "{\"tokens\":{\"owner\":");
            push_jstr(&mut out, owner.as_str());
            push_str_chars(&mut out, ",\"start_after\":");
            push_opt_str(&mut out, start_after);
            push_str_chars(&mut out, ",\"limit\":");
            push_opt_u32(&mut out, limit);
            push_str_chars(&mut out, "}}");
        },
        Cw721QueryMsg::AllTokens { start_after, limit } => {
            push_str_chars(&mut out, "{\"all_tokens\":{\"start_after\":");
            push_opt_str(&mut out, start_after);
            push_str_chars(&mut out, ",\"limit\":");
            push_opt_u32(&mut out, limit);
            push_str_chars(&mut out, "}}");
        },
    }
    chars_to_string(&out)
}

/// Encodes an execute request into its canonical JSON text.
pub fn encode_execute(m: &Cw721ExecuteMsg) -> (r: String)
    ensures
        r@ == spec_execute_json(*m),
{
    let mut out: Vec<char> = Vec::new();
    match m {
        Cw721ExecuteMsg::TransferNft { recipient, token_id } => {
            push_str_chars(&mut out, "{\"transfer_nft\":{\"recipient\":");
            push_jstr(&mut out, recipient.as_str());
            push_str_chars(&mut out, ",\"token_id\":");
            push_jstr(&mut out, token_id.as_str());
            push_str_chars(&mut out, "}}");
        },
        Cw721ExecuteMsg::SendNft { contract, token_id, msg } => {
            push_str_chars(&mut out, "{\"send_nft\":{\"contract\":");
            push_jstr(&mut out, contract.as_str());
            push_str_chars(&mut out, ",\"token_id\":");
            push_jstr(&mut out, token_id.as_str());
            push_str_chars(&mut out, ",\"msg\":");
            push_jstr(&mut out, msg.as_str());
            push_str_chars(&mut out, "}}");
        },
        Cw721ExecuteMsg::Approve { spender, token_id } => {
            push_str_chars(&mut out, "{\"approve\":{\"spender\":");
            push_jstr(&mut out, spender.as_str());
            push_str_chars(&mut out, ",\"token_id\":");
            push_jstr(&mut out, token_id.as_str());
            push_str_chars(&mut out, "}}");
        },
        Cw721ExecuteMsg::Revoke { spender, token_id } => {
            push_str_chars(&mut out, "{\"revoke\":{\"spender\":");
            push_jstr(&mut out, spender.as_str());
            push_str_chars(&mut out, ",\"token_id\":");
            push_jstr(&mut out, token_id.as_str());
            push_str_chars(&mut out, "}}");
        },
        Cw721ExecuteMsg::ApproveAll { operator } => {
            push_str_chars(&mut out, "{\"approve_all\":{\"operator\":");
            push_jstr(&mut out, operator.as_str());
            push_str_chars(&mut out, "}}");
        },
        Cw721ExecuteMsg::RevokeAll { operator } => {
            push_str_chars(&mut out, "{\"revoke_all\":{\"operator\":");
            push_jstr(&mut out, operator.as_str());
            push_str_chars(&mut out, "}}");
        },
        Cw721ExecuteMsg::Burn { token_id } => {
            push_str_chars(&mut out, "{\"burn\":{\"token_id\":");
            push_jstr(&mut out, token_id.as_str());
            push_str_chars(&mut out, "}}");
        },
    }
    chars_to_string(&out)
}

/// An optional boolean sits encoded at position `i` of `s`.
pub open spec fn opt_bool_at(s: Seq<char>, i: int, o: Option<bool>) -> bool {
    &&& 0 <= i
    &&& i + jopt_bool(o).len() <= s.len()
    &&& s.subrange(i, i + jopt_bool(o).len() as int) == jopt_bool(o)
}

/// Reads an optional boolean: `null`, `true` or `false`.  Exact in both
/// directions, as [`crate::json::parse_jstring`] is.
pub fn parse_opt_bool(s: &Vec<char>, i: usize) -> (r: Option<(Option<bool>, usize)>)
    ensures
        r matches Some(p) ==> i <= p.1 <= s@.len() && s@.subrange(i as int, p.1 as int)
            == jopt_bool(p.0),
        forall|o: Option<bool>|
            opt_bool_at(s@, i as int, o) ==> (r matches Some(p) && p.0 == o && p.1 == i
                + jopt_bool(o).len()),
{
    if let Some(j) = parse_lit(s, i, "null") {
        proof {
            reveal_strlit("null");
            reveal_strlit("true");
            reveal_strlit("false");
            assert forall|o: Option<bool>| opt_bool_at(s@, i as int, o) implies o is None by {
                if o != Option::<bool>::None {
                    assert(s@.subrange(i as int, i + jopt_bool(o).len())[0] == s@[i as int]);
                    assert(s@.subrange(i as int, j as int)[0] == s@[i as int]);
                    assert(false);
                }
            }
        }
        return Some((None, j));
    }
    if let Some(j) = parse_lit(s, i, "true") {
        proof {
            reveal_strlit("null");
            reveal_strlit("true");
            reveal_strlit("false");
            assert forall|o: Option<bool>| opt_bool_at(s@, i as int, o) implies o == Some(
                true,
            ) by {
                if o == Some(false) {
                    assert(s@.subrange(i as int, i + jopt_bool(o).len())[0] == s@[i as int]);
                    assert(s@.subrange(i as int, j as int)[0] == s@[i as int]);
                    assert(false);
                }
            }
        }
        return Some((Some(true), j));
    }
    if let Some(j) = parse_lit(s, i, "false") {
        proof {
            reveal_strlit("null");
            reveal_strlit("true");
            reveal_strlit("false");
        }
        return Some((Some(false), j));
    }
    proof {
        reveal_strlit("null");
        reveal_strlit("true");
        reveal_strlit("false");
    }
    None
}

/// Reads an optional JSON string: `null` or a quoted string.  Exact in both
/// directions, as [`crate::json::parse_jstring`] is.
pub fn parse_opt_str(s: &Vec<char>, i: usize) -> (r: Option<(Option<String>, usize)>)
    ensures
        r matches Some(p) ==> i <= p.1 <= s@.len() && s@.subrange(i as int, p.1 as int)
            == jopt_str(view_opt_str(p.0)),
        i + "null"@.len() <= s@.len() && s@.subrange(i as int, i + "null"@.len()) == "null"@
            ==> (r matches Some(p) && p.0 is None && p.1 == i + "null"@.len()),
        forall|t: Seq<char>|
            jstr_at(s@, i as int, t) ==> (r matches Some(p) && (p.0 matches Some(v) && v@ == t)
                && p.1 == i + jstr(t).len()),
{
    if let Some(j) = parse_lit(s, i, "null") {
        proof {
            reveal_strlit("null");
            assert forall|t: Seq<char>| !jstr_at(s@, i as int, t) by {
                if jstr_at(s@, i as int, t) {
                    assert(s@.subrange(i as int, i + jstr(t).len())[0] == s@[i as int]);
                    assert(s@.subrange(i as int, j as int)[0] == s@[i as int]);
                    assert(false);
                }
            }
        }
        return Some((None, j));
    }
    match parse_jstring(s, i) {
        Some((v, j)) => {
            let owned = chars_to_string(&v);
            Some((Some(owned), j))
        },
        None => None,
    }
}

/// Reads an optional page size: `null` or a canonical decimal that fits in
/// a `u32`.  Exact in both directions, as [`crate::json::parse_u64`] is.
pub fn parse_opt_u32(s: &Vec<char>, i: usize) -> (r: Option<(Option<u32>, usize)>)
    ensures
        r matches Some(p) ==> i <= p.1 <= s@.len() && s@.subrange(i as int, p.1 as int)
            == jopt_num(view_opt_u32(p.0)),
        i + "null"@.len() <= s@.len() && s@.subrange(i as int, i + "null"@.len()) == "null"@
            ==> (r matches Some(p) && p.0 is None && p.1 == i + "null"@.len()),
        forall|m: u32|
            #![trigger num_at(s@, i as int, m as u64)]
            num_at(s@, i as int, m as u64) ==> (r matches Some(p) && p.0 == Some(m) && p.1 == i
                + dec_digits(m as nat).len()),
{
    if let Some(j) = parse_lit(s, i, "null") {
        proof {
            reveal_strlit("null");
            assert forall|m: u32| #![trigger num_at(s@, i as int, m as u64)]
                !num_at(s@, i as int, m as u64) by {
                if num_at(s@, i as int, m as u64) {
                    lemma_dec_digits_basics((m as u64) as nat);
                    assert(s@.subrange(i as int, i + dec_digits((m as u64) as nat).len())[0]
                        == s@[i as int]);
                    assert(is_digit(dec_digits((m as u64) as nat)[0]));
                    assert(s@.subrange(i as int, j as int)[0] == s@[i as int]);
                    assert(false);
                }
            }
        }
        return Some((None, j));
    }
    match parse_u64(s, i) {
        Some((n, j)) => {
            if n > u32::MAX as u64 {
                proof {
                    assert forall|m: u32| #![trigger num_at(s@, i as int, m as u64)]
                !num_at(s@, i as int, m as u64) by {
                        if num_at(s@, i as int, m as u64) {
                            assert(false);
                        }
                    }
                }
                None
            } else {
                Some((Some(n as u32), j))
            }
        },
        None => None,
    }
}

/// Continues [`decode_query`]'s dispatch over the remaining variants,
/// with the same exactness: sound on every acceptance, and complete for
/// the collection-metadata, per-token-metadata and combined-info requests.
#[verifier::rlimit(100)]
fn decode_query_tail(s: &Vec<char>) -> (r: Option<Cw721QueryMsg>)
    ensures
        r matches Some(q) ==> s@ == spec_query_json(q),
        s@ == spec_query_json(Cw721QueryMsg::GetCollectionMetadata {  }) ==> r == Some(
            Cw721QueryMsg::GetCollectionMetadata {  },
        ),
        forall|tid: Seq<char>|
            s@ == "{\"nft_info\":{\"token_id\":"@ + jstr(tid) + "}}"@ ==> (r matches Some(q)
                && q matches (Cw721QueryMsg::NftInfo { token_id }) && token_id@ == tid),
        forall|tid: Seq<char>, ie: Option<bool>|
            s@ == "{\"all_nft_info\":{\"token_id\":"@ + jstr(tid) + ",\"include_expired\":"@
                + jopt_bool(ie) + "}}"@ ==> (r matches Some(q) && q matches (
            Cw721QueryMsg::AllNftInfo { token_id, include_expired }) && token_id@ == tid
                && include_expired == ie),
{
    if let Some(j1) = parse_lit(s, 0, "{\"get_collection_metadata\":{}}") {
        proof {
            reveal_strlit("{\"get_collection_metadata\":{}}");
            reveal_strlit("{\"approvals\":{\"token_id\":");
            assert forall|t2: Seq<char>, ie2: Option<bool>| s@ != "{\"approvals\":{\"token_id\":"@ + jstr(t2) + ",\"include_expired\":"@ + jopt_bool(ie2) + "}}"@ by {
                if s@ == "{\"approvals\":{\"token_id\":"@ + jstr(t2) + ",\"include_expired\":"@ + jopt_bool(ie2) + "}}"@ {
                    assert(s@.subrange(0, j1 as int)[2] == s@[2]);
                    assert(s@[2] == ("{\"approvals\":{\"token_id\":"@ + jstr(t2) + ",\"include_expired\":"@ + jopt_bool(ie2) + "}}"@)[2]);
                    assert(false);
                }
            }
            reveal_strlit("{\"all_nft_info\":{\"token_id\":");
            assert forall|t2: Seq<char>, ie2: Option<bool>| s@ != "{\"all_nft_info\":{\"token_id\":"@ + jstr(t2) + ",\"include_expired\":"@ + jopt_bool(ie2) + "}}"@ by {
                if s@ == "{\"all_nft_info\":{\"token_id\":"@ + jstr(t2) + ",\"include_expired\":"@ + jopt_bool(ie2) + "}}"@ {
                    assert(s@.subrange(0, j1 as int)[2] == s@[2]);
                    assert(s@[2] == ("{\"all_nft_info\":{\"token_id\":"@ + jstr(t2) + ",\"include_expired\":"@ + jopt_bool(ie2) + "}}"@)[2]);
                    assert(false);
                }
            }
            reveal_strlit("{\"num_tokens\":{}}");
            reveal_strlit("{\"get_collection_metadata\":{}}");
            reveal_strlit("{\"owner_of\":{\"token_id\":");
            assert forall|t2: Seq<char>, ie2: Option<bool>| s@ != "{\"owner_of\":{\"token_id\":"@ + jstr(t2) + ",\"include_expired\":"@ + jopt_bool(ie2) + "}}"@ by {
                if s@ == "{\"owner_of\":{\"token_id\":"@ + jstr(t2) + ",\"include_expired\":"@ + jopt_bool(ie2) + "}}"@ {
                    assert(s@.subrange(0, j1 as int)[2] == s@[2]);
                    assert(s@[2] == ("{\"owner_of\":{\"token_id\":"@ + jstr(t2) + ",\"include_expired\":"@ + jopt_bool(ie2) + "}}"@)[2]);
                    assert(false);
                }
            }
            reveal_strlit("{\"get_collection_metadata\":{}}");
            assert(s@.subrange(0, j1 as int)[2] == s@[2]);
            assert(s@ != "{\"num_tokens\":{}}"@);
            reveal_strlit("{\"nft_info\":{\"token_id\":");
            assert forall|tid: Seq<char>| s@ != "{\"nft_info\":{\"token_id\":"@ + jstr(tid) + "}}"@ by {
                if s@ == "{\"nft_info\":{\"token_id\":"@ + jstr(tid) + "}}"@ {
                    assert(s@[2] == ("{\"nft_info\":{\"token_id\":"@ + jstr(tid) + "}}"@)[2]);
                    assert(false);
                }
            }
        }
        if j1 != s.len() {
            return None;
        }
        proof {
            assert(s@ =~= s@.subrange(0, s@.len() as int));
        }
        return Some(Cw721QueryMsg::GetCollectionMetadata {  });
    }
    if let Some(j1) = parse_lit(s, 0, "{\"nft_info\":{\"token_id\":") {
        proof {
            reveal_strlit("{\"nft_info\":{\"token_id\":");
            reveal_strlit("{\"approvals\":{\"token_id\":");
            assert forall|t2: Seq<char>, ie2: Option<bool>| s@ != "{\"approvals\":{\"token_id\":"@ + jstr(t2) + ",\"include_expired\":"@ + jopt_bool(ie2) + "}}"@ by {
                if s@ == "{\"approvals\":{\"token_id\":"@ + jstr(t2) + ",\"include_expired\":"@ + jopt_bool(ie2) + "}}"@ {
                    assert(s@.subrange(0, j1 as int)[2] == s@[2]);
                    assert(s@[2] == ("{\"approvals\":{\"token_id\":"@ + jstr(t2) + ",\"include_expired\":"@ + jopt_bool(ie2) + "}}"@)[2]);
                    assert(false);
                }
            }
            reveal_strlit("{\"all_nft_info\":{\"token_id\":");
            assert forall|t2: Seq<char>, ie2: Option<bool>| s@ != "{\"all_nft_info\":{\"token_id\":"@ + jstr(t2) + ",\"include_expired\":"@ + jopt_bool(ie2) + "}}"@ by {
                if s@ == "{\"all_nft_info\":{\"token_id\":"@ + jstr(t2) + ",\"include_expired\":"@ + jopt_bool(ie2) + "}}"@ {
                    assert(s@.subrange(0, j1 as int)[2] == s@[2]);
                    assert(s@[2] == ("{\"all_nft_info\":{\"token_id\":"@ + jstr(t2) + ",\"include_expired\":"@ + jopt_bool(ie2) + "}}"@)[2]);
                    assert(false);
                }
            }
            reveal_strlit("{\"nft_info\":{\"token_id\":");
            reveal_strlit("{\"owner_of\":{\"token_id\":");
            assert forall|t2: Seq<char>, ie2: Option<bool>| s@ != "{\"owner_of\":{\"token_id\":"@ + jstr(t2) + ",\"include_expired\":"@ + jopt_bool(ie2) + "}}"@ by {
                if s@ == "{\"owner_of\":{\"token_id\":"@ + jstr(t2) + ",\"include_expired\":"@ + jopt_bool(ie2) + "}}"@ {
                    assert(s@.subrange(0, j1 as int)[2] == s@[2]);
                    assert(s@[2] == ("{\"owner_of\":{\"token_id\":"@ + jstr(t2) + ",\"include_expired\":"@ + jopt_bool(ie2) + "}}"@)[2]);
                    assert(false);
                }
            }
            reveal_strlit("{\"num_tokens\":{}}");
            reveal_strlit("{\"get_collection_metadata\":{}}");
            reveal_strlit("}}");
            assert(s@.subrange(0, j1 as int)[2] == s@[2]);
            assert(s@.subrange(0, j1 as int)[3] == s@[3]);
            assert(s@ != "{\"num_tokens\":{}}"@);
            assert(s@ != "{\"get_collection_metadata\":{}}"@);
            assert forall|t2: Seq<char>| s@ == "{\"nft_info\":{\"token_id\":"@ + jstr(t2) + "}}"@ implies jstr_at(
                s@,
                j1 as int,
                t2,
            ) by {
                assert(s@.subrange(j1 as int, j1 + jstr(t2).len()) =~= jstr(t2));
            }
        }
        let (tid, j2) = match parse_jstring(s, j1) {
            Some(p) => p,
            None => {
                proof {
                    reveal_strlit("{\"nft_info\":{\"token_id\":");
                    reveal_strlit("}}");
                    assert forall|t2: Seq<char>|
                        s@ != "{\"nft_info\":{\"token_id\":"@ + jstr(t2) + "}}"@ by {
                        if s@ == "{\"nft_info\":{\"token_id\":"@ + jstr(t2) + "}}"@ {
                            assert(s@.subrange(j1 as int, j1 + jstr(t2).len()) =~= jstr(t2));
                            assert(jstr_at(s@, j1 as int, t2));
                            assert(false);
                        }
                    }
                }
                return None;
            },
        };
        proof {
            reveal_strlit("{\"nft_info\":{\"token_id\":");
            reveal_strlit("}}");
            assert forall|t2: Seq<char>| s@ == "{\"nft_info\":{\"token_id\":"@ + jstr(t2) + "}}"@ implies tid@ == t2
                && s@.subrange(j2 as int, j2 + "}}"@.len()) == "}}"@ && j2 + "}}"@.len()
                == s@.len() by {
                assert(s@.subrange(j1 as int, j1 + jstr(t2).len()) =~= jstr(t2));
                assert(jstr_at(s@, j1 as int, t2));
                assert(tid@ == t2);
                assert(j2 == j1 + jstr(t2).len());
                assert(s@.subrange(j2 as int, j2 + "}}"@.len()) =~= "}}"@);
            }
        }
        let j3 = match parse_lit(s, j2, "}}") { Some(j) => j, None => { return None; } };
        if j3 != s.len() {
            return None;
        }
        let token_id = chars_to_string(&tid);
        proof {
            lemma_subrange_concat(s@, 0, j1 as int, j2 as int);
            lemma_subrange_concat(s@, 0, j2 as int, j3 as int);
            assert(s@ =~= s@.subrange(0, s@.len() as int));
        }
        return Some(Cw721QueryMsg::NftInfo { token_id });
    }
    if let Some(j1) = parse_lit(s, 0, "{\"all_nft_info\":{\"token_id\":") {
        proof {
            reveal_strlit("{\"all_nft_info\":{\"token_id\":");
            reveal_strlit("{\"approvals\":{\"token_id\":");
            assert forall|t2: Seq<char>, ie2: Option<bool>| s@ != "{\"approvals\":{\"token_id\":"@ + jstr(t2) + ",\"include_expired\":"@ + jopt_bool(ie2) + "}}"@ by {
                if s@ == "{\"approvals\":{\"token_id\":"@ + jstr(t2) + ",\"include_expired\":"@ + jopt_bool(ie2) + "}}"@ {
                    assert(s@.subrange(0, j1 as int)[3] == s@[3]);
                    assert(s@[3] == ("{\"approvals\":{\"token_id\":"@ + jstr(t2) + ",\"include_expired\":"@ + jopt_bool(ie2) + "}}"@)[3]);
                    assert(false);
                }
            }
            reveal_strlit("{\"all_nft_info\":{\"token_id\":");
            reveal_strlit("{\"owner_of\":{\"token_id\":");
            assert forall|t2: Seq<char>, ie2: Option<bool>| s@ != "{\"owner_of\":{\"token_id\":"@ + jstr(t2) + ",\"include_expired\":"@ + jopt_bool(ie2) + "}}"@ by {
                if s@ == "{\"owner_of\":{\"token_id\":"@ + jstr(t2) + ",\"include_expired\":"@ + jopt_bool(ie2) + "}}"@ {
                    assert(s@.subrange(0, j1 as int)[2] == s@[2]);
                    assert(s@[2] == ("{\"owner_of\":{\"token_id\":"@ + jstr(t2) + ",\"include_expired\":"@ + jopt_bool(ie2) + "}}"@)[2]);
                    assert(false);
                }
            }
            reveal_strlit("{\"num_tokens\":{}}");
            reveal_strlit("{\"get_collection_metadata\":{}}");
            assert(s@.subrange(0, j1 as int)[2] == s@[2]);
            assert(s@ != "{\"num_tokens\":{}}"@);
            assert(s@ != "{\"get_collection_metadata\":{}}"@);
            reveal_strlit("{\"nft_info\":{\"token_id\":");
            assert forall|tid: Seq<char>| s@ != "{\"nft_info\":{\"token_id\":"@ + jstr(tid) + "}}"@ by {
                if s@ == "{\"nft_info\":{\"token_id\":"@ + jstr(tid) + "}}"@ {
                    assert(s@[2] == ("{\"nft_info\":{\"token_id\":"@ + jstr(tid) + "}}"@)[2]);
                    assert(false);
                }
            }
        }
        let (tid, j2) = match parse_jstring(s, j1) {
            Some(p) => p,
            None => {
                proof {
                    reveal_strlit("{\"all_nft_info\":{\"token_id\":");
                    reveal_strlit("}}");
                    assert forall|t2: Seq<char>, ie2: Option<bool>| s@ != "{\"all_nft_info\":{\"token_id\":"@ + jstr(t2) + ",\"include_expired\":"@ + jopt_bool(ie2) + "}}"@ by {
                        if s@ == "{\"all_nft_info\":{\"token_id\":"@ + jstr(t2) + ",\"include_expired\":"@ + jopt_bool(ie2) + "}}"@ {
                            assert(s@.subrange(j1 as int, j1 + jstr(t2).len()) =~= jstr(t2));
                            assert(jstr_at(s@, j1 as int, t2));
                            assert(false);
                        }
                    }
                }
                return None;
            },
        };
        let j3 = match parse_lit(s, j2, ",\"include_expired\":") {
            Some(j) => j,
            None => {
                proof {
                    reveal_strlit("{\"all_nft_info\":{\"token_id\":");
                    reveal_strlit("}}");
                    assert forall|t2: Seq<char>, ie2: Option<bool>| s@ != "{\"all_nft_info\":{\"token_id\":"@ + jstr(t2) + ",\"include_expired\":"@ + jopt_bool(ie2) + "}}"@ by {
                        if s@ == "{\"all_nft_info\":{\"token_id\":"@ + jstr(t2) + ",\"include_expired\":"@ + jopt_bool(ie2) + "}}"@ {
                            assert(s@.subrange(j1 as int, j1 + jstr(t2).len()) =~= jstr(t2));
                            assert(jstr_at(s@, j1 as int, t2));
                            assert(s@.subrange(j2 as int, j2 + ",\"include_expired\":"@.len()) =~= ",\"include_expired\":"@);
                            assert(false);
                        }
                    }
                }
                return None;
            },
        };
        let (ie, j4) = match parse_opt_bool(s, j3) {
            Some(p) => p,
            None => {
                proof {
                    reveal_strlit("{\"all_nft_info\":{\"token_id\":");
                    reveal_strlit("}}");
                    assert forall|t2: Seq<char>, ie2: Option<bool>| s@ != "{\"all_nft_info\":{\"token_id\":"@ + jstr(t2) + ",\"include_expired\":"@ + jopt_bool(ie2) + "}}"@ by {
                        if s@ == "{\"all_nft_info\":{\"token_id\":"@ + jstr(t2) + ",\"include_expired\":"@ + jopt_bool(ie2) + "}}"@ {
                            assert(s@.subrange(j1 as int, j1 + jstr(t2).len()) =~= jstr(t2));
                            assert(jstr_at(s@, j1 as int, t2));
                            assert(s@.subrange(j3 as int, j3 + jopt_bool(ie2).len())
                                =~= jopt_bool(ie2));
                            assert(opt_bool_at(s@, j3 as int, ie2));
                            assert(false);
                        }
                    }
                }
                return None;
            },
        };
        let j5 = match parse_lit(s, j4, "}}") {
            Some(j) => j,
            None => {
                proof {
                    reveal_strlit("{\"all_nft_info\":{\"token_id\":");
                    reveal_strlit("}}");
                    assert forall|t2: Seq<char>, ie2: Option<bool>| s@ != "{\"all_nft_info\":{\"token_id\":"@ + jstr(t2) + ",\"include_expired\":"@ + jopt_bool(ie2) + "}}"@ by {
                        if s@ == "{\"all_nft_info\":{\"token_id\":"@ + jstr(t2) + ",\"include_expired\":"@ + jopt_bool(ie2) + "}}"@ {
                            assert(s@.subrange(j1 as int, j1 + jstr(t2).len()) =~= jstr(t2));
                            assert(jstr_at(s@, j1 as int, t2));
                            assert(s@.subrange(j3 as int, j3 + jopt_bool(ie2).len())
                                =~= jopt_bool(ie2));
                            assert(opt_bool_at(s@, j3 as int, ie2));
                            assert(j2 == j1 + jstr(t2).len());
                            assert(j4 == j3 + jopt_bool(ie2).len());
                            assert(j4 + "}}"@.len() <= s@.len());
                            assert(s@.subrange(j4 as int, j4 + "}}"@.len()) =~= "}}"@);
                            assert(false);
                        }
                    }
                }
                return None;
            },
        };
        proof {
            reveal_strlit("{\"all_nft_info\":{\"token_id\":");
            reveal_strlit("}}");
            assert forall|t2: Seq<char>, ie2: Option<bool>| s@ == "{\"all_nft_info\":{\"token_id\":"@ + jstr(t2) + ",\"include_expired\":"@ + jopt_bool(ie2) + "}}"@ implies tid@ == t2
                && ie == ie2 && j5 == s@.len() by {
                assert(s@.subrange(j1 as int, j1 + jstr(t2).len()) =~= jstr(t2));
                assert(jstr_at(s@, j1 as int, t2));
                assert(s@.subrange(j3 as int, j3 + jopt_bool(ie2).len()) =~= jopt_bool(ie2));
                assert(opt_bool_at(s@, j3 as int, ie2));
            }
        }
        if j5 != s.len() {
            return None;
        }
        let token_id = chars_to_string(&tid);
        proof {
            lemma_subrange_concat(s@, 0, j1 as int, j2 as int);
            lemma_subrange_concat(s@, 0, j2 as int, j3 as int);
            lemma_subrange_concat(s@, 0, j3 as int, j4 as int);
            lemma_subrange_concat(s@, 0, j4 as int, j5 as int);
            assert(s@ =~= s@.subrange(0, s@.len() as int));
        }
        return Some(Cw721QueryMsg::AllNftInfo { token_id, include_expired: ie });
    }
    if let Some(j1) = parse_lit(s, 0, "{\"tokens\":{\"owner\":") {
        proof {
            reveal_strlit("{\"tokens\":{\"owner\":");
            reveal_strlit("{\"approvals\":{\"token_id\":");
            assert forall|t2: Seq<char>, ie2: Option<bool>| s@ != "{\"approvals\":{\"token_id\":"@ + jstr(t2) + ",\"include_expired\":"@ + jopt_bool(ie2) + "}}"@ by {
                if s@ == "{\"approvals\":{\"token_id\":"@ + jstr(t2) + ",\"include_expired\":"@ + jopt_bool(ie2) + "}}"@ {
                    assert(s@.subrange(0, j1 as int)[2] == s@[2]);
                    assert(s@[2] == ("{\"approvals\":{\"token_id\":"@ + jstr(t2) + ",\"include_expired\":"@ + jopt_bool(ie2) + "}}"@)[2]);
                    assert(false);
                }
            }
            reveal_strlit("{\"all_nft_info\":{\"token_id\":");
            assert forall|t2: Seq<char>, ie2: Option<bool>| s@ != "{\"all_nft_info\":{\"token_id\":"@ + jstr(t2) + ",\"include_expired\":"@ + jopt_bool(ie2) + "}}"@ by {
                if s@ == "{\"all_nft_info\":{\"token_id\":"@ + jstr(t2) + ",\"include_expired\":"@ + jopt_bool(ie2) + "}}"@ {
                    assert(s@.subrange(0, j1 as int)[2] == s@[2]);
                    assert(s@[2] == ("{\"all_nft_info\":{\"token_id\":"@ + jstr(t2) + ",\"include_expired\":"@ + jopt_bool(ie2) + "}}"@)[2]);
                    assert(false);
                }
            }
            reveal_strlit("{\"tokens\":{\"owner\":");
            reveal_strlit("{\"owner_of\":{\"token_id\":");
            assert forall|t2: Seq<char>, ie2: Option<bool>| s@ != "{\"owner_of\":{\"token_id\":"@ + jstr(t2) + ",\"include_expired\":"@ + jopt_bool(ie2) + "}}"@ by {
                if s@ == "{\"owner_of\":{\"token_id\":"@ + jstr(t2) + ",\"include_expired\":"@ + jopt_bool(ie2) + "}}"@ {
                    assert(s@.subrange(0, j1 as int)[2] == s@[2]);
                    assert(s@[2] == ("{\"owner_of\":{\"token_id\":"@ + jstr(t2) + ",\"include_expired\":"@ + jopt_bool(ie2) + "}}"@)[2]);
                    assert(false);
                }
            }
            reveal_strlit("{\"num_tokens\":{}}");
            reveal_strlit("{\"get_collection_metadata\":{}}");
            assert(s@.subrange(0, j1 as int)[2] == s@[2]);
            assert(s@ != "{\"num_tokens\":{}}"@);
            assert(s@ != "{\"get_collection_metadata\":{}}"@);
            reveal_strlit("{\"nft_info\":{\"token_id\":");
            assert forall|tid: Seq<char>| s@ != "{\"nft_info\":{\"token_id\":"@ + jstr(tid) + "}}"@ by {
                if s@ == "{\"nft_info\":{\"token_id\":"@ + jstr(tid) + "}}"@ {
                    assert(s@[2] == ("{\"nft_info\":{\"token_id\":"@ + jstr(tid) + "}}"@)[2]);
                    assert(false);
                }
            }
        }
        let (ow, j2) = match parse_jstring(s, j1) { Some(p) => p, None => { return None; } };
        let j3 = match parse_lit(s, j2, ",\"start_after\":") {
            Some(j) => j,
            None => { return None; },
        };
        let (sa, j4) = match parse_opt_str(s, j3) { Some(p) => p, None => { return None; } };
        let j5 = match parse_lit(s, j4, ",\"limit\":") { Some(j) => j, None => { return None; } };
        let (li, j6) = match parse_opt_u32(s, j5) { Some(p) => p, None => { return None; } };
        let j7 = match parse_lit(s, j6, "}}") { Some(j) => j, None => { return None; } };
        if j7 != s.len() {
            return None;
        }
        let owner = chars_to_string(&ow);
        proof {
            lemma_subrange_concat(s@, 0, j1 as int, j2 as int);
            lemma_subrange_concat(s@, 0, j2 as int, j3 as int);
            lemma_subrange_concat(s@, 0, j3 as int, j4 as int);
            lemma_subrange_concat(s@, 0, j4 as int, j5 as int);
            lemma_subrange_concat(s@, 0, j5 as int, j6 as int);
            lemma_subrange_concat(s@, 0, j6 as int, j7 as int);
            assert(s@ =~= s@.subrange(0, s@.len() as int));
        }
        return Some(Cw721QueryMsg::Tokens { owner, start_after: sa, limit: li });
    }
    if let Some(j1) = parse_lit(s, 0, "{\"all_tokens\":{\"start_after\":") {
        proof {
            reveal_strlit("{\"all_tokens\":{\"start_after\":");
            reveal_strlit("{\"approvals\":{\"token_id\":");
            assert forall|t2: Seq<char>, ie2: Option<bool>| s@ != "{\"approvals\":{\"token_id\":"@ + jstr(t2) + ",\"include_expired\":"@ + jopt_bool(ie2) + "}}"@ by {
                if s@ == "{\"approvals\":{\"token_id\":"@ + jstr(t2) + ",\"include_expired\":"@ + jopt_bool(ie2) + "}}"@ {
                    assert(s@.subrange(0, j1 as int)[3] == s@[3]);
                    assert(s@[3] == ("{\"approvals\":{\"token_id\":"@ + jstr(t2) + ",\"include_expired\":"@ + jopt_bool(ie2) + "}}"@)[3]);
                    assert(false);
                }
            }
            reveal_strlit("{\"all_nft_info\":{\"token_id\":");
            assert forall|t2: Seq<char>, ie2: Option<bool>| s@ != "{\"all_nft_info\":{\"token_id\":"@ + jstr(t2) + ",\"include_expired\":"@ + jopt_bool(ie2) + "}}"@ by {
                if s@ == "{\"all_nft_info\":{\"token_id\":"@ + jstr(t2) + ",\"include_expired\":"@ + jopt_bool(ie2) + "}}"@ {
                    assert(s@.subrange(0, j1 as int)[6] == s@[6]);
                    assert(s@[6] == ("{\"all_nft_info\":{\"token_id\":"@ + jstr(t2) + ",\"include_expired\":"@ + jopt_bool(ie2) + "}}"@)[6]);
                    assert(false);
                }
            }
            reveal_strlit("{\"all_tokens\":{\"start_after\":");
            reveal_strlit("{\"owner_of\":{\"token_id\":");
            assert forall|t2: Seq<char>, ie2: Option<bool>| s@ != "{\"owner_of\":{\"token_id\":"@ + jstr(t2) + ",\"include_expired\":"@ + jopt_bool(ie2) + "}}"@ by {
                if s@ == "{\"owner_of\":{\"token_id\":"@ + jstr(t2) + ",\"include_expired\":"@ + jopt_bool(ie2) + "}}"@ {
                    assert(s@.subrange(0, j1 as int)[2] == s@[2]);
                    assert(s@[2] == ("{\"owner_of\":{\"token_id\":"@ + jstr(t2) + ",\"include_expired\":"@ + jopt_bool(ie2) + "}}"@)[2]);
                    assert(false);
                }
            }
            reveal_strlit("{\"num_tokens\":{}}");
            reveal_strlit("{\"get_collection_metadata\":{}}");
            assert(s@.subrange(0, j1 as int)[2] == s@[2]);
            assert(s@ != "{\"num_tokens\":{}}"@);
            assert(s@ != "{\"get_collection_metadata\":{}}"@);
            reveal_strlit("{\"nft_info\":{\"token_id\":");
            assert forall|tid: Seq<char>| s@ != "{\"nft_info\":{\"token_id\":"@ + jstr(tid) + "}}"@ by {
                if s@ == "{\"nft_info\":{\"token_id\":"@ + jstr(tid) + "}}"@ {
                    assert(s@[2] == ("{\"nft_info\":{\"token_id\":"@ + jstr(tid) + "}}"@)[2]);
                    assert(false);
                }
            }
        }
        let (sa, j2) = match parse_opt_str(s, j1) { Some(p) => p, None => { return None; } };
        let j3 = match parse_lit(s, j2, ",\"limit\":") { Some(j) => j, None => { return None; } };
        let (li, j4) = match parse_opt_u32(s, j3) { Some(p) => p, None => { return None; } };
        let j5 = match parse_lit(s, j4, "}}") { Some(j) => j, None => { return None; } };
        if j5 != s.len() {
            return None;
        }
        proof {
            lemma_subrange_concat(s@, 0, j1 as int, j2 as int);
            lemma_subrange_concat(s@, 0, j2 as int, j3 as int);
            lemma_subrange_concat(s@, 0, j3 as int, j4 as int);
            lemma_subrange_concat(s@, 0, j4 as int, j5 as int);
            assert(s@ =~= s@.subrange(0, s@.len() as int));
        }
        return Some(Cw721QueryMsg::AllTokens { start_after: sa, limit: li });
    }
    proof {
        reveal_strlit("{\"num_tokens\":{}}");
        reveal_strlit("{\"all_nft_info\":{\"token_id\":");
        assert forall|t2: Seq<char>, ie2: Option<bool>| s@ != "{\"all_nft_info\":{\"token_id\":"@ + jstr(t2) + ",\"include_expired\":"@ + jopt_bool(ie2) + "}}"@ by {
            if s@ == "{\"all_nft_info\":{\"token_id\":"@ + jstr(t2) + ",\"include_expired\":"@ + jopt_bool(ie2) + "}}"@ {
                assert(s@.subrange(0, "{\"all_nft_info\":{\"token_id\":"@.len() as int) =~= "{\"all_nft_info\":{\"token_id\":"@);
                assert(false);
            }
        }
        reveal_strlit("{\"get_collection_metadata\":{}}");
        reveal_strlit("{\"nft_info\":{\"token_id\":");
        reveal_strlit("}}");
        assert forall|tid: Seq<char>| s@ != "{\"nft_info\":{\"token_id\":"@ + jstr(tid) + "}}"@ by {
            if s@ == "{\"nft_info\":{\"token_id\":"@ + jstr(tid) + "}}"@ {
                assert(s@.subrange(0, "{\"nft_info\":{\"token_id\":"@.len() as int) =~= "{\"nft_info\":{\"token_id\":"@);
                assert(false);
            }
        }
        if s@ == "{\"get_collection_metadata\":{}}"@ {
            assert(s@.subrange(0, "{\"get_collection_metadata\":{}}"@.len() as int) =~= "{\"get_collection_metadata\":{}}"@);
        }
    }
    None
}

/// Continues [`decode_query`]'s dispatch: the approvals listing, the
/// operator listing and the token count, then the remaining variants.
/// Sound on every acceptance; complete for the approvals-listing and
/// token-count requests and for everything [`decode_query_tail`] covers.
#[verifier::rlimit(100)]
fn decode_query_mid(s: &Vec<char>) -> (r: Option<Cw721QueryMsg>)
    ensures
        r matches Some(q) ==> s@ == spec_query_json(q),
        s@ == spec_query_json(Cw721QueryMsg::NumTokens {  }) ==> r == Some(
            Cw721QueryMsg::NumTokens {  },
        ),
        s@ == spec_query_json(Cw721QueryMsg::GetCollectionMetadata {  }) ==> r == Some(
            Cw721QueryMsg::GetCollectionMetadata {  },
        ),
        forall|tid: Seq<char>|
            s@ == "{\"nft_info\":{\"token_id\":"@ + jstr(tid) + "}}"@ ==> (r matches Some(q)
                && q matches (Cw721QueryMsg::NftInfo { token_id }) && token_id@ == tid),
        forall|tid: Seq<char>, ie: Option<bool>|
            s@ == "{\"approvals\":{\"token_id\":"@ + jstr(tid) + ",\"include_expired\":"@
                + jopt_bool(ie) + "}}"@ ==> (r matches Some(q) && q matches (
            Cw721QueryMsg::Approvals { token_id, include_expired }) && token_id@ == tid
                && include_expired == ie),
        forall|tid: Seq<char>, ie: Option<bool>|
            s@ == "{\"all_nft_info\":{\"token_id\":"@ + jstr(tid) + ",\"include_expired\":"@
                + jopt_bool(ie) + "}}"@ ==> (r matches Some(q) && q matches (
            Cw721QueryMsg::AllNftInfo { token_id, include_expired }) && token_id@ == tid
                && include_expired == ie),
{
    if let Some(j1) = parse_lit(s, 0, "{\"approvals\":{\"token_id\":") {
        proof {
            reveal_strlit("{\"approvals\":{\"token_id\":");
            reveal_strlit("{\"approval\":{\"token_id\":");
            assert forall|t2: Seq<char>, sp2: Seq<char>, ie2: Option<bool>| s@ != "{\"approval\":{\"token_id\":"@ + jstr(t2) + ",\"spender\":"@ + jstr(sp2) + ",\"include_expired\":"@ + jopt_bool(ie2) + "}}"@ by {
                if s@ == "{\"approval\":{\"token_id\":"@ + jstr(t2) + ",\"spender\":"@ + jstr(sp2) + ",\"include_expired\":"@ + jopt_bool(ie2) + "}}"@ {
                    assert(s@.subrange(0, j1 as int)[10] == s@[10]);
                    assert(s@[10] == ("{\"approval\":{\"token_id\":"@ + jstr(t2) + ",\"spender\":"@ + jstr(sp2) + ",\"include_expired\":"@ + jopt_bool(ie2) + "}}"@)[10]);
                    assert(false);
                }
            }
            reveal_strlit("{\"all_nft_info\":{\"token_id\":");
            assert forall|t2: Seq<char>, ie2: Option<bool>| s@ != "{\"all_nft_info\":{\"token_id\":"@ + jstr(t2) + ",\"include_expired\":"@ + jopt_bool(ie2) + "}}"@ by {
                if s@ == "{\"all_nft_info\":{\"token_id\":"@ + jstr(t2) + ",\"include_expired\":"@ + jopt_bool(ie2) + "}}"@ {
                    assert(s@.subrange(0, j1 as int)[3] == s@[3]);
                    assert(s@[3] == ("{\"all_nft_info\":{\"token_id\":"@ + jstr(t2) + ",\"include_expired\":"@ + jopt_bool(ie2) + "}}"@)[3]);
                    assert(false);
                }
            }
            reveal_strlit("{\"approvals\":{\"token_id\":");
            reveal_strlit("{\"owner_of\":{\"token_id\":");
            assert forall|t2: Seq<char>, ie2: Option<bool>| s@ != "{\"owner_of\":{\"token_id\":"@ + jstr(t2) + ",\"include_expired\":"@ + jopt_bool(ie2) + "}}"@ by {
                if s@ == "{\"owner_of\":{\"token_id\":"@ + jstr(t2) + ",\"include_expired\":"@ + jopt_bool(ie2) + "}}"@ {
                    assert(s@.subrange(0, j1 as int)[2] == s@[2]);
                    assert(s@[2] == ("{\"owner_of\":{\"token_id\":"@ + jstr(t2) + ",\"include_expired\":"@ + jopt_bool(ie2) + "}}"@)[2]);
                    assert(false);
                }
            }
            reveal_strlit("{\"num_tokens\":{}}");
            reveal_strlit("{\"get_collection_metadata\":{}}");
            assert(s@.subrange(0, j1 as int)[2] == s@[2]);
            assert(s@ != "{\"num_tokens\":{}}"@);
            assert(s@ != "{\"get_collection_metadata\":{}}"@);
            reveal_strlit("{\"nft_info\":{\"token_id\":");
            assert forall|tid: Seq<char>| s@ != "{\"nft_info\":{\"token_id\":"@ + jstr(tid) + "}}"@ by {
                if s@ == "{\"nft_info\":{\"token_id\":"@ + jstr(tid) + "}}"@ {
                    assert(s@[2] == ("{\"nft_info\":{\"token_id\":"@ + jstr(tid) + "}}"@)[2]);
                    assert(false);
                }
            }
        }
        let (tid, j2) = match parse_jstring(s, j1) {
            Some(p) => p,
            None => {
                proof {
                    reveal_strlit("{\"approvals\":{\"token_id\":");
                    reveal_strlit("}}");
                    assert forall|t2: Seq<char>, ie2: Option<bool>| s@ != "{\"approvals\":{\"token_id\":"@ + jstr(t2) + ",\"include_expired\":"@ + jopt_bool(ie2) + "}}"@ by {
                        if s@ == "{\"approvals\":{\"token_id\":"@ + jstr(t2) + ",\"include_expired\":"@ + jopt_bool(ie2) + "}}"@ {
                            assert(s@.subrange(j1 as int, j1 + jstr(t2).len()) =~= jstr(t2));
                            assert(jstr_at(s@, j1 as int, t2));
                            assert(false);
                        }
                    }
                }
                return None;
            },
        };
        let j3 = match parse_lit(s, j2, ",\"include_expired\":") {
            Some(j) => j,
            None => {
                proof {
                    reveal_strlit("{\"approvals\":{\"token_id\":");
                    reveal_strlit("}}");
                    assert forall|t2: Seq<char>, ie2: Option<bool>| s@ != "{\"approvals\":{\"token_id\":"@ + jstr(t2) + ",\"include_expired\":"@ + jopt_bool(ie2) + "}}"@ by {
                        if s@ == "{\"approvals\":{\"token_id\":"@ + jstr(t2) + ",\"include_expired\":"@ + jopt_bool(ie2) + "}}"@ {
                            assert(s@.subrange(j1 as int, j1 + jstr(t2).len()) =~= jstr(t2));
                            assert(jstr_at(s@, j1 as int, t2));
                            assert(s@.subrange(j2 as int, j2 + ",\"include_expired\":"@.len()) =~= ",\"include_expired\":"@);
                            assert(false);
                        }
                    }
                }
                return None;
            },
        };
        let (ie, j4) = match parse_opt_bool(s, j3) {
            Some(p) => p,
            None => {
                proof {
                    reveal_strlit("{\"approvals\":{\"token_id\":");
                    reveal_strlit("}}");
                    assert forall|t2: Seq<char>, ie2: Option<bool>| s@ != "{\"approvals\":{\"token_id\":"@ + jstr(t2) + ",\"include_expired\":"@ + jopt_bool(ie2) + "}}"@ by {
                        if s@ == "{\"approvals\":{\"token_id\":"@ + jstr(t2) + ",\"include_expired\":"@ + jopt_bool(ie2) + "}}"@ {
                            assert(s@.subrange(j1 as int, j1 + jstr(t2).len()) =~= jstr(t2));
                            assert(jstr_at(s@, j1 as int, t2));
                            assert(s@.subrange(j3 as int, j3 + jopt_bool(ie2).len())
                                =~= jopt_bool(ie2));
                            assert(opt_bool_at(s@, j3 as int, ie2));
                            assert(false);
                        }
                    }
                }
                return None;
            },
        };
        let j5 = match parse_lit(s, j4, "}}") {
            Some(j) => j,
            None => {
                proof {
                    reveal_strlit("{\"approvals\":{\"token_id\":");
                    reveal_strlit("}}");
                    assert forall|t2: Seq<char>, ie2: Option<bool>| s@ != "{\"approvals\":{\"token_id\":"@ + jstr(t2) + ",\"include_expired\":"@ + jopt_bool(ie2) + "}}"@ by {
                        if s@ == "{\"approvals\":{\"token_id\":"@ + jstr(t2) + ",\"include_expired\":"@ + jopt_bool(ie2) + "}}"@ {
                            assert(s@.subrange(j1 as int, j1 + jstr(t2).len()) =~= jstr(t2));
                            assert(jstr_at(s@, j1 as int, t2));
                            assert(s@.subrange(j3 as int, j3 + jopt_bool(ie2).len())
                                =~= jopt_bool(ie2));
                            assert(opt_bool_at(s@, j3 as int, ie2));
                            assert(j2 == j1 + jstr(t2).len());
                            assert(j4 == j3 + jopt_bool(ie2).len());
                            assert(j4 + "}}"@.len() <= s@.len());
                            assert(s@.subrange(j4 as int, j4 + "}}"@.len()) =~= "}}"@);
                            assert(false);
                        }
                    }
                }
                return None;
            },
        };
        proof {
            reveal_strlit("{\"approvals\":{\"token_id\":");
            reveal_strlit("}}");
            assert forall|t2: Seq<char>, ie2: Option<bool>| s@ == "{\"approvals\":{\"token_id\":"@ + jstr(t2) + ",\"include_expired\":"@ + jopt_bool(ie2) + "}}"@ implies tid@ == t2
                && ie == ie2 && j5 == s@.len() by {
                assert(s@.subrange(j1 as int, j1 + jstr(t2).len()) =~= jstr(t2));
                assert(jstr_at(s@, j1 as int, t2));
                assert(s@.subrange(j3 as int, j3 + jopt_bool(ie2).len()) =~= jopt_bool(ie2));
                assert(opt_bool_at(s@, j3 as int, ie2));
            }
        }
        if j5 != s.len() {
            return None;
        }
        let token_id = chars_to_string(&tid);
        proof {
            lemma_subrange_concat(s@, 0, j1 as int, j2 as int);
            lemma_subrange_concat(s@, 0, j2 as int, j3 as int);
            lemma_subrange_concat(s@, 0, j3 as int, j4 as int);
            lemma_subrange_concat(s@, 0, j4 as int, j5 as int);
            assert(s@ =~= s@.subrange(0, s@.len() as int));
        }
        return Some(Cw721QueryMsg::Approvals { token_id, include_expired: ie });
    }
    if let Some(j1) = parse_lit(s, 0, "{\"all_operators\":{\"owner\":") {
        proof {
            reveal_strlit("{\"all_operators\":{\"owner\":");
            reveal_strlit("{\"approval\":{\"token_id\":");
            assert forall|t2: Seq<char>, sp2: Seq<char>, ie2: Option<bool>| s@ != "{\"approval\":{\"token_id\":"@ + jstr(t2) + ",\"spender\":"@ + jstr(sp2) + ",\"include_expired\":"@ + jopt_bool(ie2) + "}}"@ by {
                if s@ == "{\"approval\":{\"token_id\":"@ + jstr(t2) + ",\"spender\":"@ + jstr(sp2) + ",\"include_expired\":"@ + jopt_bool(ie2) + "}}"@ {
                    assert(s@.subrange(0, j1 as int)[3] == s@[3]);
                    assert(s@[3] == ("{\"approval\":{\"token_id\":"@ + jstr(t2) + ",\"spender\":"@ + jstr(sp2) + ",\"include_expired\":"@ + jopt_bool(ie2) + "}}"@)[3]);
                    assert(false);
                }
            }
            reveal_strlit("{\"approvals\":{\"token_id\":");
            assert forall|t2: Seq<char>, ie2: Option<bool>| s@ != "{\"approvals\":{\"token_id\":"@ + jstr(t2) + ",\"include_expired\":"@ + jopt_bool(ie2) + "}}"@ by {
                if s@ == "{\"approvals\":{\"token_id\":"@ + jstr(t2) + ",\"include_expired\":"@ + jopt_bool(ie2) + "}}"@ {
                    assert(s@.subrange(0, j1 as int)[3] == s@[3]);
                    assert(s@[3] == ("{\"approvals\":{\"token_id\":"@ + jstr(t2) + ",\"include_expired\":"@ + jopt_bool(ie2) + "}}"@)[3]);
                    assert(false);
                }
            }
            reveal_strlit("{\"all_nft_info\":{\"token_id\":");
            assert forall|t2: Seq<char>, ie2: Option<bool>| s@ != "{\"all_nft_info\":{\"token_id\":"@ + jstr(t2) + ",\"include_expired\":"@ + jopt_bool(ie2) + "}}"@ by {
                if s@ == "{\"all_nft_info\":{\"token_id\":"@ + jstr(t2) + ",\"include_expired\":"@ + jopt_bool(ie2) + "}}"@ {
                    assert(s@.subrange(0, j1 as int)[6] == s@[6]);
                    assert(s@[6] == ("{\"all_nft_info\":{\"token_id\":"@ + jstr(t2) + ",\"include_expired\":"@ + jopt_bool(ie2) + "}}"@)[6]);
                    assert(false);
                }
            }
            reveal_strlit("{\"all_operators\":{\"owner\":");
            reveal_strlit("{\"owner_of\":{\"token_id\":");
            assert forall|t2: Seq<char>, ie2: Option<bool>| s@ != "{\"owner_of\":{\"token_id\":"@ + jstr(t2) + ",\"include_expired\":"@ + jopt_bool(ie2) + "}}"@ by {
                if s@ == "{\"owner_of\":{\"token_id\":"@ + jstr(t2) + ",\"include_expired\":"@ + jopt_bool(ie2) + "}}"@ {
                    assert(s@.subrange(0, j1 as int)[2] == s@[2]);
                    assert(s@[2] == ("{\"owner_of\":{\"token_id\":"@ + jstr(t2) + ",\"include_expired\":"@ + jopt_bool(ie2) + "}}"@)[2]);
                    assert(false);
                }
            }
            reveal_strlit("{\"num_tokens\":{}}");
            reveal_strlit("{\"get_collection_metadata\":{}}");
            assert(s@.subrange(0, j1 as int)[2] == s@[2]);
            assert(s@ != "{\"num_tokens\":{}}"@);
            assert(s@ != "{\"get_collection_metadata\":{}}"@);
            reveal_strlit("{\"nft_info\":{\"token_id\":");
            assert forall|tid: Seq<char>| s@ != "{\"nft_info\":{\"token_id\":"@ + jstr(tid) + "}}"@ by {
                if s@ == "{\"nft_info\":{\"token_id\":"@ + jstr(tid) + "}}"@ {
                    assert(s@[2] == ("{\"nft_info\":{\"token_id\":"@ + jstr(tid) + "}}"@)[2]);
                    assert(false);
                }
            }
        }
        let (ow, j2) = match parse_jstring(s, j1) { Some(p) => p, None => { return None; } };
        let j3 = match parse_lit(s, j2, ",\"include_expired\":") {
            Some(j) => j,
            None => { return None; },
        };
        let (ie, j4) = match parse_opt_bool(s, j3) { Some(p) => p, None => { return None; } };
        let j5 = match parse_lit(s, j4, ",\"start_after\":") {
            Some(j) => j,
            None => { return None; },
        };
        let (sa, j6) = match parse_opt_str(s, j5) { Some(p) => p, None => { return None; } };
        let j7 = match parse_lit(s, j6, ",\"limit\":") { Some(j) => j, None => { return None; } };
        let (li, j8) = match parse_opt_u32(s, j7) { Some(p) => p, None => { return None; } };
        let j9 = match parse_lit(s, j8, "}}") { Some(j) => j, None => { return None; } };
        if j9 != s.len() {
            return None;
        }
        let owner = chars_to_string(&ow);
        proof {
            lemma_subrange_concat(s@, 0, j1 as int, j2 as int);
            lemma_subrange_concat(s@, 0, j2 as int, j3 as int);
            lemma_subrange_concat(s@, 0, j3 as int, j4 as int);
            lemma_subrange_concat(s@, 0, j4 as int, j5 as int);
            lemma_subrange_concat(s@, 0, j5 as int, j6 as int);
            lemma_subrange_concat(s@, 0, j6 as int, j7 as int);
            lemma_subrange_concat(s@, 0, j7 as int, j8 as int);
            lemma_subrange_concat(s@, 0, j8 as int, j9 as int);
            assert(s@ =~= s@.subrange(0, s@.len() as int));
        }
        return Some(
            Cw721QueryMsg::AllOperators {
                owner,
                include_expired: ie,
                start_after: sa,
                limit: li,
            },
        );
    }
    if let Some(j1) = parse_lit(s, 0, "{\"num_tokens\":{}}") {
        proof {
            reveal_strlit("{\"num_tokens\":{}}");
            reveal_strlit("{\"approval\":{\"token_id\":");
            assert forall|t2: Seq<char>, sp2: Seq<char>, ie2: Option<bool>| s@ != "{\"approval\":{\"token_id\":"@ + jstr(t2) + ",\"spender\":"@ + jstr(sp2) + ",\"include_expired\":"@ + jopt_bool(ie2) + "}}"@ by {
                if s@ == "{\"approval\":{\"token_id\":"@ + jstr(t2) + ",\"spender\":"@ + jstr(sp2) + ",\"include_expired\":"@ + jopt_bool(ie2) + "}}"@ {
                    assert(s@.subrange(0, j1 as int)[2] == s@[2]);
                    assert(s@[2] == ("{\"approval\":{\"token_id\":"@ + jstr(t2) + ",\"spender\":"@ + jstr(sp2) + ",\"include_expired\":"@ + jopt_bool(ie2) + "}}"@)[2]);
                    assert(false);
                }
            }
            reveal_strlit("{\"approvals\":{\"token_id\":");
            assert forall|t2: Seq<char>, ie2: Option<bool>| s@ != "{\"approvals\":{\"token_id\":"@ + jstr(t2) + ",\"include_expired\":"@ + jopt_bool(ie2) + "}}"@ by {
                if s@ == "{\"approvals\":{\"token_id\":"@ + jstr(t2) + ",\"include_expired\":"@ + jopt_bool(ie2) + "}}"@ {
                    assert(s@.subrange(0, j1 as int)[2] == s@[2]);
                    assert(s@[2] == ("{\"approvals\":{\"token_id\":"@ + jstr(t2) + ",\"include_expired\":"@ + jopt_bool(ie2) + "}}"@)[2]);
                    assert(false);
                }
            }
            reveal_strlit("{\"all_nft_info\":{\"token_id\":");
            assert forall|t2: Seq<char>, ie2: Option<bool>| s@ != "{\"all_nft_info\":{\"token_id\":"@ + jstr(t2) + ",\"include_expired\":"@ + jopt_bool(ie2) + "}}"@ by {
                if s@ == "{\"all_nft_info\":{\"token_id\":"@ + jstr(t2) + ",\"include_expired\":"@ + jopt_bool(ie2) + "}}"@ {
                    assert(s@.subrange(0, j1 as int)[2] == s@[2]);
                    assert(s@[2] == ("{\"all_nft_info\":{\"token_id\":"@ + jstr(t2) + ",\"include_expired\":"@ + jopt_bool(ie2) + "}}"@)[2]);
                    assert(false);
                }
            }
            reveal_strlit("{\"num_tokens\":{}}");
            reveal_strlit("{\"get_collection_metadata\":{}}");
            reveal_strlit("{\"owner_of\":{\"token_id\":");
            assert forall|t2: Seq<char>, ie2: Option<bool>| s@ != "{\"owner_of\":{\"token_id\":"@ + jstr(t2) + ",\"include_expired\":"@ + jopt_bool(ie2) + "}}"@ by {
                if s@ == "{\"owner_of\":{\"token_id\":"@ + jstr(t2) + ",\"include_expired\":"@ + jopt_bool(ie2) + "}}"@ {
                    assert(s@.subrange(0, j1 as int)[2] == s@[2]);
                    assert(s@[2] == ("{\"owner_of\":{\"token_id\":"@ + jstr(t2) + ",\"include_expired\":"@ + jopt_bool(ie2) + "}}"@)[2]);
                    assert(false);
                }
            }
            reveal_strlit("{\"get_collection_metadata\":{}}");
            assert(s@.subrange(0, j1 as int)[2] == s@[2]);
            assert(s@.subrange(0, j1 as int)[3] == s@[3]);
            assert(s@ != "{\"get_collection_metadata\":{}}"@);
            reveal_strlit("{\"nft_info\":{\"token_id\":");
            assert forall|tid: Seq<char>| s@ != "{\"nft_info\":{\"token_id\":"@ + jstr(tid) + "}}"@ by {
                if s@ == "{\"nft_info\":{\"token_id\":"@ + jstr(tid) + "}}"@ {
                    assert(s@[3] == ("{\"nft_info\":{\"token_id\":"@ + jstr(tid) + "}}"@)[3]);
                    assert(false);
                }
            }
        }
        if j1 != s.len() {
            return None;
        }
        proof {
            assert(s@ =~= s@.subrange(0, s@.len() as int));
        }
        return Some(Cw721QueryMsg::NumTokens {  });
    }
    proof {
        reveal_strlit("{\"num_tokens\":{}}");
        reveal_strlit("{\"approvals\":{\"token_id\":");
        assert forall|t2: Seq<char>, ie2: Option<bool>| s@ != "{\"approvals\":{\"token_id\":"@ + jstr(t2) + ",\"include_expired\":"@ + jopt_bool(ie2) + "}}"@ by {
            if s@ == "{\"approvals\":{\"token_id\":"@ + jstr(t2) + ",\"include_expired\":"@ + jopt_bool(ie2) + "}}"@ {
                assert(s@.subrange(0, "{\"approvals\":{\"token_id\":"@.len() as int) =~= "{\"approvals\":{\"token_id\":"@);
                assert(false);
            }
        }
        if s@ == "{\"num_tokens\":{}}"@ {
            assert(s@.subrange(0, "{\"num_tokens\":{}}"@.len() as int) =~= "{\"num_tokens\":{}}"@);
        }
    }
    decode_query_tail(s)
}

/// Continues [`decode_query`]'s dispatch at the single-spender approval
/// lookup, then hands on to [`decode_query_mid`].  Sound on every
/// acceptance and complete for every variant but the ownership lookup and
/// the three pagination-bearing listings.
#[verifier::rlimit(100)]
fn decode_query_approval(s: &Vec<char>) -> (r: Option<Cw721QueryMsg>)
    ensures
        r matches Some(q) ==> s@ == spec_query_json(q),
        s@ == spec_query_json(Cw721QueryMsg::NumTokens {  }) ==> r == Some(
            Cw721QueryMsg::NumTokens {  },
        ),
        s@ == spec_query_json(Cw721QueryMsg::GetCollectionMetadata {  }) ==> r == Some(
            Cw721QueryMsg::GetCollectionMetadata {  },
        ),
        forall|tid: Seq<char>|
            s@ == "{\"nft_info\":{\"token_id\":"@ + jstr(tid) + "}}"@ ==> (r matches Some(q)
                && q matches (Cw721QueryMsg::NftInfo { token_id }) && token_id@ == tid),
        forall|tid: Seq<char>, ie: Option<bool>|
            s@ == "{\"approvals\":{\"token_id\":"@ + jstr(tid) + ",\"include_expired\":"@
                + jopt_bool(ie) + "}}"@ ==> (r matches Some(q) && q matches (
            Cw721QueryMsg::Approvals { token_id, include_expired }) && token_id@ == tid
                && include_expired == ie),
        forall|tid: Seq<char>, ie: Option<bool>|
            s@ == "{\"all_nft_info\":{\"token_id\":"@ + jstr(tid) + ",\"include_expired\":"@
                + jopt_bool(ie) + "}}"@ ==> (r matches Some(q) && q matches (
            Cw721QueryMsg::AllNftInfo { token_id, include_expired }) && token_id@ == tid
                && include_expired == ie),
        forall|tid: Seq<char>, sp: Seq<char>, ie: Option<bool>|
            s@ == "{\"approval\":{\"token_id\":"@ + jstr(tid) + ",\"spender\":"@ + jstr(sp)
                + ",\"include_expired\":"@ + jopt_bool(ie) + "}}"@ ==> (r matches Some(q)
                && q matches (Cw721QueryMsg::Approval { token_id, spender, include_expired })
                && token_id@ == tid && spender@ == sp && include_expired == ie),
{
    if let Some(j1) = parse_lit(s, 0, "{\"approval\":{\"token_id\":") {
        proof {
            reveal_strlit("{\"approval\":{\"token_id\":");
            reveal_strlit("{\"approvals\":{\"token_id\":");
            assert forall|t2: Seq<char>, ie2: Option<bool>| s@ != "{\"approvals\":{\"token_id\":"@ + jstr(t2) + ",\"include_expired\":"@ + jopt_bool(ie2) + "}}"@ by {
                if s@ == "{\"approvals\":{\"token_id\":"@ + jstr(t2) + ",\"include_expired\":"@ + jopt_bool(ie2) + "}}"@ {
                    assert(s@.subrange(0, j1 as int)[10] == s@[10]);
                    assert(s@[10] == ("{\"approvals\":{\"token_id\":"@ + jstr(t2) + ",\"include_expired\":"@ + jopt_bool(ie2) + "}}"@)[10]);
                    assert(false);
                }
            }
            reveal_strlit("{\"all_nft_info\":{\"token_id\":");
            assert forall|t2: Seq<char>, ie2: Option<bool>| s@ != "{\"all_nft_info\":{\"token_id\":"@ + jstr(t2) + ",\"include_expired\":"@ + jopt_bool(ie2) + "}}"@ by {
                if s@ == "{\"all_nft_info\":{\"token_id\":"@ + jstr(t2) + ",\"include_expired\":"@ + jopt_bool(ie2) + "}}"@ {
                    assert(s@.subrange(0, j1 as int)[3] == s@[3]);
                    assert(s@[3] == ("{\"all_nft_info\":{\"token_id\":"@ + jstr(t2) + ",\"include_expired\":"@ + jopt_bool(ie2) + "}}"@)[3]);
                    assert(false);
                }
            }
            reveal_strlit("{\"approval\":{\"token_id\":");
            reveal_strlit("{\"owner_of\":{\"token_id\":");
            assert forall|t2: Seq<char>, ie2: Option<bool>| s@ != "{\"owner_of\":{\"token_id\":"@ + jstr(t2) + ",\"include_expired\":"@ + jopt_bool(ie2) + "}}"@ by {
                if s@ == "{\"owner_of\":{\"token_id\":"@ + jstr(t2) + ",\"include_expired\":"@ + jopt_bool(ie2) + "}}"@ {
                    assert(s@.subrange(0, j1 as int)[2] == s@[2]);
                    assert(s@[2] == ("{\"owner_of\":{\"token_id\":"@ + jstr(t2) + ",\"include_expired\":"@ + jopt_bool(ie2) + "}}"@)[2]);
                    assert(false);
                }
            }
            reveal_strlit("{\"num_tokens\":{}}");
            reveal_strlit("{\"get_collection_metadata\":{}}");
            assert(s@.subrange(0, j1 as int)[2] == s@[2]);
            assert(s@ != "{\"num_tokens\":{}}"@);
            assert(s@ != "{\"get_collection_metadata\":{}}"@);
            reveal_strlit("{\"nft_info\":{\"token_id\":");
            assert forall|tid: Seq<char>| s@ != "{\"nft_info\":{\"token_id\":"@ + jstr(tid) + "}}"@ by {
                if s@ == "{\"nft_info\":{\"token_id\":"@ + jstr(tid) + "}}"@ {
                    assert(s@[2] == ("{\"nft_info\":{\"token_id\":"@ + jstr(tid) + "}}"@)[2]);
                    assert(false);
                }
            }
        }
        let (tid, j2) = match parse_jstring(s, j1) {
            Some(p) => p,
            None => {
                proof {
                    reveal_strlit("{\"approval\":{\"token_id\":");
                    reveal_strlit("}}");
                    assert forall|t2: Seq<char>, sp2: Seq<char>, ie2: Option<bool>| s@ != "{\"approval\":{\"token_id\":"@ + jstr(t2) + ",\"spender\":"@ + jstr(sp2) + ",\"include_expired\":"@ + jopt_bool(ie2) + "}}"@ by {
                        if s@ == "{\"approval\":{\"token_id\":"@ + jstr(t2) + ",\"spender\":"@ + jstr(sp2) + ",\"include_expired\":"@ + jopt_bool(ie2) + "}}"@ {
                            assert(s@.subrange(j1 as int, j1 + jstr(t2).len()) =~= jstr(t2));
                            assert(jstr_at(s@, j1 as int, t2));
                            assert(false);
                        }
                    }
                }
                return None;
            },
        };
        let j3 = match parse_lit(s, j2, ",\"spender\":") {
            Some(j) => j,
            None => {
                proof {
                    reveal_strlit("{\"approval\":{\"token_id\":");
                    reveal_strlit("}}");
                    assert forall|t2: Seq<char>, sp2: Seq<char>, ie2: Option<bool>| s@ != "{\"approval\":{\"token_id\":"@ + jstr(t2) + ",\"spender\":"@ + jstr(sp2) + ",\"include_expired\":"@ + jopt_bool(ie2) + "}}"@ by {
                        if s@ == "{\"approval\":{\"token_id\":"@ + jstr(t2) + ",\"spender\":"@ + jstr(sp2) + ",\"include_expired\":"@ + jopt_bool(ie2) + "}}"@ {
                            assert(s@.subrange(j1 as int, j1 + jstr(t2).len()) =~= jstr(t2));
                            assert(jstr_at(s@, j1 as int, t2));
                            assert(s@.subrange(j2 as int, j2 + ",\"spender\":"@.len()) =~= ",\"spender\":"@);
                            assert(false);
                        }
                    }
                }
                return None;
            },
        };
        let (sp, j4) = match parse_jstring(s, j3) {
            Some(p) => p,
            None => {
                proof {
                    reveal_strlit("{\"approval\":{\"token_id\":");
                    reveal_strlit("}}");
                    assert forall|t2: Seq<char>, sp2: Seq<char>, ie2: Option<bool>| s@ != "{\"approval\":{\"token_id\":"@ + jstr(t2) + ",\"spender\":"@ + jstr(sp2) + ",\"include_expired\":"@ + jopt_bool(ie2) + "}}"@ by {
                        if s@ == "{\"approval\":{\"token_id\":"@ + jstr(t2) + ",\"spender\":"@ + jstr(sp2) + ",\"include_expired\":"@ + jopt_bool(ie2) + "}}"@ {
                            assert(s@.subrange(j1 as int, j1 + jstr(t2).len()) =~= jstr(t2));
                            assert(jstr_at(s@, j1 as int, t2));
                            assert(s@.subrange(j3 as int, j3 + jstr(sp2).len()) =~= jstr(sp2));
                            assert(jstr_at(s@, j3 as int, sp2));
                            assert(false);
                        }
                    }
                }
                return None;
            },
        };
        let j5 = match parse_lit(s, j4, ",\"include_expired\":") {
            Some(j) => j,
            None => {
                proof {
                    reveal_strlit("{\"approval\":{\"token_id\":");
                    reveal_strlit("}}");
                    assert forall|t2: Seq<char>, sp2: Seq<char>, ie2: Option<bool>| s@ != "{\"approval\":{\"token_id\":"@ + jstr(t2) + ",\"spender\":"@ + jstr(sp2) + ",\"include_expired\":"@ + jopt_bool(ie2) + "}}"@ by {
                        if s@ == "{\"approval\":{\"token_id\":"@ + jstr(t2) + ",\"spender\":"@ + jstr(sp2) + ",\"include_expired\":"@ + jopt_bool(ie2) + "}}"@ {
                            assert(s@.subrange(j1 as int, j1 + jstr(t2).len()) =~= jstr(t2));
                            assert(jstr_at(s@, j1 as int, t2));
                            assert(s@.subrange(j3 as int, j3 + jstr(sp2).len()) =~= jstr(sp2));
                            assert(jstr_at(s@, j3 as int, sp2));
                            assert(s@.subrange(j4 as int, j4 + ",\"include_expired\":"@.len()) =~= ",\"include_expired\":"@);
                            assert(false);
                        }
                    }
                }
                return None;
            },
        };
        let (ie, j6) = match parse_opt_bool(s, j5) {
            Some(p) => p,
            None => {
                proof {
                    reveal_strlit("{\"approval\":{\"token_id\":");
                    reveal_strlit("}}");
                    assert forall|t2: Seq<char>, sp2: Seq<char>, ie2: Option<bool>| s@ != "{\"approval\":{\"token_id\":"@ + jstr(t2) + ",\"spender\":"@ + jstr(sp2) + ",\"include_expired\":"@ + jopt_bool(ie2) + "}}"@ by {
                        if s@ == "{\"approval\":{\"token_id\":"@ + jstr(t2) + ",\"spender\":"@ + jstr(sp2) + ",\"include_expired\":"@ + jopt_bool(ie2) + "}}"@ {
                            assert(s@.subrange(j1 as int, j1 + jstr(t2).len()) =~= jstr(t2));
                            assert(jstr_at(s@, j1 as int, t2));
                            assert(s@.subrange(j3 as int, j3 + jstr(sp2).len()) =~= jstr(sp2));
                            assert(jstr_at(s@, j3 as int, sp2));
                            assert(s@.subrange(j5 as int, j5 + jopt_bool(ie2).len())
                                =~= jopt_bool(ie2));
                            assert(opt_bool_at(s@, j5 as int, ie2));
                            assert(false);
                        }
                    }
                }
                return None;
            },
        };
        let j7 = match parse_lit(s, j6, "}}") {
            Some(j) => j,
            None => {
                proof {
                    reveal_strlit("{\"approval\":{\"token_id\":");
                    reveal_strlit("}}");
                    assert forall|t2: Seq<char>, sp2: Seq<char>, ie2: Option<bool>| s@ != "{\"approval\":{\"token_id\":"@ + jstr(t2) + ",\"spender\":"@ + jstr(sp2) + ",\"include_expired\":"@ + jopt_bool(ie2) + "}}"@ by {
                        if s@ == "{\"approval\":{\"token_id\":"@ + jstr(t2) + ",\"spender\":"@ + jstr(sp2) + ",\"include_expired\":"@ + jopt_bool(ie2) + "}}"@ {
                            assert(s@.subrange(j1 as int, j1 + jstr(t2).len()) =~= jstr(t2));
                            assert(jstr_at(s@, j1 as int, t2));
                            assert(s@.subrange(j3 as int, j3 + jstr(sp2).len()) =~= jstr(sp2));
                            assert(jstr_at(s@, j3 as int, sp2));
                            assert(s@.subrange(j5 as int, j5 + jopt_bool(ie2).len())
                                =~= jopt_bool(ie2));
                            assert(opt_bool_at(s@, j5 as int, ie2));
                            assert(j6 == j5 + jopt_bool(ie2).len());
                            assert(j6 + "}}"@.len() <= s@.len());
                            assert(s@.subrange(j6 as int, j6 + "}}"@.len()) =~= "}}"@);
                            assert(false);
                        }
                    }
                }
                return None;
            },
        };
        proof {
            reveal_strlit("{\"approval\":{\"token_id\":");
            reveal_strlit("}}");
            assert forall|t2: Seq<char>, sp2: Seq<char>, ie2: Option<bool>| s@ == "{\"approval\":{\"token_id\":"@ + jstr(t2) + ",\"spender\":"@ + jstr(sp2) + ",\"include_expired\":"@ + jopt_bool(ie2) + "}}"@ implies
                tid@ == t2 && sp@ == sp2 && ie == ie2 && j7 == s@.len() by {
                assert(s@.subrange(j1 as int, j1 + jstr(t2).len()) =~= jstr(t2));
                assert(jstr_at(s@, j1 as int, t2));
                assert(s@.subrange(j3 as int, j3 + jstr(sp2).len()) =~= jstr(sp2));
                assert(jstr_at(s@, j3 as int, sp2));
                assert(s@.subrange(j5 as int, j5 + jopt_bool(ie2).len()) =~= jopt_bool(ie2));
                assert(opt_bool_at(s@, j5 as int, ie2));
            }
        }
        if j7 != s.len() {
            return None;
        }
        let token_id = chars_to_string(&tid);
        let spender = chars_to_string(&sp);
        proof {
            lemma_subrange_concat(s@, 0, j1 as int, j2 as int);
            lemma_subrange_concat(s@, 0, j2 as int, j3 as int);
            lemma_subrange_concat(s@, 0, j3 as int, j4 as int);
            lemma_subrange_concat(s@, 0, j4 as int, j5 as int);
            lemma_subrange_concat(s@, 0, j5 as int, j6 as int);
            lemma_subrange_concat(s@, 0, j6 as int, j7 as int);
            assert(s@ =~= s@.subrange(0, s@.len() as int));
        }
        return Some(Cw721QueryMsg::Approval { token_id, spender, include_expired: ie });
    }
    proof {
        reveal_strlit("{\"approval\":{\"token_id\":");
        assert forall|t2: Seq<char>, sp2: Seq<char>, ie2: Option<bool>| s@ != "{\"approval\":{\"token_id\":"@ + jstr(t2) + ",\"spender\":"@ + jstr(sp2) + ",\"include_expired\":"@ + jopt_bool(ie2) + "}}"@ by {
            if s@ == "{\"approval\":{\"token_id\":"@ + jstr(t2) + ",\"spender\":"@ + jstr(sp2) + ",\"include_expired\":"@ + jopt_bool(ie2) + "}}"@ {
                assert(s@.subrange(0, "{\"approval\":{\"token_id\":"@.len() as int) =~= "{\"approval\":{\"token_id\":"@);
                assert(false);
            }
        }
    }
    decode_query_mid(s)
}

/// Decodes canonical JSON text back into a query request.  Whenever it
/// returns a request, the input was exactly that request's canonical
/// encoding, so decoding inverts [`encode_query`] on everything it accepts.
/// For the variants that carry no pagination fields, the converse is stated
/// too: the canonical encoding of such a request is always accepted and
/// decodes to it.
#[verifier::rlimit(100)]
pub fn decode_query(s: &Vec<char>) -> (r: Option<Cw721QueryMsg>)
    ensures
        r matches Some(q) ==> s@ == spec_query_json(q),
        s@ == spec_query_json(Cw721QueryMsg::NumTokens {  }) ==> r == Some(
            Cw721QueryMsg::NumTokens {  },
        ),
        s@ == spec_query_json(Cw721QueryMsg::GetCollectionMetadata {  }) ==> r == Some(
            Cw721QueryMsg::GetCollectionMetadata {  },
        ),
        forall|tid: Seq<char>|
            s@ == "{\"nft_info\":{\"token_id\":"@ + jstr(tid) + "}}"@ ==> (r matches Some(q)
                && q matches (Cw721QueryMsg::NftInfo { token_id }) && token_id@ == tid),
        forall|tid: Seq<char>, ie: Option<bool>|
            s@ == "{\"owner_of\":{\"token_id\":"@ + jstr(tid) + ",\"include_expired\":"@
                + jopt_bool(ie) + "}}"@ ==> (r matches Some(q) && q matches (
            Cw721QueryMsg::OwnerOf { token_id, include_expired }) && token_id@ == tid
                && include_expired == ie),
        forall|tid: Seq<char>, ie: Option<bool>|
            s@ == "{\"approvals\":{\"token_id\":"@ + jstr(tid) + ",\"include_expired\":"@
                + jopt_bool(ie) + "}}"@ ==> (r matches Some(q) && q matches (
            Cw721QueryMsg::Approvals { token_id, include_expired }) && token_id@ == tid
                && include_expired == ie),
        forall|tid: Seq<char>, ie: Option<bool>|
            s@ == "{\"all_nft_info\":{\"token_id\":"@ + jstr(tid) + ",\"include_expired\":"@
                + jopt_bool(ie) + "}}"@ ==> (r matches Some(q) && q matches (
            Cw721QueryMsg::AllNftInfo { token_id, include_expired }) && token_id@ == tid
                && include_expired == ie),
        forall|tid: Seq<char>, sp: Seq<char>, ie: Option<bool>|
            s@ == "{\"approval\":{\"token_id\":"@ + jstr(tid) + ",\"spender\":"@ + jstr(sp)
                + ",\"include_expired\":"@ + jopt_bool(ie) + "}}"@ ==> (r matches Some(q)
                && q matches (Cw721QueryMsg::Approval { token_id, spender, include_expired })
                && token_id@ == tid && spender@ == sp && include_expired == ie),
{
    if let Some(j1) = parse_lit(s, 0, "{\"owner_of\":{\"token_id\":") {
        proof {
            reveal_strlit("{\"owner_of\":{\"token_id\":");
            reveal_strlit("{\"approval\":{\"token_id\":");
            assert forall|t2: Seq<char>, sp2: Seq<char>, ie2: Option<bool>| s@ != "{\"approval\":{\"token_id\":"@ + jstr(t2) + ",\"spender\":"@ + jstr(sp2) + ",\"include_expired\":"@ + jopt_bool(ie2) + "}}"@ by {
                if s@ == "{\"approval\":{\"token_id\":"@ + jstr(t2) + ",\"spender\":"@ + jstr(sp2) + ",\"include_expired\":"@ + jopt_bool(ie2) + "}}"@ {
                    assert(s@.subrange(0, j1 as int)[2] == s@[2]);
                    assert(s@[2] == ("{\"approval\":{\"token_id\":"@ + jstr(t2) + ",\"spender\":"@ + jstr(sp2) + ",\"include_expired\":"@ + jopt_bool(ie2) + "}}"@)[2]);
                    assert(false);
                }
            }
            reveal_strlit("{\"approvals\":{\"token_id\":");
            assert forall|t2: Seq<char>, ie2: Option<bool>| s@ != "{\"approvals\":{\"token_id\":"@ + jstr(t2) + ",\"include_expired\":"@ + jopt_bool(ie2) + "}}"@ by {
                if s@ == "{\"approvals\":{\"token_id\":"@ + jstr(t2) + ",\"include_expired\":"@ + jopt_bool(ie2) + "}}"@ {
                    assert(s@.subrange(0, j1 as int)[2] == s@[2]);
                    assert(s@[2] == ("{\"approvals\":{\"token_id\":"@ + jstr(t2) + ",\"include_expired\":"@ + jopt_bool(ie2) + "}}"@)[2]);
                    assert(false);
                }
            }
            reveal_strlit("{\"all_nft_info\":{\"token_id\":");
            assert forall|t2: Seq<char>, ie2: Option<bool>| s@ != "{\"all_nft_info\":{\"token_id\":"@ + jstr(t2) + ",\"include_expired\":"@ + jopt_bool(ie2) + "}}"@ by {
                if s@ == "{\"all_nft_info\":{\"token_id\":"@ + jstr(t2) + ",\"include_expired\":"@ + jopt_bool(ie2) + "}}"@ {
                    assert(s@.subrange(0, j1 as int)[2] == s@[2]);
                    assert(s@[2] == ("{\"all_nft_info\":{\"token_id\":"@ + jstr(t2) + ",\"include_expired\":"@ + jopt_bool(ie2) + "}}"@)[2]);
                    assert(false);
                }
            }
            reveal_strlit("{\"owner_of\":{\"token_id\":");
            reveal_strlit("{\"num_tokens\":{}}");
            reveal_strlit("{\"get_collection_metadata\":{}}");
            assert(s@.subrange(0, j1 as int)[2] == s@[2]);
            assert(s@ != "{\"num_tokens\":{}}"@);
            assert(s@ != "{\"get_collection_metadata\":{}}"@);
            reveal_strlit("{\"nft_info\":{\"token_id\":");
        assert forall|tid: Seq<char>| s@ != "{\"nft_info\":{\"token_id\":"@ + jstr(tid) + "}}"@ by {
                if s@ == "{\"nft_info\":{\"token_id\":"@ + jstr(tid) + "}}"@ {
                    assert(s@[2] == ("{\"nft_info\":{\"token_id\":"@ + jstr(tid) + "}}"@)[2]);
                    assert(false);
                }
            }
        }
        let (tid, j2) = match parse_jstring(s, j1) {
            Some(p) => p,
            None => {
                proof {
                    reveal_strlit("{\"owner_of\":{\"token_id\":");
                    assert forall|t2: Seq<char>, ie2: Option<bool>| s@ != "{\"owner_of\":{\"token_id\":"@ + jstr(t2) + ",\"include_expired\":"@ + jopt_bool(ie2) + "}}"@ by {
                        if s@ == "{\"owner_of\":{\"token_id\":"@ + jstr(t2) + ",\"include_expired\":"@ + jopt_bool(ie2) + "}}"@ {
                            assert(s@.subrange(j1 as int, j1 + jstr(t2).len()) =~= jstr(t2));
                            assert(jstr_at(s@, j1 as int, t2));
                            assert(false);
                        }
                    }
                }
                return None;
            },
        };
        let j3 = match parse_lit(s, j2, ",\"include_expired\":") {
            Some(j) => j,
            None => {
                proof {
                    reveal_strlit("{\"owner_of\":{\"token_id\":");
                    assert forall|t2: Seq<char>, ie2: Option<bool>| s@ != "{\"owner_of\":{\"token_id\":"@ + jstr(t2) + ",\"include_expired\":"@ + jopt_bool(ie2) + "}}"@ by {
                        if s@ == "{\"owner_of\":{\"token_id\":"@ + jstr(t2) + ",\"include_expired\":"@ + jopt_bool(ie2) + "}}"@ {
                            assert(s@.subrange(j1 as int, j1 + jstr(t2).len()) =~= jstr(t2));
                            assert(jstr_at(s@, j1 as int, t2));
                            assert(s@.subrange(j2 as int, j2 + ",\"include_expired\":"@.len()) =~= ",\"include_expired\":"@);
                            assert(false);
                        }
                    }
                }
                return None;
            },
        };
        let (ie, j4) = match parse_opt_bool(s, j3) {
            Some(p) => p,
            None => {
                proof {
                    reveal_strlit("{\"owner_of\":{\"token_id\":");
                    assert forall|t2: Seq<char>, ie2: Option<bool>| s@ != "{\"owner_of\":{\"token_id\":"@ + jstr(t2) + ",\"include_expired\":"@ + jopt_bool(ie2) + "}}"@ by {
                        if s@ == "{\"owner_of\":{\"token_id\":"@ + jstr(t2) + ",\"include_expired\":"@ + jopt_bool(ie2) + "}}"@ {
                            assert(s@.subrange(j1 as int, j1 + jstr(t2).len()) =~= jstr(t2));
                            assert(jstr_at(s@, j1 as int, t2));
                            assert(s@.subrange(j3 as int, j3 + jopt_bool(ie2).len())
                                =~= jopt_bool(ie2));
                            assert(opt_bool_at(s@, j3 as int, ie2));
                            assert(false);
                        }
                    }
                }
                return None;
            },
        };
        let j5 = match parse_lit(s, j4, "}}") {
            Some(j) => j,
            None => {
                proof {
                    reveal_strlit("{\"owner_of\":{\"token_id\":");
                    reveal_strlit("}}");
                    assert forall|t2: Seq<char>, ie2: Option<bool>| s@ != "{\"owner_of\":{\"token_id\":"@ + jstr(t2) + ",\"include_expired\":"@ + jopt_bool(ie2) + "}}"@ by {
                        if s@ == "{\"owner_of\":{\"token_id\":"@ + jstr(t2) + ",\"include_expired\":"@ + jopt_bool(ie2) + "}}"@ {
                            assert(s@.subrange(j1 as int, j1 + jstr(t2).len()) =~= jstr(t2));
                            assert(jstr_at(s@, j1 as int, t2));
                            assert(s@.subrange(j3 as int, j3 + jopt_bool(ie2).len())
                                =~= jopt_bool(ie2));
                            assert(opt_bool_at(s@, j3 as int, ie2));
                            assert(j2 == j1 + jstr(t2).len());
                            assert(j4 == j3 + jopt_bool(ie2).len());
                            assert(j4 + "}}"@.len() <= s@.len());
                            assert(s@.subrange(j4 as int, j4 + "}}"@.len()) =~= "}}"@);
                            assert(false);
                        }
                    }
                }
                return None;
            },
        };
        proof {
            reveal_strlit("{\"owner_of\":{\"token_id\":");
            reveal_strlit("}}");
            assert forall|t2: Seq<char>, ie2: Option<bool>| s@ == "{\"owner_of\":{\"token_id\":"@ + jstr(t2) + ",\"include_expired\":"@ + jopt_bool(ie2) + "}}"@ implies tid@ == t2
                && ie == ie2 && j5 == s@.len() by {
                assert(s@.subrange(j1 as int, j1 + jstr(t2).len()) =~= jstr(t2));
                assert(jstr_at(s@, j1 as int, t2));
                assert(s@.subrange(j3 as int, j3 + jopt_bool(ie2).len()) =~= jopt_bool(ie2));
                assert(opt_bool_at(s@, j3 as int, ie2));
            }
        }
        if j5 != s.len() {
            return None;
        }
        let token_id = chars_to_string(&tid);
        proof {
            lemma_subrange_concat(s@, 0, j1 as int, j2 as int);
            lemma_subrange_concat(s@, 0, j2 as int, j3 as int);
            lemma_subrange_concat(s@, 0, j3 as int, j4 as int);
            lemma_subrange_concat(s@, 0, j4 as int, j5 as int);
            assert(s@ =~= s@.subrange(0, s@.len() as int));
        }
        return Some(Cw721QueryMsg::OwnerOf { token_id, include_expired: ie });
    }
    proof {
        reveal_strlit("{\"owner_of\":{\"token_id\":");
        assert forall|t2: Seq<char>, ie2: Option<bool>| s@ != "{\"owner_of\":{\"token_id\":"@ + jstr(t2) + ",\"include_expired\":"@ + jopt_bool(ie2) + "}}"@ by {
            if s@ == "{\"owner_of\":{\"token_id\":"@ + jstr(t2) + ",\"include_expired\":"@ + jopt_bool(ie2) + "}}"@ {
                assert(s@.subrange(0, "{\"owner_of\":{\"token_id\":"@.len() as int) =~= "{\"owner_of\":{\"token_id\":"@);
                assert(false);
            }
        }
    }
    decode_query_approval(s)
}

} // verus!
