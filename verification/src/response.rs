//! The canonical JSON wire form of the typed response records, and their
//! decoders.  Each record implements [`JsonResponse`]: whenever its decoder
//! returns a value, the input was exactly that value's canonical encoding.

use vstd::prelude::*;

use crate::json::{
    chars_to_string, dec_digits, jopt_str, jstr, jstr_at, lemma_dec_digits_basics,
    lemma_subrange_concat, num_at, parse_jstring, parse_lit, parse_u64,
};
use crate::codec::{parse_opt_str, view_opt_str};
use crate::msg::{
    AllNftInfoResponse, Approval, ApprovalResponse, ApprovalsResponse, CollectionMetadata,
    Expiration, NftInfoResponse, NumTokensResponse, OperatorsResponse, OwnerOfResponse,
    TokensResponse,
};

verus! {

/// The canonical JSON encoding of an expiry.
pub open spec fn spec_expiration_json(e: Expiration) -> Seq<char> {
    match e {
        Expiration::AtHeight(h) => "{\"at_height\":"@ + dec_digits(h as nat) + "}"@,
        Expiration::AtTime(t) => "{\"at_time\":"@ + dec_digits(t as nat) + "}"@,
        Expiration::Never {  } => "{\"never\":{}}"@,
    }
}

/// The canonical JSON encoding of one approval record.
pub open spec fn spec_approval_json(a: Approval) -> Seq<char> {
    "{\"spender\":"@ + jstr(a.spender@) + ",\"expires\":"@ + spec_expiration_json(a.expires)
        + "}"@
}

/// The elements of an approval array, separated by commas.
pub open spec fn spec_join_approvals(l: Seq<Approval>) -> Seq<char>
    decreases l.len(),
{
    if l.len() == 0 {
        Seq::<char>::empty()
    } else if l.len() == 1 {
        spec_approval_json(l[0])
    } else {
        spec_approval_json(l[0]) + ","@ + spec_join_approvals(l.skip(1))
    }
}

/// The canonical JSON encoding of an approval array.
pub open spec fn spec_approval_list_json(l: Seq<Approval>) -> Seq<char> {
    "["@ + spec_join_approvals(l) + "]"@
}

/// The elements of a string array, separated by commas.
pub open spec fn spec_join_strings(l: Seq<String>) -> Seq<char>
    decreases l.len(),
{
    if l.len() == 0 {
        Seq::<char>::empty()
    } else if l.len() == 1 {
        jstr(l[0]@)
    } else {
        jstr(l[0]@) + ","@ + spec_join_strings(l.skip(1))
    }
}

/// The canonical JSON encoding of a string array.
pub open spec fn spec_string_list_json(l: Seq<String>) -> Seq<char> {
    "["@ + spec_join_strings(l) + "]"@
}

/// The canonical JSON encoding of an ownership reply.
pub open spec fn spec_owner_of_json(o: OwnerOfResponse) -> Seq<char> {
    "{\"owner\":"@ + jstr(o.owner@) + ",\"approvals\":"@ + spec_approval_list_json(o.approvals@)
        + "}"@
}

/// The canonical JSON encoding of a per-token metadata reply.
pub open spec fn spec_nft_info_json(o: NftInfoResponse) -> Seq<char> {
    "{\"token_uri\":"@ + jopt_str(view_opt_str(o.token_uri)) + ",\"extension\":"@ + jopt_str(
        view_opt_str(o.extension),
    ) + "}"@
}

/// Appending one element to a non-empty array appends a comma and that
/// element's encoding.
proof fn lemma_join_approvals_snoc(l: Seq<Approval>, a: Approval)
    requires
        l.len() >= 1,
    ensures
        spec_join_approvals(l.push(a)) == spec_join_approvals(l) + ","@ + spec_approval_json(a),
    decreases l.len(),
{
    if l.len() == 1 {
        assert(l.push(a).skip(1) =~= seq![a]);
        assert(spec_join_approvals(seq![a]) == spec_approval_json(a));
        assert(l.push(a)[0] == l[0]);
        assert(spec_join_approvals(l.push(a)) =~= spec_join_approvals(l) + ","@
            + spec_approval_json(a));
    } else {
        assert(l.push(a).skip(1) =~= l.skip(1).push(a));
        lemma_join_approvals_snoc(l.skip(1), a);
        assert(l.push(a)[0] == l[0]);
        assert(spec_join_approvals(l.push(a)) =~= spec_join_approvals(l) + ","@
            + spec_approval_json(a));
    }
}

/// The string-array counterpart of [`lemma_join_approvals_snoc`].
proof fn lemma_join_strings_snoc(l: Seq<String>, a: String)
    requires
        l.len() >= 1,
    ensures
        spec_join_strings(l.push(a)) == spec_join_strings(l) + ","@ + jstr(a@),
    decreases l.len(),
{
    if l.len() == 1 {
        assert(l.push(a).skip(1) =~= seq![a]);
        assert(spec_join_strings(seq![a]) == jstr(a@));
        assert(l.push(a)[0] == l[0]);
        assert(spec_join_strings(l.push(a)) =~= spec_join_strings(l) + ","@ + jstr(a@));
    } else {
        assert(l.push(a).skip(1) =~= l.skip(1).push(a));
        lemma_join_strings_snoc(l.skip(1), a);
        assert(l.push(a)[0] == l[0]);
        assert(spec_join_strings(l.push(a)) =~= spec_join_strings(l) + ","@ + jstr(a@));
    }
}

/// Reads an expiry record.
pub fn parse_expiration(s: &Vec<char>, i: usize) -> (r: Option<(Expiration, usize)>)
    ensures
        r matches Some(p) ==> i < p.1 <= s@.len() && s@.subrange(i as int, p.1 as int)
            == spec_expiration_json(p.0),
{
    if let Some(j1) = parse_lit(s, i, "{\"at_height\":") {
        let (h, j2) = match parse_u64(s, j1) { Some(p) => p, None => { return None; } };
        let j3 = match parse_lit(s, j2, "}") { Some(j) => j, None => { return None; } };
        proof {
            lemma_subrange_concat(s@, i as int, j1 as int, j2 as int);
            lemma_subrange_concat(s@, i as int, j2 as int, j3 as int);
            assert(dec_digits(h as nat).len() > 0);
            assert(s@.subrange(i as int, j3 as int).len() > 0);
        }
        return Some((Expiration::AtHeight(h), j3));
    }
    if let Some(j1) = parse_lit(s, i, "{\"at_time\":") {
        let (t, j2) = match parse_u64(s, j1) { Some(p) => p, None => { return None; } };
        let j3 = match parse_lit(s, j2, "}") { Some(j) => j, None => { return None; } };
        proof {
            lemma_subrange_concat(s@, i as int, j1 as int, j2 as int);
            lemma_subrange_concat(s@, i as int, j2 as int, j3 as int);
            assert(dec_digits(t as nat).len() > 0);
            assert(s@.subrange(i as int, j3 as int).len() > 0);
        }
        return Some((Expiration::AtTime(t), j3));
    }
    if let Some(j1) = parse_lit(s, i, "{\"never\":{}}") {
        proof {
            reveal_strlit("{\"never\":{}}");
        }
        return Some((Expiration::Never {  }, j1));
    }
    None
}

/// Reads one approval record.
pub fn parse_approval(s: &Vec<char>, i: usize) -> (r: Option<(Approval, usize)>)
    ensures
        r matches Some(p) ==> i < p.1 <= s@.len() && s@.subrange(i as int, p.1 as int)
            == spec_approval_json(p.0),
{
    let j1 = match parse_lit(s, i, "{\"spender\":") { Some(j) => j, None => { return None; } };
    let (sp, j2) = match parse_jstring(s, j1) { Some(p) => p, None => { return None; } };
    let j3 = match parse_lit(s, j2, ",\"expires\":") { Some(j) => j, None => { return None; } };
    let (ex, j4) = match parse_expiration(s, j3) { Some(p) => p, None => { return None; } };
    let j5 = match parse_lit(s, j4, "}") { Some(j) => j, None => { return None; } };
    let spender = chars_to_string(&sp);
    proof {
        lemma_subrange_concat(s@, i as int, j1 as int, j2 as int);
        lemma_subrange_concat(s@, i as int, j2 as int, j3 as int);
        lemma_subrange_concat(s@, i as int, j3 as int, j4 as int);
        lemma_subrange_concat(s@, i as int, j4 as int, j5 as int);
        assert(jstr(sp@).len() >= 2);
        assert(s@.subrange(i as int, j5 as int).len() > 0);
    }
    Some((Approval { spender, expires: ex }, j5))
}

/// Reads an array of approval records.
pub fn parse_approval_array(s: &Vec<char>, i: usize) -> (r: Option<(Vec<Approval>, usize)>)
    ensures
        r matches Some(p) ==> i <= p.1 <= s@.len() && s@.subrange(i as int, p.1 as int)
            == spec_approval_list_json(p.0@),
{
    let j0 = match parse_lit(s, i, "[") { Some(j) => j, None => { return None; } };
    if let Some(j1) = parse_lit(s, j0, "]") {
        let out: Vec<Approval> = Vec::new();
        proof {
            lemma_subrange_concat(s@, i as int, j0 as int, j1 as int);
            assert(s@.subrange(i as int, j1 as int) =~= spec_approval_list_json(out@));
        }
        return Some((out, j1));
    }
    let mut out: Vec<Approval> = Vec::new();
    let (a0, mut j) = match parse_approval(s, j0) { Some(p) => p, None => { return None; } };
    out.push(a0);
    proof {
        reveal_strlit("[");
        assert(out@ =~= seq![a0]);
        assert(spec_join_approvals(out@) == spec_approval_json(a0));
    }
    loop
        invariant
            i < j0 <= j <= s@.len(),
            out@.len() >= 1,
            s@.subrange(i as int, j0 as int) == "["@,
            s@.subrange(j0 as int, j as int) == spec_join_approvals(out@),
        decreases s@.len() - j,
    {
        if let Some(jc) = parse_lit(s, j, ",") {
            let (a, jn) = match parse_approval(s, jc) { Some(p) => p, None => { return None; } };
            proof {
                lemma_join_approvals_snoc(out@, a);
                lemma_subrange_concat(s@, j0 as int, j as int, jc as int);
                lemma_subrange_concat(s@, j0 as int, jc as int, jn as int);
                assert(s@.subrange(j0 as int, jn as int) =~= spec_join_approvals(out@.push(a)));
            }
            out.push(a);
            j = jn;
        } else {
            let je = match parse_lit(s, j, "]") { Some(p) => p, None => { return None; } };
            proof {
                lemma_subrange_concat(s@, i as int, j0 as int, j as int);
                lemma_subrange_concat(s@, i as int, j as int, je as int);
                assert(s@.subrange(i as int, je as int) =~= spec_approval_list_json(out@));
            }
            return Some((out, je));
        }
    }
}

/// Reads an array of JSON strings.  The empty array is always accepted
/// where it sits.
pub fn parse_string_array(s: &Vec<char>, i: usize) -> (r: Option<(Vec<String>, usize)>)
    ensures
        r matches Some(p) ==> i <= p.1 <= s@.len() && s@.subrange(i as int, p.1 as int)
            == spec_string_list_json(p.0@),
        i + "[]"@.len() <= s@.len() && s@.subrange(i as int, i + "[]"@.len()) == "[]"@ ==> (r
            matches Some(p) && p.0@.len() == 0 && p.1 == i + "[]"@.len()),
{
    let j0 = match parse_lit(s, i, "[") {
        Some(j) => j,
        None => {
            proof {
                reveal_strlit("[");
                reveal_strlit("[]");
                if i + "[]"@.len() <= s@.len() && s@.subrange(i as int, i + "[]"@.len())
                    == "[]"@ {
                    assert(s@.subrange(i as int, i + "[]"@.len())[0] == s@[i as int]);
                    assert(s@.subrange(i as int, i + "["@.len()) =~= "["@);
                    assert(false);
                }
            }
            return None;
        },
    };
    if let Some(j1) = parse_lit(s, j0, "]") {
        let out: Vec<String> = Vec::new();
        proof {
            reveal_strlit("[");
            reveal_strlit("]");
            reveal_strlit("[]");
            lemma_subrange_concat(s@, i as int, j0 as int, j1 as int);
            assert(s@.subrange(i as int, j1 as int) =~= spec_string_list_json(out@));
        }
        return Some((out, j1));
    }
    proof {
        reveal_strlit("[");
        reveal_strlit("]");
        reveal_strlit("[]");
        if i + "[]"@.len() <= s@.len() && s@.subrange(i as int, i + "[]"@.len()) == "[]"@ {
            assert(s@.subrange(i as int, i + "[]"@.len())[1] == s@[j0 as int]);
            assert(s@.subrange(j0 as int, j0 + "]"@.len()) =~= "]"@);
            assert(false);
        }
    }
    let mut out: Vec<String> = Vec::new();
    let (v0, mut j) = match parse_jstring(s, j0) { Some(p) => p, None => { return None; } };
    let s0 = chars_to_string(&v0);
    out.push(s0);
    proof {
        reveal_strlit("[");
        assert(out@ =~= seq![out@[0]]);
        assert(spec_join_strings(out@) == jstr(out@[0]@));
        assert(jstr(out@[0]@).len() >= 2);
    }
    loop
        invariant
            i < j0 < j <= s@.len(),
            out@.len() >= 1,
            s@.subrange(i as int, j0 as int) == "["@,
            s@.subrange(j0 as int, j as int) == spec_join_strings(out@),
            !(i + "[]"@.len() <= s@.len() && s@.subrange(i as int, i + "[]"@.len()) == "[]"@),
        decreases s@.len() - j,
    {
        if let Some(jc) = parse_lit(s, j, ",") {
            let (v, jn) = match parse_jstring(s, jc) { Some(p) => p, None => { return None; } };
            let sv = chars_to_string(&v);
            proof {
                lemma_join_strings_snoc(out@, sv);
                lemma_subrange_concat(s@, j0 as int, j as int, jc as int);
                lemma_subrange_concat(s@, j0 as int, jc as int, jn as int);
                assert(jstr(v@).len() >= 2);
                assert(s@.subrange(j0 as int, jn as int) =~= spec_join_strings(out@.push(sv)));
            }
            out.push(sv);
            j = jn;
        } else {
            let je = match parse_lit(s, j, "]") { Some(p) => p, None => { return None; } };
            proof {
                lemma_subrange_concat(s@, i as int, j0 as int, j as int);
                lemma_subrange_concat(s@, i as int, j as int, je as int);
                assert(s@.subrange(i as int, je as int) =~= spec_string_list_json(out@));
            }
            return Some((out, je));
        }
    }
}

/// Reads an ownership reply record.
pub fn parse_owner_of(s: &Vec<char>, i: usize) -> (r: Option<(OwnerOfResponse, usize)>)
    ensures
        r matches Some(p) ==> i <= p.1 <= s@.len() && s@.subrange(i as int, p.1 as int)
            == spec_owner_of_json(p.0),
{
    let j1 = match parse_lit(s, i, "{\"owner\":") { Some(j) => j, None => { return None; } };
    let (ow, j2) = match parse_jstring(s, j1) { Some(p) => p, None => { return None; } };
    let j3 = match parse_lit(s, j2, ",\"approvals\":") { Some(j) => j, None => { return None; } };
    let (aps, j4) = match parse_approval_array(s, j3) { Some(p) => p, None => { return None; } };
    let j5 = match parse_lit(s, j4, "}") { Some(j) => j, None => { return None; } };
    let owner = chars_to_string(&ow);
    proof {
        lemma_subrange_concat(s@, i as int, j1 as int, j2 as int);
        lemma_subrange_concat(s@, i as int, j2 as int, j3 as int);
        lemma_subrange_concat(s@, i as int, j3 as int, j4 as int);
        lemma_subrange_concat(s@, i as int, j4 as int, j5 as int);
    }
    Some((OwnerOfResponse { owner, approvals: aps }, j5))
}

/// Reads a per-token metadata record.
pub fn parse_nft_info(s: &Vec<char>, i: usize) -> (r: Option<(NftInfoResponse, usize)>)
    ensures
        r matches Some(p) ==> i <= p.1 <= s@.len() && s@.subrange(i as int, p.1 as int)
            == spec_nft_info_json(p.0),
{
    let j1 = match parse_lit(s, i, "{\"token_uri\":") { Some(j) => j, None => { return None; } };
    let (tu, j2) = match parse_opt_str(s, j1) { Some(p) => p, None => { return None; } };
    let j3 = match parse_lit(s, j2, ",\"extension\":") { Some(j) => j, None => { return None; } };
    let (ex, j4) = match parse_opt_str(s, j3) { Some(p) => p, None => { return None; } };
    let j5 = match parse_lit(s, j4, "}") { Some(j) => j, None => { return None; } };
    proof {
        lemma_subrange_concat(s@, i as int, j1 as int, j2 as int);
        lemma_subrange_concat(s@, i as int, j2 as int, j3 as int);
        lemma_subrange_concat(s@, i as int, j3 as int, j4 as int);
        lemma_subrange_concat(s@, i as int, j4 as int, j5 as int);
    }
    Some((NftInfoResponse { token_uri: tu, extension: ex }, j5))
}

/// A typed response record with a canonical JSON form.  Decoding is exact:
/// whenever `decode_chars` returns a record, the input was that record's
/// canonical encoding, character for character.  Records whose decoder is
/// proved complete (`decode_complete`) also accept every canonical
/// encoding.
pub trait JsonResponse: Sized {
    /// The record's canonical JSON encoding.
    spec fn to_json(&self) -> Seq<char>;

    /// Whether this record's decoder is proved complete: every canonical
    /// encoding is accepted, not merely decoded exactly when accepted.
    spec fn decode_complete() -> bool;

    /// Decodes a full reply; accepts exactly the canonical form.
    fn decode_chars(s: &Vec<char>) -> (r: Option<Self>)
        ensures
            r matches Some(v) ==> s@ == v.to_json(),
            forall|v: Self|
                #![trigger v.to_json()]
                Self::decode_complete() && s@ == v.to_json() ==> r is Some,
    ;
}

impl JsonResponse for OwnerOfResponse {
    open spec fn decode_complete() -> bool {
        false
    }

    open spec fn to_json(&self) -> Seq<char> {
        spec_owner_of_json(*self)
    }

    fn decode_chars(s: &Vec<char>) -> (r: Option<Self>) {
        let (v, j) = match parse_owner_of(s, 0) { Some(p) => p, None => { return None; } };
        if j != s.len() {
            return None;
        }
        proof {
            assert(s@ =~= s@.subrange(0, s@.len() as int));
        }
        Some(v)
    }
}

impl JsonResponse for ApprovalResponse {
    open spec fn decode_complete() -> bool {
        false
    }

    open spec fn to_json(&self) -> Seq<char> {
        "{\"approval\":"@ + spec_approval_json(self.approval) + "}"@
    }

    fn decode_chars(s: &Vec<char>) -> (r: Option<Self>) {
        let j1 = match parse_lit(s, 0, "{\"approval\":") { Some(j) => j, None => { return None; } };
        let (a, j2) = match parse_approval(s, j1) { Some(p) => p, None => { return None; } };
        let j3 = match parse_lit(s, j2, "}") { Some(j) => j, None => { return None; } };
        if j3 != s.len() {
            return None;
        }
        proof {
            lemma_subrange_concat(s@, 0, j1 as int, j2 as int);
            lemma_subrange_concat(s@, 0, j2 as int, j3 as int);
            assert(s@ =~= s@.subrange(0, s@.len() as int));
        }
        Some(ApprovalResponse { approval: a })
    }
}

impl JsonResponse for ApprovalsResponse {
    open spec fn decode_complete() -> bool {
        false
    }

    open spec fn to_json(&self) -> Seq<char> {
        "{\"approvals\":"@ + spec_approval_list_json(self.approvals@) + "}"@
    }

    fn decode_chars(s: &Vec<char>) -> (r: Option<Self>) {
        let j1 = match parse_lit(s, 0, "{\"approvals\":") { Some(j) => j, None => { return None; } };
        let (aps, j2) = match parse_approval_array(s, j1) { Some(p) => p, None => { return None; } };
        let j3 = match parse_lit(s, j2, "}") { Some(j) => j, None => { return None; } };
        if j3 != s.len() {
            return None;
        }
        proof {
            lemma_subrange_concat(s@, 0, j1 as int, j2 as int);
            lemma_subrange_concat(s@, 0, j2 as int, j3 as int);
            assert(s@ =~= s@.subrange(0, s@.len() as int));
        }
        Some(ApprovalsResponse { approvals: aps })
    }
}

impl JsonResponse for OperatorsResponse {
    open spec fn decode_complete() -> bool {
        false
    }

    open spec fn to_json(&self) -> Seq<char> {
        "{\"operators\":"@ + spec_approval_list_json(self.operators@) + "}"@
    }

    fn decode_chars(s: &Vec<char>) -> (r: Option<Self>) {
        let j1 = match parse_lit(s, 0, "{\"operators\":") { Some(j) => j, None => { return None; } };
        let (ops, j2) = match parse_approval_array(s, j1) { Some(p) => p, None => { return None; } };
        let j3 = match parse_lit(s, j2, "}") { Some(j) => j, None => { return None; } };
        if j3 != s.len() {
            return None;
        }
        proof {
            lemma_subrange_concat(s@, 0, j1 as int, j2 as int);
            lemma_subrange_concat(s@, 0, j2 as int, j3 as int);
            assert(s@ =~= s@.subrange(0, s@.len() as int));
        }
        Some(OperatorsResponse { operators: ops })
    }
}

/// Decodes a full token-count reply.  Exact in both directions: whenever
/// it returns a record, the input was that record's canonical encoding,
/// and every canonical encoding is accepted and returns the encoded count.
pub fn decode_num_tokens(s: &Vec<char>) -> (r: Option<NumTokensResponse>)
    ensures
        r matches Some(v) ==> s@ == v.to_json(),
        forall|m: u64|
            #![trigger dec_digits(m as nat)]
            s@ == "{\"count\":"@ + dec_digits(m as nat) + "}"@ ==> (r matches Some(v) && v.count == m),
{
    let j1 = match parse_lit(s, 0, "{\"count\":") {
        Some(j) => j,
        None => {
            proof {
                reveal_strlit("{\"count\":");
                reveal_strlit("}");
                assert forall|m: u64| #![trigger dec_digits(m as nat)]
                    s@ != "{\"count\":"@ + dec_digits(m as nat) + "}"@ by {
                    if s@ == "{\"count\":"@ + dec_digits(m as nat) + "}"@ {
                        assert(s@.subrange(0, "{\"count\":"@.len() as int) =~= "{\"count\":"@);
                        assert(false);
                    }
                }
            }
            return None;
        },
    };
    let (n, j2) = match parse_u64(s, j1) {
        Some(p) => p,
        None => {
            proof {
                reveal_strlit("{\"count\":");
                reveal_strlit("}");
                assert forall|m: u64| #![trigger dec_digits(m as nat)]
                    s@ != "{\"count\":"@ + dec_digits(m as nat) + "}"@ by {
                    if s@ == "{\"count\":"@ + dec_digits(m as nat) + "}"@ {
                        lemma_dec_digits_basics(m as nat);
                        assert(s@.subrange(j1 as int, j1 + dec_digits(m as nat).len())
                            =~= dec_digits(m as nat));
                        assert(s@[j1 + dec_digits(m as nat).len()] == '}');
                        assert(num_at(s@, j1 as int, m));
                        assert(false);
                    }
                }
            }
            return None;
        },
    };
    let j3 = match parse_lit(s, j2, "}") {
        Some(j) => j,
        None => {
            proof {
                reveal_strlit("{\"count\":");
                reveal_strlit("}");
                assert forall|m: u64| #![trigger dec_digits(m as nat)]
                    s@ != "{\"count\":"@ + dec_digits(m as nat) + "}"@ by {
                    if s@ == "{\"count\":"@ + dec_digits(m as nat) + "}"@ {
                        lemma_dec_digits_basics(m as nat);
                        assert(s@.subrange(j1 as int, j1 + dec_digits(m as nat).len())
                            =~= dec_digits(m as nat));
                        assert(s@[j1 + dec_digits(m as nat).len()] == '}');
                        assert(num_at(s@, j1 as int, m));
                        assert(s@.subrange(j2 as int, j2 + "}"@.len()) =~= "}"@);
                        assert(false);
                    }
                }
            }
            return None;
        },
    };
    proof {
        reveal_strlit("{\"count\":");
        reveal_strlit("}");
        assert forall|m: u64| #![trigger dec_digits(m as nat)]
            s@ == "{\"count\":"@ + dec_digits(m as nat) + "}"@ implies n == m && j3 == s@.len() by {
            lemma_dec_digits_basics(m as nat);
            assert(s@.subrange(j1 as int, j1 + dec_digits(m as nat).len())
                =~= dec_digits(m as nat));
            assert(s@[j1 + dec_digits(m as nat).len()] == '}');
            assert(num_at(s@, j1 as int, m));
        }
    }
    if j3 != s.len() {
        return None;
    }
    proof {
        lemma_subrange_concat(s@, 0, j1 as int, j2 as int);
        lemma_subrange_concat(s@, 0, j2 as int, j3 as int);
        assert(s@ =~= s@.subrange(0, s@.len() as int));
    }
    Some(NumTokensResponse { count: n })
}

impl JsonResponse for NumTokensResponse {
    open spec fn to_json(&self) -> Seq<char> {
        "{\"count\":"@ + dec_digits(self.count as nat) + "}"@
    }

    open spec fn decode_complete() -> bool {
        true
    }

    fn decode_chars(s: &Vec<char>) -> (r: Option<Self>) {
        let d = decode_num_tokens(s);
        proof {
            assert forall|v: Self|
                #![trigger v.to_json()]
                Self::decode_complete() && s@ == v.to_json() implies d is Some by {
                assert(s@ == "{\"count\":"@ + dec_digits(v.count as nat) + "}"@);
            }
        }
        d
    }
}

/// Decodes a full collection-metadata reply.  Exact in both directions:
/// whenever it returns a record, the input was that record's canonical
/// encoding, and every canonical encoding is accepted and returns the
/// encoded record.
#[verifier::rlimit(100)]
pub fn decode_collection_metadata(s: &Vec<char>) -> (r: Option<CollectionMetadata>)
    ensures
        r matches Some(v) ==> s@ == v.to_json(),
        forall|nm2: Seq<char>, sy2: Seq<char>, exv: Option<Seq<char>>|
            s@ == "{\"name\":"@ + jstr(nm2) + ",\"symbol\":"@ + jstr(sy2) + ",\"extension\":"@
                + jopt_str(exv) + "}"@ ==> (r matches Some(v) && v.name@ == nm2
                && v.symbol@ == sy2 && view_opt_str(v.extension) == exv),
{
    let j1 = match parse_lit(s, 0, "{\"name\":") {
        Some(j) => j,
        None => {
            proof {
                reveal_strlit("{\"name\":");
                reveal_strlit("null");
                assert forall|nm2: Seq<char>, sy2: Seq<char>, exv: Option<Seq<char>>|
                    s@ != "{\"name\":"@ + jstr(nm2) + ",\"symbol\":"@ + jstr(sy2) + ",\"extension\":"@ + jopt_str(exv) + "}"@ by {
                    if s@ == "{\"name\":"@ + jstr(nm2) + ",\"symbol\":"@ + jstr(sy2) + ",\"extension\":"@ + jopt_str(exv) + "}"@ {
                        assert(s@.subrange(0, "{\"name\":"@.len() as int) =~= "{\"name\":"@);
                        assert(false);
                    }
                }
            }
            return None;
        },
    };
    let (nm, j2) = match parse_jstring(s, j1) {
        Some(p) => p,
        None => {
            proof {
                reveal_strlit("{\"name\":");
                reveal_strlit("null");
                assert forall|nm2: Seq<char>, sy2: Seq<char>, exv: Option<Seq<char>>|
                    s@ != "{\"name\":"@ + jstr(nm2) + ",\"symbol\":"@ + jstr(sy2) + ",\"extension\":"@ + jopt_str(exv) + "}"@ by {
                    if s@ == "{\"name\":"@ + jstr(nm2) + ",\"symbol\":"@ + jstr(sy2) + ",\"extension\":"@ + jopt_str(exv) + "}"@ {
                        assert(s@.subrange(j1 as int, j1 + jstr(nm2).len()) =~= jstr(nm2));
                        assert(jstr_at(s@, j1 as int, nm2));
                        assert(false);
                    }
                }
            }
            return None;
        },
    };
    let j3 = match parse_lit(s, j2, ",\"symbol\":") {
        Some(j) => j,
        None => {
            proof {
                reveal_strlit("{\"name\":");
                reveal_strlit("null");
                assert forall|nm2: Seq<char>, sy2: Seq<char>, exv: Option<Seq<char>>|
                    s@ != "{\"name\":"@ + jstr(nm2) + ",\"symbol\":"@ + jstr(sy2) + ",\"extension\":"@ + jopt_str(exv) + "}"@ by {
                    if s@ == "{\"name\":"@ + jstr(nm2) + ",\"symbol\":"@ + jstr(sy2) + ",\"extension\":"@ + jopt_str(exv) + "}"@ {
                        assert(s@.subrange(j1 as int, j1 + jstr(nm2).len()) =~= jstr(nm2));
                        assert(jstr_at(s@, j1 as int, nm2));
                        assert(s@.subrange(j2 as int, j2 + ",\"symbol\":"@.len()) =~= ",\"symbol\":"@);
                        assert(false);
                    }
                }
            }
            return None;
        },
    };
    let (sy, j4) = match parse_jstring(s, j3) {
        Some(p) => p,
        None => {
            proof {
                reveal_strlit("{\"name\":");
                reveal_strlit("null");
                assert forall|nm2: Seq<char>, sy2: Seq<char>, exv: Option<Seq<char>>|
                    s@ != "{\"name\":"@ + jstr(nm2) + ",\"symbol\":"@ + jstr(sy2) + ",\"extension\":"@ + jopt_str(exv) + "}"@ by {
                    if s@ == "{\"name\":"@ + jstr(nm2) + ",\"symbol\":"@ + jstr(sy2) + ",\"extension\":"@ + jopt_str(exv) + "}"@ {
                        assert(s@.subrange(j1 as int, j1 + jstr(nm2).len()) =~= jstr(nm2));
                        assert(jstr_at(s@, j1 as int, nm2));
                        assert(s@.subrange(j3 as int, j3 + jstr(sy2).len()) =~= jstr(sy2));
                        assert(jstr_at(s@, j3 as int, sy2));
                        assert(false);
                    }
                }
            }
            return None;
        },
    };
    let j5 = match parse_lit(s, j4, ",\"extension\":") {
        Some(j) => j,
        None => {
            proof {
                reveal_strlit("{\"name\":");
                reveal_strlit("null");
                assert forall|nm2: Seq<char>, sy2: Seq<char>, exv: Option<Seq<char>>|
                    s@ != "{\"name\":"@ + jstr(nm2) + ",\"symbol\":"@ + jstr(sy2) + ",\"extension\":"@ + jopt_str(exv) + "}"@ by {
                    if s@ == "{\"name\":"@ + jstr(nm2) + ",\"symbol\":"@ + jstr(sy2) + ",\"extension\":"@ + jopt_str(exv) + "}"@ {
                        assert(s@.subrange(j1 as int, j1 + jstr(nm2).len()) =~= jstr(nm2));
                        assert(jstr_at(s@, j1 as int, nm2));
                        assert(s@.subrange(j3 as int, j3 + jstr(sy2).len()) =~= jstr(sy2));
                        assert(jstr_at(s@, j3 as int, sy2));
                        assert(s@.subrange(j4 as int, j4 + ",\"extension\":"@.len()) =~= ",\"extension\":"@);
                        assert(false);
                    }
                }
            }
            return None;
        },
    };
    let (ex, j6) = match parse_opt_str(s, j5) {
        Some(p) => p,
        None => {
            proof {
                reveal_strlit("{\"name\":");
                reveal_strlit("null");
                assert forall|nm2: Seq<char>, sy2: Seq<char>, exv: Option<Seq<char>>|
                    s@ != "{\"name\":"@ + jstr(nm2) + ",\"symbol\":"@ + jstr(sy2) + ",\"extension\":"@ + jopt_str(exv) + "}"@ by {
                    if s@ == "{\"name\":"@ + jstr(nm2) + ",\"symbol\":"@ + jstr(sy2) + ",\"extension\":"@ + jopt_str(exv) + "}"@ {
                        assert(s@.subrange(j1 as int, j1 + jstr(nm2).len()) =~= jstr(nm2));
                        assert(jstr_at(s@, j1 as int, nm2));
                        assert(s@.subrange(j3 as int, j3 + jstr(sy2).len()) =~= jstr(sy2));
                        assert(jstr_at(s@, j3 as int, sy2));
                        match exv {
                            Option::None => {
                                assert(s@.subrange(j5 as int, j5 + "null"@.len()) =~= "null"@);
                            },
                            Option::Some(tx) => {
                                assert(s@.subrange(j5 as int, j5 + jstr(tx).len()) =~= jstr(tx));
                                assert(jstr_at(s@, j5 as int, tx));
                            },
                        }
                        assert(false);
                    }
                }
            }
            return None;
        },
    };
    let j7 = match parse_lit(s, j6, "}") {
        Some(j) => j,
        None => {
            proof {
                reveal_strlit("{\"name\":");
                reveal_strlit("null");
                assert forall|nm2: Seq<char>, sy2: Seq<char>, exv: Option<Seq<char>>|
                    s@ != "{\"name\":"@ + jstr(nm2) + ",\"symbol\":"@ + jstr(sy2) + ",\"extension\":"@ + jopt_str(exv) + "}"@ by {
                    if s@ == "{\"name\":"@ + jstr(nm2) + ",\"symbol\":"@ + jstr(sy2) + ",\"extension\":"@ + jopt_str(exv) + "}"@ {
                        assert(s@.subrange(j1 as int, j1 + jstr(nm2).len()) =~= jstr(nm2));
                        assert(jstr_at(s@, j1 as int, nm2));
                        assert(s@.subrange(j3 as int, j3 + jstr(sy2).len()) =~= jstr(sy2));
                        assert(jstr_at(s@, j3 as int, sy2));
                        match exv {
                            Option::None => {
                                assert(s@.subrange(j5 as int, j5 + "null"@.len()) =~= "null"@);
                            },
                            Option::Some(tx) => {
                                assert(s@.subrange(j5 as int, j5 + jstr(tx).len()) =~= jstr(tx));
                                assert(jstr_at(s@, j5 as int, tx));
                            },
                        }
                        assert(j6 == j5 + jopt_str(exv).len());
                        assert(s@.subrange(j6 as int, j6 + "}"@.len()) =~= "}"@);
                        assert(false);
                    }
                }
            }
            return None;
        },
    };
    proof {
        reveal_strlit("{\"name\":");
        reveal_strlit("null");
        assert forall|nm2: Seq<char>, sy2: Seq<char>, exv: Option<Seq<char>>|
            s@ == "{\"name\":"@ + jstr(nm2) + ",\"symbol\":"@ + jstr(sy2) + ",\"extension\":"@ + jopt_str(exv) + "}"@ implies nm@ == nm2 && sy@ == sy2 && view_opt_str(ex) == exv
            && j7 == s@.len() by {
            assert(s@.subrange(j1 as int, j1 + jstr(nm2).len()) =~= jstr(nm2));
            assert(jstr_at(s@, j1 as int, nm2));
            assert(s@.subrange(j3 as int, j3 + jstr(sy2).len()) =~= jstr(sy2));
            assert(jstr_at(s@, j3 as int, sy2));
            match exv {
                Option::None => {
                    assert(s@.subrange(j5 as int, j5 + "null"@.len()) =~= "null"@);
                },
                Option::Some(tx) => {
                    assert(s@.subrange(j5 as int, j5 + jstr(tx).len()) =~= jstr(tx));
                    assert(jstr_at(s@, j5 as int, tx));
                },
            }
            assert(j6 == j5 + jopt_str(exv).len());
        }
    }
    if j7 != s.len() {
        return None;
    }
    let name = chars_to_string(&nm);
    let symbol = chars_to_string(&sy);
    proof {
        lemma_subrange_concat(s@, 0, j1 as int, j2 as int);
        lemma_subrange_concat(s@, 0, j2 as int, j3 as int);
        lemma_subrange_concat(s@, 0, j3 as int, j4 as int);
        lemma_subrange_concat(s@, 0, j4 as int, j5 as int);
        lemma_subrange_concat(s@, 0, j5 as int, j6 as int);
        lemma_subrange_concat(s@, 0, j6 as int, j7 as int);
        assert(s@ =~= s@.subrange(0, s@.len() as int));
    }
    Some(CollectionMetadata { name, symbol, extension: ex })
}

impl JsonResponse for CollectionMetadata {
    open spec fn to_json(&self) -> Seq<char> {
        "{\"name\":"@ + jstr(self.name@) + ",\"symbol\":"@ + jstr(self.symbol@) + ",\"extension\":"@
            + jopt_str(view_opt_str(self.extension)) + "}"@
    }

    open spec fn decode_complete() -> bool {
        true
    }

    fn decode_chars(s: &Vec<char>) -> (r: Option<Self>) {
        let d = decode_collection_metadata(s);
        proof {
            assert forall|v: Self|
                #![trigger v.to_json()]
                Self::decode_complete() && s@ == v.to_json() implies d is Some by {
                assert(s@ == "{\"name\":"@ + jstr(v.name@) + ",\"symbol\":"@ + jstr(v.symbol@)
                    + ",\"extension\":"@ + jopt_str(view_opt_str(v.extension)) + "}"@);
            }
        }
        d
    }
}

impl JsonResponse for NftInfoResponse {
    open spec fn decode_complete() -> bool {
        false
    }

    open spec fn to_json(&self) -> Seq<char> {
        spec_nft_info_json(*self)
    }

    fn decode_chars(s: &Vec<char>) -> (r: Option<Self>) {
        let (v, j) = match parse_nft_info(s, 0) { Some(p) => p, None => { return None; } };
        if j != s.len() {
            return None;
        }
        proof {
            assert(s@ =~= s@.subrange(0, s@.len() as int));
        }
        Some(v)
    }
}

impl JsonResponse for AllNftInfoResponse {
    open spec fn decode_complete() -> bool {
        false
    }

    open spec fn to_json(&self) -> Seq<char> {
        "{\"access\":"@ + spec_owner_of_json(self.access) + ",\"info\":"@ + spec_nft_info_json(
            self.info,
        ) + "}"@
    }

    fn decode_chars(s: &Vec<char>) -> (r: Option<Self>) {
        let j1 = match parse_lit(s, 0, "{\"access\":") { Some(j) => j, None => { return None; } };
        let (acc, j2) = match parse_owner_of(s, j1) { Some(p) => p, None => { return None; } };
        let j3 = match parse_lit(s, j2, ",\"info\":") { Some(j) => j, None => { return None; } };
        let (inf, j4) = match parse_nft_info(s, j3) { Some(p) => p, None => { return None; } };
        let j5 = match parse_lit(s, j4, "}") { Some(j) => j, None => { return None; } };
        if j5 != s.len() {
            return None;
        }
        proof {
            lemma_subrange_concat(s@, 0, j1 as int, j2 as int);
            lemma_subrange_concat(s@, 0, j2 as int, j3 as int);
            lemma_subrange_concat(s@, 0, j3 as int, j4 as int);
            lemma_subrange_concat(s@, 0, j4 as int, j5 as int);
            assert(s@ =~= s@.subrange(0, s@.len() as int));
        }
        Some(AllNftInfoResponse { access: acc, info: inf })
    }
}

/// Decodes a full token-enumeration reply.  Exact on acceptance, and the
/// canonical empty enumeration is always accepted.
pub fn decode_tokens_response(s: &Vec<char>) -> (r: Option<TokensResponse>)
    ensures
        r matches Some(v) ==> s@ == v.to_json(),
        s@ == "{\"tokens\":[]}"@ ==> (r matches Some(v) && v.tokens@.len() == 0),
{
    let j1 = match parse_lit(s, 0, "{\"tokens\":") {
        Some(j) => j,
        None => {
            proof {
                reveal_strlit("{\"tokens\":");
                reveal_strlit("{\"tokens\":[]}");
                if s@ == "{\"tokens\":[]}"@ {
                    assert(s@.subrange(0, "{\"tokens\":"@.len() as int) =~= "{\"tokens\":"@);
                    assert(false);
                }
            }
            return None;
        },
    };
    let (ts, j2) = match parse_string_array(s, j1) {
        Some(p) => p,
        None => {
            proof {
                reveal_strlit("{\"tokens\":");
                reveal_strlit("{\"tokens\":[]}");
                reveal_strlit("[]");
                if s@ == "{\"tokens\":[]}"@ {
                    assert(s@.subrange(j1 as int, j1 + "[]"@.len()) =~= "[]"@);
                    assert(false);
                }
            }
            return None;
        },
    };
    let j3 = match parse_lit(s, j2, "}") {
        Some(j) => j,
        None => {
            proof {
                reveal_strlit("{\"tokens\":");
                reveal_strlit("{\"tokens\":[]}");
                reveal_strlit("[]");
                reveal_strlit("}");
                if s@ == "{\"tokens\":[]}"@ {
                    assert(s@.subrange(j1 as int, j1 + "[]"@.len()) =~= "[]"@);
                    assert(s@.subrange(j2 as int, j2 + "}"@.len()) =~= "}"@);
                    assert(false);
                }
            }
            return None;
        },
    };
    proof {
        reveal_strlit("{\"tokens\":");
        reveal_strlit("{\"tokens\":[]}");
        reveal_strlit("[]");
        reveal_strlit("}");
        if s@ == "{\"tokens\":[]}"@ {
            assert(s@.subrange(j1 as int, j1 + "[]"@.len()) =~= "[]"@);
            assert(j3 == s@.len());
        }
    }
    if j3 != s.len() {
        return None;
    }
    proof {
        lemma_subrange_concat(s@, 0, j1 as int, j2 as int);
        lemma_subrange_concat(s@, 0, j2 as int, j3 as int);
        assert(s@ =~= s@.subrange(0, s@.len() as int));
    }
    Some(TokensResponse { tokens: ts })
}

impl JsonResponse for TokensResponse {
    open spec fn decode_complete() -> bool {
        false
    }

    open spec fn to_json(&self) -> Seq<char> {
        "{\"tokens\":"@ + spec_string_list_json(self.tokens@) + "}"@
    }

    fn decode_chars(s: &Vec<char>) -> (r: Option<Self>) {
        decode_tokens_response(s)
    }
}

} // verus!
