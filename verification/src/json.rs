//! Canonical JSON text: specification of the encoding and the executable
//! building blocks shared by the message and response codecs.
//!
//! The encoding is canonical: no whitespace, fields in declaration order,
//! strings escaped character by character, numbers in decimal without
//! leading zeroes.  Every exec function here carries a contract that ties it
//! to the spec-level encoding functions.

use vstd::prelude::*;

verus! {

// ---------------------------------------------------------------------------
// Specification of the encoding
// ---------------------------------------------------------------------------

/// The escape sequence a single character contributes to a JSON string.
pub open spec fn esc_char(c: char) -> Seq<char> {
    if c == '"' {
        seq!['\\', '"']
    } else if c == '\\' {
        seq!['\\', '\\']
    } else if c == '\n' {
        seq!['\\', 'n']
    } else if c == '\r' {
        seq!['\\', 'r']
    } else if c == '\t' {
        seq!['\\', 't']
    } else {
        seq![c]
    }
}

/// The body of a JSON string: each character replaced by its escape sequence.
pub open spec fn escape_seq(s: Seq<char>) -> Seq<char>
    decreases s.len(),
{
    if s.len() == 0 {
        Seq::<char>::empty()
    } else {
        esc_char(s[0]) + escape_seq(s.skip(1))
    }
}

/// A JSON string: the escaped body between two quotes.
pub open spec fn jstr(s: Seq<char>) -> Seq<char> {
    seq!['"'] + escape_seq(s) + seq!['"']
}

/// The decimal digit character for a value below ten.
pub open spec fn digit_char(d: nat) -> char {
    if d == 0 { '0' }
    else if d == 1 { '1' }
    else if d == 2 { '2' }
    else if d == 3 { '3' }
    else if d == 4 { '4' }
    else if d == 5 { '5' }
    else if d == 6 { '6' }
    else if d == 7 { '7' }
    else if d == 8 { '8' }
    else { '9' }
}

/// A JSON number: the decimal digits of `n`, most significant first.
pub open spec fn dec_digits(n: nat) -> Seq<char>
    decreases n,
{
    if n < 10 {
        seq![digit_char(n)]
    } else {
        dec_digits(n / 10) + seq![digit_char(n % 10)]
    }
}

/// A JSON boolean literal.
pub open spec fn jbool(b: bool) -> Seq<char> {
    if b { "true"@ } else { "false"@ }
}

/// An optional boolean: `null` where absent.
pub open spec fn jopt_bool(o: Option<bool>) -> Seq<char> {
    match o {
        Option::None => "null"@,
        Option::Some(b) => jbool(b),
    }
}

/// An optional string: `null` where absent.
pub open spec fn jopt_str(o: Option<Seq<char>>) -> Seq<char> {
    match o {
        Option::None => "null"@,
        Option::Some(s) => jstr(s),
    }
}

/// An optional number: `null` where absent.
pub open spec fn jopt_num(o: Option<nat>) -> Seq<char> {
    match o {
        Option::None => "null"@,
        Option::Some(n) => dec_digits(n),
    }
}

// ---------------------------------------------------------------------------
// Lemmas about the encoding
// ---------------------------------------------------------------------------

/// Extending the input of `escape_seq` by one character appends that
/// character's escape sequence.
pub proof fn lemma_escape_snoc(s: Seq<char>, c: char)
    ensures
        escape_seq(s.push(c)) == escape_seq(s) + esc_char(c),
    decreases s.len(),
{
    assert(escape_seq(Seq::<char>::empty()) == Seq::<char>::empty());
    if s.len() == 0 {
        assert(s.push(c).skip(1) =~= Seq::<char>::empty());
        assert(s.push(c)[0] == c);
        assert(escape_seq(s.push(c)) == esc_char(c) + escape_seq(s.push(c).skip(1)));
        assert(escape_seq(s.push(c)) =~= escape_seq(s) + esc_char(c));
    } else {
        assert(s.push(c).skip(1) =~= s.skip(1).push(c));
        lemma_escape_snoc(s.skip(1), c);
        assert(s.push(c)[0] == s[0]);
        assert(escape_seq(s.push(c)) == esc_char(s[0]) + escape_seq(s.skip(1).push(c)));
        assert(escape_seq(s) == esc_char(s[0]) + escape_seq(s.skip(1)));
        assert(escape_seq(s.push(c)) =~= escape_seq(s) + esc_char(c));
    }
}

/// The JSON string encoding of `t` sits at position `i` of `s`.
pub open spec fn jstr_at(s: Seq<char>, i: int, t: Seq<char>) -> bool {
    &&& 0 <= i
    &&& i + jstr(t).len() <= s.len()
    &&& s.subrange(i, i + jstr(t).len() as int) == jstr(t)
}

/// Escaping distributes over concatenation.
pub proof fn lemma_escape_split(a: Seq<char>, b: Seq<char>)
    ensures
        escape_seq(a + b) == escape_seq(a) + escape_seq(b),
    decreases a.len(),
{
    if a.len() == 0 {
        assert(a + b =~= b);
        assert(escape_seq(a) =~= Seq::<char>::empty());
        assert(escape_seq(a + b) =~= escape_seq(a) + escape_seq(b));
    } else {
        assert((a + b)[0] == a[0]);
        assert((a + b).skip(1) =~= a.skip(1) + b);
        lemma_escape_split(a.skip(1), b);
        assert(escape_seq(a + b) == esc_char(a[0]) + escape_seq(a.skip(1) + b));
        assert(escape_seq(a) == esc_char(a[0]) + escape_seq(a.skip(1)));
        assert(escape_seq(a + b) =~= escape_seq(a) + escape_seq(b));
    }
}

/// A subrange splits into two adjacent subranges.
pub proof fn lemma_subrange_concat(s: Seq<char>, i: int, j: int, k: int)
    requires
        0 <= i <= j <= k <= s.len(),
    ensures
        s.subrange(i, k) == s.subrange(i, j) + s.subrange(j, k),
{
    assert(s.subrange(i, k) =~= s.subrange(i, j) + s.subrange(j, k));
}

// ---------------------------------------------------------------------------
// Trusted bridge between `String`/`&str` and `Vec<char>`
// ---------------------------------------------------------------------------

/// Relies on `str::chars` and `Iterator::collect`: the characters of the
/// slice, in order.
#[verifier::external_body]
pub fn str_to_chars(s: &str) -> (r: Vec<char>)
    ensures
        r@ == s@,
{
    s.chars().collect()
}

/// Relies on `Iterator::collect` for `String`: the string whose characters
/// are exactly those of the vector, in order.
#[verifier::external_body]
pub fn chars_to_string(v: &Vec<char>) -> (r: String)
    ensures
        r@ == v@,
{
    v.iter().collect()
}

// ---------------------------------------------------------------------------
// Executable encoding primitives
// ---------------------------------------------------------------------------

/// Appends the characters of `s` to `out`.
pub fn push_str_chars(out: &mut Vec<char>, s: &str)
    ensures
        final(out)@ == old(out)@ + s@,
{
    let cs = str_to_chars(s);
    let mut i: usize = 0;
    while i < cs.len()
        invariant
            i <= cs.len(),
            cs@ == s@,
            out@ == old(out)@ + cs@.take(i as int),
        decreases cs.len() - i,
    {
        out.push(cs[i]);
        proof {
            assert(cs@.take(i + 1) =~= cs@.take(i as int).push(cs@[i as int]));
            assert(out@ =~= old(out)@ + cs@.take(i + 1));
        }
        i = i + 1;
    }
    proof {
        assert(cs@.take(cs@.len() as int) =~= cs@);
    }
}

/// Appends the JSON string encoding of `s` (quotes and escapes included).
pub fn push_jstr(out: &mut Vec<char>, s: &str)
    ensures
        final(out)@ == old(out)@ + jstr(s@),
{
    let cs = str_to_chars(s);
    out.push('"');
    let ghost base = out@;
    let mut i: usize = 0;
    while i < cs.len()
        invariant
            i <= cs.len(),
            cs@ == s@,
            out@ == base + escape_seq(cs@.take(i as int)),
        decreases cs.len() - i,
    {
        let c = cs[i];
        if c == '"' {
            out.push('\\');
            out.push('"');
        } else if c == '\\' {
            out.push('\\');
            out.push('\\');
        } else if c == '\n' {
            out.push('\\');
            out.push('n');
        } else if c == '\r' {
            out.push('\\');
            out.push('r');
        } else if c == '\t' {
            out.push('\\');
            out.push('t');
        } else {
            out.push(c);
        }
        proof {
            assert(cs@.take(i + 1) =~= cs@.take(i as int).push(cs@[i as int]));
            lemma_escape_snoc(cs@.take(i as int), cs@[i as int]);
            assert(out@ =~= base + escape_seq(cs@.take(i + 1)));
        }
        i = i + 1;
    }
    out.push('"');
    proof {
        assert(cs@.take(cs@.len() as int) =~= cs@);
        assert(out@ =~= old(out)@ + jstr(s@));
    }
}

/// The decimal digits of `n`, most significant first.
pub fn u64_digits(n: u64) -> (r: Vec<char>)
    ensures
        r@ == dec_digits(n as nat),
    decreases n,
{
    let d: u64 = n % 10;
    let c: char = if d == 0 { '0' }
        else if d == 1 { '1' }
        else if d == 2 { '2' }
        else if d == 3 { '3' }
        else if d == 4 { '4' }
        else if d == 5 { '5' }
        else if d == 6 { '6' }
        else if d == 7 { '7' }
        else if d == 8 { '8' }
        else { '9' };
    if n < 10 {
        let mut r: Vec<char> = Vec::new();
        r.push(c);
        proof {
            assert(r@ =~= dec_digits(n as nat));
        }
        r
    } else {
        let mut r = u64_digits(n / 10);
        r.push(c);
        proof {
            assert(r@ =~= dec_digits(n as nat));
        }
        r
    }
}

/// Appends the decimal digits of `n`.
pub fn push_u64(out: &mut Vec<char>, n: u64)
    ensures
        final(out)@ == old(out)@ + dec_digits(n as nat),
{
    let ds = u64_digits(n);
    let mut i: usize = 0;
    while i < ds.len()
        invariant
            i <= ds.len(),
            ds@ == dec_digits(n as nat),
            out@ == old(out)@ + ds@.take(i as int),
        decreases ds.len() - i,
    {
        out.push(ds[i]);
        proof {
            assert(ds@.take(i + 1) =~= ds@.take(i as int).push(ds@[i as int]));
            assert(out@ =~= old(out)@ + ds@.take(i + 1));
        }
        i = i + 1;
    }
    proof {
        assert(ds@.take(ds@.len() as int) =~= ds@);
    }
}

// ---------------------------------------------------------------------------
// Executable decoding primitives
// ---------------------------------------------------------------------------

/// A decimal digit character.
pub open spec fn is_digit(c: char) -> bool {
    c == '0' || c == '1' || c == '2' || c == '3' || c == '4' || c == '5' || c == '6' || c == '7'
        || c == '8' || c == '9'
}

/// The value of a decimal digit character.
pub open spec fn digit_val(c: char) -> nat {
    if c == '0' { 0 }
    else if c == '1' { 1 }
    else if c == '2' { 2 }
    else if c == '3' { 3 }
    else if c == '4' { 4 }
    else if c == '5' { 5 }
    else if c == '6' { 6 }
    else if c == '7' { 7 }
    else if c == '8' { 8 }
    else { 9 }
}

/// The value of a digit string, most significant digit first.
pub open spec fn val_digits(ds: Seq<char>) -> nat
    decreases ds.len(),
{
    if ds.len() == 0 {
        0
    } else {
        val_digits(ds.drop_last()) * 10 + digit_val(ds.last())
    }
}

/// The canonical decimal digits of `n` are non-empty digits without a
/// leading zero (unless `n` is zero itself).
pub proof fn lemma_dec_digits_basics(n: nat)
    ensures
        dec_digits(n).len() >= 1,
        forall|k: int| 0 <= k < dec_digits(n).len() ==> is_digit(#[trigger] dec_digits(n)[k]),
        n >= 1 ==> dec_digits(n)[0] != '0',
        n < 10 ==> dec_digits(n).len() == 1,
    decreases n,
{
    if n < 10 {
        assert(is_digit(digit_char(n)));
    } else {
        lemma_dec_digits_basics(n / 10);
        assert(dec_digits(n)[0] == dec_digits(n / 10)[0]);
        assert(is_digit(digit_char(n % 10)));
        assert forall|k: int| 0 <= k < dec_digits(n).len() implies is_digit(
            #[trigger] dec_digits(n)[k],
        ) by {
            if k < dec_digits(n / 10).len() {
                assert(dec_digits(n)[k] == dec_digits(n / 10)[k]);
            } else {
                assert(dec_digits(n)[k] == digit_char(n % 10));
            }
        }
    }
}

/// The value of the canonical digits of `n` is `n`.
pub proof fn lemma_val_dec_digits(n: nat)
    ensures
        val_digits(dec_digits(n)) == n,
    decreases n,
{
    assert(val_digits(Seq::<char>::empty()) == 0);
    if n < 10 {
        assert(dec_digits(n).drop_last() =~= Seq::<char>::empty());
        assert(dec_digits(n).last() == digit_char(n));
        assert(digit_val(digit_char(n)) == n);
        assert(val_digits(dec_digits(n)) == val_digits(dec_digits(n).drop_last()) * 10
            + digit_val(dec_digits(n).last()));
    } else {
        lemma_val_dec_digits(n / 10);
        assert(dec_digits(n).drop_last() =~= dec_digits(n / 10));
        assert(dec_digits(n).last() == digit_char(n % 10));
        assert(digit_val(digit_char(n % 10)) == n % 10);
        assert(val_digits(dec_digits(n)) == (n / 10) * 10 + n % 10);
        assert(n == (n / 10) * 10 + n % 10) by (nonlinear_arith);
    }
}

/// Two numbers with the same canonical digits are equal.
pub proof fn lemma_dec_digits_inj(a: nat, b: nat)
    requires
        dec_digits(a) == dec_digits(b),
    ensures
        a == b,
{
    lemma_val_dec_digits(a);
    lemma_val_dec_digits(b);
}

/// The value of a digit string bounds the value of each of its prefixes.
pub proof fn lemma_val_prefix_le(ds: Seq<char>, k: int)
    requires
        0 <= k <= ds.len(),
    ensures
        val_digits(ds.subrange(0, k)) <= val_digits(ds),
    decreases ds.len() - k,
{
    if k == ds.len() {
        assert(ds.subrange(0, k) =~= ds);
    } else {
        lemma_val_prefix_le(ds, k + 1);
        assert(ds.subrange(0, k + 1).drop_last() =~= ds.subrange(0, k));
        assert(ds.subrange(0, k + 1).last() == ds[k]);
        assert(val_digits(ds.subrange(0, k + 1)) == val_digits(ds.subrange(0, k)) * 10
            + digit_val(ds[k]));
    }
}

/// The canonical digits of `m`, followed by a non-digit or the end of the
/// input, sit at position `i` of `s`.
pub open spec fn num_at(s: Seq<char>, i: int, m: u64) -> bool {
    &&& 0 <= i
    &&& i + dec_digits(m as nat).len() <= s.len()
    &&& s.subrange(i, i + dec_digits(m as nat).len() as int) == dec_digits(m as nat)
    &&& (i + dec_digits(m as nat).len() == s.len() || !is_digit(
        s[i + dec_digits(m as nat).len()],
    ))
}

/// Matches the literal `lit` at position `i` of `s`.  Returns the position
/// just past the literal exactly when the literal is there.
pub fn parse_lit(s: &Vec<char>, i: usize, lit: &str) -> (r: Option<usize>)
    ensures
        r matches Some(j) ==> i <= j <= s@.len() && j - i == lit@.len() && s@.subrange(
            i as int,
            j as int,
        ) == lit@,
        i + lit@.len() <= s@.len() && s@.subrange(i as int, i + lit@.len()) == lit@ ==> r
            == Some((i + lit@.len()) as usize),
{
    let cs = str_to_chars(lit);
    if i > s.len() || s.len() - i < cs.len() {
        return None;
    }
    let mut k: usize = 0;
    while k < cs.len()
        invariant
            k <= cs.len(),
            cs@ == lit@,
            i + cs.len() <= s.len(),
            forall|m: int| 0 <= m < k ==> s@[i + m] == cs@[m],
        decreases cs.len() - k,
    {
        if s[i + k] != cs[k] {
            proof {
                if i + lit@.len() <= s@.len() && s@.subrange(i as int, i + lit@.len()) == lit@ {
                    assert(s@.subrange(i as int, i + lit@.len())[k as int] == s@[i + k]);
                }
            }
            return None;
        }
        k = k + 1;
    }
    proof {
        assert(s@.subrange(i as int, i + cs@.len()) =~= cs@);
    }
    Some(i + cs.len())
}

/// Reads a canonical decimal number (no sign, no leading zero) at position
/// `i`.  On success the consumed characters are exactly the decimal digits
/// of the returned value.
pub fn parse_u64(s: &Vec<char>, i: usize) -> (r: Option<(u64, usize)>)
    ensures
        r matches Some(p) ==> i <= p.1 <= s@.len() && s@.subrange(i as int, p.1 as int)
            == dec_digits(p.0 as nat),
        forall|m: u64|
            num_at(s@, i as int, m) ==> (r matches Some(p) && p.0 == m && p.1 == i + dec_digits(
                m as nat,
            ).len()),
{
    if i >= s.len() {
        proof {
            assert forall|m: u64| !num_at(s@, i as int, m) by {
                if num_at(s@, i as int, m) {
                    lemma_dec_digits_basics(m as nat);
                    assert(false);
                }
            }
        }
        return None;
    }
    let c0 = s[i];
    let d0: u64 = if c0 == '0' { 0 }
        else if c0 == '1' { 1 }
        else if c0 == '2' { 2 }
        else if c0 == '3' { 3 }
        else if c0 == '4' { 4 }
        else if c0 == '5' { 5 }
        else if c0 == '6' { 6 }
        else if c0 == '7' { 7 }
        else if c0 == '8' { 8 }
        else if c0 == '9' { 9 }
        else { 10 };
    if d0 == 10 {
        proof {
            assert forall|m: u64| !num_at(s@, i as int, m) by {
                if num_at(s@, i as int, m) {
                    lemma_dec_digits_basics(m as nat);
                    assert(s@.subrange(i as int, i + dec_digits(m as nat).len())[0]
                        == s@[i as int]);
                    assert(is_digit(dec_digits(m as nat)[0]));
                    assert(false);
                }
            }
        }
        return None;
    }
    if d0 == 0 {
        // A canonical zero is the single digit `0`.
        proof {
            assert(s@.subrange(i as int, i + 1) =~= seq![s@[i as int]]);
            assert(dec_digits(0) =~= seq!['0']);
            assert forall|m: u64| num_at(s@, i as int, m) implies m == 0 && dec_digits(
                m as nat,
            ).len() == 1 by {
                lemma_dec_digits_basics(m as nat);
                assert(s@.subrange(i as int, i + dec_digits(m as nat).len())[0] == s@[i as int]);
                assert(dec_digits(m as nat)[0] == '0');
                assert(m == 0);
            }
        }
        return Some((0, i + 1));
    }
    let mut n: u64 = d0;
    let mut j: usize = i + 1;
    proof {
        assert(s@.subrange(i as int, j as int) =~= seq![s@[i as int]]);
        assert(dec_digits(n as nat) =~= seq![digit_char(n as nat)]);
    }
    while j < s.len()
        invariant
            i < j <= s.len(),
            1 <= n,
            s@.subrange(i as int, j as int) == dec_digits(n as nat),
        decreases s.len() - j,
    {
        let c = s[j];
        let d: u64 = if c == '0' { 0 }
            else if c == '1' { 1 }
            else if c == '2' { 2 }
            else if c == '3' { 3 }
            else if c == '4' { 4 }
            else if c == '5' { 5 }
            else if c == '6' { 6 }
            else if c == '7' { 7 }
            else if c == '8' { 8 }
            else if c == '9' { 9 }
            else { 10 };
        if d == 10 {
            proof {
                assert forall|m: u64| num_at(s@, i as int, m) implies n == m && j == i
                    + dec_digits(m as nat).len() by {
                    let ghost ll = dec_digits(m as nat).len() as int;
                    lemma_dec_digits_basics(m as nat);
                    lemma_dec_digits_basics(n as nat);
                    if j > i + ll {
                        assert(s@.subrange(i as int, j as int)[ll] == s@[i + ll]);
                        assert(is_digit(dec_digits(n as nat)[ll]));
                        assert(false);
                    }
                    if j < i + ll {
                        assert(s@.subrange(i as int, i + ll)[j - i] == s@[j as int]);
                        assert(is_digit(dec_digits(m as nat)[j - i]));
                        assert(false);
                    }
                    assert(s@.subrange(i as int, j as int) =~= s@.subrange(i as int, i + ll));
                    lemma_dec_digits_inj(n as nat, m as nat);
                }
            }
            return Some((n, j));
        }
        if n > (u64::MAX - d) / 10 {
            // The number does not fit; the input is not a canonical `u64`.
            proof {
                assert forall|m: u64| !num_at(s@, i as int, m) by {
                    if num_at(s@, i as int, m) {
                        let ghost ll = dec_digits(m as nat).len() as int;
                        lemma_dec_digits_basics(m as nat);
                        lemma_dec_digits_basics(n as nat);
                        if j > i + ll {
                            assert(s@.subrange(i as int, j as int)[ll] == s@[i + ll]);
                            assert(is_digit(dec_digits(n as nat)[ll]));
                            assert(false);
                        }
                        if j == i + ll {
                            assert(is_digit(s@[j as int]));
                            assert(false);
                        }
                        assert(dec_digits(m as nat).subrange(0, j - i) =~= dec_digits(n as nat));
                        let ghost p = dec_digits(m as nat).subrange(0, j - i + 1);
                        assert(p.drop_last() =~= dec_digits(m as nat).subrange(0, j - i));
                        assert(p.last() == dec_digits(m as nat)[j - i]);
                        assert(s@.subrange(i as int, i + ll)[j - i] == s@[j as int]);
                        assert(p.last() == s@[j as int]);
                        assert(val_digits(p) == val_digits(dec_digits(n as nat)) * 10 + digit_val(
                            s@[j as int],
                        ));
                        lemma_val_dec_digits(n as nat);
                        assert(digit_val(s@[j as int]) == d as nat);
                        lemma_val_prefix_le(dec_digits(m as nat), j - i + 1);
                        lemma_val_dec_digits(m as nat);
                        assert(n * 10 + d <= m);
                        assert(u64::MAX < n * 10 + d) by (nonlinear_arith)
                            requires
                                n > (u64::MAX - d) / 10,
                                0 <= d < 10,
                        ;
                        assert(false);
                    }
                }
            }
            return None;
        }
        proof {
            assert(n * 10 + d <= u64::MAX && (n * 10 + d) / 10 == n as int && (n * 10 + d) % 10
                == d as int && n * 10 + d >= 10) by (nonlinear_arith)
                requires
                    1 <= n,
                    d < 10,
                    n <= (u64::MAX - d) / 10,
            ;
        }
        let n2: u64 = n * 10 + d;
        proof {
            assert(dec_digits(n2 as nat) == dec_digits((n2 as nat) / 10) + seq![
                digit_char((n2 as nat) % 10),
            ]);
            assert((n2 as nat) / 10 == n as nat);
            assert(digit_char((n2 as nat) % 10) == s@[j as int]);
            assert(s@.subrange(i as int, j + 1) =~= s@.subrange(i as int, j as int).push(
                s@[j as int],
            ));
            assert(s@.subrange(i as int, j + 1) =~= dec_digits(n2 as nat));
        }
        n = n2;
        j = j + 1;
    }
    proof {
        assert forall|m: u64| num_at(s@, i as int, m) implies n == m && j == i + dec_digits(
            m as nat,
        ).len() by {
            let ghost ll = dec_digits(m as nat).len() as int;
            lemma_dec_digits_basics(m as nat);
            lemma_dec_digits_basics(n as nat);
            if j > i + ll {
                assert(s@.subrange(i as int, j as int)[ll] == s@[i + ll]);
                assert(is_digit(dec_digits(n as nat)[ll]));
                assert(false);
            }
            if j < i + ll {
                assert(false);
            }
            assert(s@.subrange(i as int, j as int) =~= s@.subrange(i as int, i + ll));
            lemma_dec_digits_inj(n as nat, m as nat);
        }
    }
    Some((n, j))
}

/// Where the JSON string encoding of `t` sits at position `i` of `s` and a
/// scan has consumed the escapes of `t`'s first `k` characters, the next
/// character of `s` is determined: the start of the next escape sequence, or
/// the closing quote.
proof fn lemma_jstr_at_step(s: Seq<char>, i: int, t: Seq<char>, k: int, j: int)
    requires
        jstr_at(s, i, t),
        0 <= k <= t.len(),
        j == i + 1 + escape_seq(t.subrange(0, k)).len(),
    ensures
        j < s.len(),
        k == t.len() ==> s[j] == '"' && j + 1 == i + jstr(t).len(),
        k < t.len() ==> s[j] == esc_char(t[k])[0] && (esc_char(t[k]).len() == 2 ==> j + 1
            < s.len() && s[j + 1] == esc_char(t[k])[1]),
{
    let ghost front = t.subrange(0, k);
    let ghost rest = t.subrange(k, t.len() as int);
    assert(t =~= front + rest);
    lemma_escape_split(front, rest);
    assert(escape_seq(t) == escape_seq(front) + escape_seq(rest));
    let ghost ll = jstr(t).len() as int;
    assert(ll == 2 + escape_seq(t).len());
    if k == t.len() {
        assert(rest =~= Seq::<char>::empty());
        assert(escape_seq(Seq::<char>::empty()) == Seq::<char>::empty());
        assert(escape_seq(t) =~= escape_seq(front));
        assert(j - i == ll - 1);
        assert(s.subrange(i, i + ll)[j - i] == s[j]);
        assert(jstr(t)[ll - 1] == '"');
    } else {
        let ghost c = t[k];
        assert(rest[0] == c);
        assert(rest.skip(1) =~= t.subrange(k + 1, t.len() as int));
        assert(escape_seq(rest) == esc_char(c) + escape_seq(rest.skip(1)));
        assert(esc_char(c).len() == 1 || esc_char(c).len() == 2);
        assert(escape_seq(t)[escape_seq(front).len() as int] == esc_char(c)[0]);
        assert(j - i - 1 < escape_seq(t).len());
        assert(s.subrange(i, i + ll)[j - i] == s[j]);
        assert(jstr(t)[j - i] == escape_seq(t)[j - i - 1]);
        assert(s[j] == esc_char(c)[0]);
        if esc_char(c).len() == 2 {
            assert(escape_seq(t)[escape_seq(front).len() as int + 1] == esc_char(c)[1]);
            assert(j - i < escape_seq(t).len());
            assert(s.subrange(i, i + ll)[j - i + 1] == s[j + 1]);
            assert(jstr(t)[j - i + 1] == escape_seq(t)[j - i]);
            assert(s[j + 1] == esc_char(c)[1]);
        }
    }
}

/// Reads a JSON string at position `i`, undoing the escapes.  Exact in both
/// directions: on success the consumed characters are exactly the JSON
/// string encoding of the result, and wherever a JSON string encoding sits
/// at `i`, the scan accepts it and returns the encoded characters.
pub fn parse_jstring(s: &Vec<char>, i: usize) -> (r: Option<(Vec<char>, usize)>)
    ensures
        r matches Some(p) ==> i <= p.1 <= s@.len() && s@.subrange(i as int, p.1 as int)
            == jstr(p.0@),
        forall|t: Seq<char>|
            jstr_at(s@, i as int, t) ==> (r matches Some(p) && p.0@ == t && p.1 == i + jstr(
                t,
            ).len()),
{
    if i >= s.len() || s[i] != '"' {
        proof {
            assert forall|t: Seq<char>| !jstr_at(s@, i as int, t) by {
                if jstr_at(s@, i as int, t) {
                    assert(jstr(t).len() >= 2);
                    assert(s@.subrange(i as int, i + jstr(t).len())[0] == s@[i as int]);
                    assert(jstr(t)[0] == '"');
                }
            }
        }
        return None;
    }
    let mut out: Vec<char> = Vec::new();
    let mut j: usize = i + 1;
    proof {
        assert(s@.subrange(i + 1, j as int) =~= escape_seq(out@));
        assert forall|t: Seq<char>| jstr_at(s@, i as int, t) implies out@.len() <= t.len()
            && out@ == t.subrange(0, out@.len() as int) by {
            assert(t.subrange(0, 0) =~= Seq::<char>::empty());
            assert(out@ =~= Seq::<char>::empty());
        }
    }
    while j < s.len()
        invariant
            i < j <= s.len(),
            s@[i as int] == '"',
            s@.subrange(i + 1, j as int) == escape_seq(out@),
            forall|t: Seq<char>|
                jstr_at(s@, i as int, t) ==> out@.len() <= t.len() && out@ == t.subrange(
                    0,
                    out@.len() as int,
                ),
        decreases s.len() - j,
    {
        let c = s[j];
        proof {
            assert(s@.subrange(i + 1, j as int).len() == j - i - 1);
        }
        if c == '"' {
            proof {
                assert(s@.subrange(i as int, j + 1) =~= seq!['"'] + escape_seq(out@) + seq!['"']);
                assert forall|t: Seq<char>| jstr_at(s@, i as int, t) implies out@ == t && j + 1
                    == i + jstr(t).len() by {
                    let k = out@.len() as int;
                    assert(out@ == t.subrange(0, k));
                    assert(j == i + 1 + escape_seq(t.subrange(0, k)).len());
                    lemma_jstr_at_step(s@, i as int, t, k, j as int);
                    if k < t.len() {
                        assert(s@[j as int] == esc_char(t[k])[0]);
                        assert(false);
                    }
                    assert(out@ =~= t);
                }
            }
            return Some((out, j + 1));
        } else if c == '\\' {
            if j + 1 >= s.len() {
                proof {
                    assert forall|t: Seq<char>| !jstr_at(s@, i as int, t) by {
                        if jstr_at(s@, i as int, t) {
                            let k = out@.len() as int;
                            assert(out@ == t.subrange(0, k));
                            assert(j == i + 1 + escape_seq(t.subrange(0, k)).len());
                            lemma_jstr_at_step(s@, i as int, t, k, j as int);
                            if k < t.len() {
                                assert(s@[j as int] == esc_char(t[k])[0]);
                                assert(esc_char(t[k]).len() == 2);
                            }
                            assert(false);
                        }
                    }
                }
                return None;
            }
            let e = s[j + 1];
            let orig: char = if e == '"' { '"' }
                else if e == '\\' { '\\' }
                else if e == 'n' { '\n' }
                else if e == 'r' { '\r' }
                else if e == 't' { '\t' }
                else { ' ' };
            if !(e == '"' || e == '\\' || e == 'n' || e == 'r' || e == 't') {
                proof {
                    assert forall|t: Seq<char>| !jstr_at(s@, i as int, t) by {
                        if jstr_at(s@, i as int, t) {
                            let k = out@.len() as int;
                            assert(out@ == t.subrange(0, k));
                            assert(j == i + 1 + escape_seq(t.subrange(0, k)).len());
                            lemma_jstr_at_step(s@, i as int, t, k, j as int);
                            if k < t.len() {
                                assert(s@[j as int] == esc_char(t[k])[0]);
                                assert(esc_char(t[k]).len() == 2);
                                assert(s@[j + 1] == esc_char(t[k])[1]);
                            }
                            assert(false);
                        }
                    }
                }
                return None;
            }
            proof {
                lemma_escape_snoc(out@, orig);
                assert(esc_char(orig) =~= seq![s@[j as int], s@[j + 1]]);
                assert(s@.subrange(i + 1, j + 2) =~= s@.subrange(i + 1, j as int) + seq![
                    s@[j as int],
                    s@[j + 1],
                ]);
                assert(s@.subrange(i + 1, j + 2) =~= escape_seq(out@.push(orig)));
                assert forall|t: Seq<char>| jstr_at(s@, i as int, t) implies out@.push(orig).len()
                    <= t.len() && out@.push(orig) == t.subrange(0, out@.len() as int + 1) by {
                    let k = out@.len() as int;
                    assert(out@ == t.subrange(0, k));
                    assert(j == i + 1 + escape_seq(t.subrange(0, k)).len());
                    lemma_jstr_at_step(s@, i as int, t, k, j as int);
                    if k == t.len() {
                        assert(s@[j as int] == '"');
                        assert(false);
                    }
                    assert(s@[j as int] == esc_char(t[k])[0]);
                    assert(esc_char(t[k]).len() == 2);
                    assert(s@[j + 1] == esc_char(t[k])[1]);
                    assert(orig == t[k]);
                    assert(out@.push(orig) =~= t.subrange(0, k + 1));
                }
            }
            out.push(orig);
            j = j + 2;
        } else if c == '\n' || c == '\r' || c == '\t' {
            // Raw control characters never occur in canonical output.
            proof {
                assert forall|t: Seq<char>| !jstr_at(s@, i as int, t) by {
                    if jstr_at(s@, i as int, t) {
                        let k = out@.len() as int;
                        assert(out@ == t.subrange(0, k));
                        assert(j == i + 1 + escape_seq(t.subrange(0, k)).len());
                        lemma_jstr_at_step(s@, i as int, t, k, j as int);
                        if k < t.len() {
                            assert(s@[j as int] == esc_char(t[k])[0]);
                        }
                        assert(false);
                    }
                }
            }
            return None;
        } else {
            proof {
                lemma_escape_snoc(out@, c);
                assert(esc_char(s@[j as int]) =~= seq![s@[j as int]]);
                assert(s@.subrange(i + 1, j + 1) =~= s@.subrange(i + 1, j as int).push(
                    s@[j as int],
                ));
                assert(s@.subrange(i + 1, j + 1) =~= escape_seq(out@.push(c)));
                assert forall|t: Seq<char>| jstr_at(s@, i as int, t) implies out@.push(c).len()
                    <= t.len() && out@.push(c) == t.subrange(0, out@.len() as int + 1) by {
                    let k = out@.len() as int;
                    assert(out@ == t.subrange(0, k));
                    assert(j == i + 1 + escape_seq(t.subrange(0, k)).len());
                    lemma_jstr_at_step(s@, i as int, t, k, j as int);
                    if k == t.len() {
                        assert(s@[j as int] == '"');
                        assert(false);
                    }
                    assert(s@[j as int] == esc_char(t[k])[0]);
                    assert(esc_char(t[k]).len() == 1);
                    assert(t[k] == c);
                    assert(out@.push(c) =~= t.subrange(0, k + 1));
                }
            }
            out.push(c);
            j = j + 1;
        }
    }
    proof {
        assert forall|t: Seq<char>| !jstr_at(s@, i as int, t) by {
            if jstr_at(s@, i as int, t) {
                let k = out@.len() as int;
                assert(out@ == t.subrange(0, k));
                assert(s@.subrange(i + 1, j as int).len() == j - i - 1);
                assert(j == i + 1 + escape_seq(t.subrange(0, k)).len());
                lemma_jstr_at_step(s@, i as int, t, k, j as int);
                assert(false);
            }
        }
    }
    None
}

} // verus!
