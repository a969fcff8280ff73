use vstd::prelude::*;
use crate::policy::CommandData;
use crate::text::{append_bytes, ascii_bytes};

verus! {

/// Largest transaction code that is examined, in bytes.
pub const CODE_CAPACITY: usize = 600;

pub const QUOTE: u8 = 34;

pub const CLOSE_PAREN: u8 = 41;

pub const DOT: u8 = 46;

pub open spec fn head() -> Seq<u8> {
    ascii_bytes("(coin.transfer-crosschain \""@)
}

pub open spec fn between_accounts() -> Seq<u8> {
    ascii_bytes("\" \""@)
}

pub open spec fn before_chain() -> Seq<u8> {
    ascii_bytes("\" (read-keyset \"ks\") \""@)
}

pub open spec fn before_amount() -> Seq<u8> {
    ascii_bytes("\" "@)
}

pub open spec fn no_quote(s: Seq<u8>) -> bool {
    forall|i: int| 0 <= i < s.len() ==> s[i] != QUOTE
}

/// No quote in `s` from `lo` up to `hi`.
#[verifier::opaque]
pub open spec fn quote_free(s: Seq<u8>, lo: int, hi: int) -> bool {
    forall|k: int| lo <= k < hi ==> s[k] != QUOTE
}

proof fn lemma_first_quote(s: Seq<u8>, lo: int, j: int, p: int)
    requires
        lo <= j < s.len(),
        lo <= p < s.len(),
        quote_free(s, lo, j),
        quote_free(s, lo, p),
        s[j] == QUOTE,
        s[p] == QUOTE,
    ensures
        j == p,
{
    reveal(quote_free);
    if j < p {
        assert(s[j] != QUOTE);
    }
    if p < j {
        assert(s[p] != QUOTE);
    }
}

proof fn lemma_quote_found(s: Seq<u8>, lo: int, p: int)
    requires
        lo <= p < s.len(),
        s[p] == QUOTE,
    ensures
        !quote_free(s, lo, s.len() as int),
{
    reveal(quote_free);
}

pub open spec fn is_amount_byte(b: u8) -> bool {
    (48 <= b <= 57) || b == DOT
}

pub open spec fn amount_text(s: Seq<u8>) -> bool {
    forall|i: int| 0 <= i < s.len() ==> is_amount_byte(s[i])
}

/// `code` is the cross-chain transfer template with these four fields: no
/// quote in the accounts or the chain, and only digits and dots in the amount.
pub open spec fn cross_chain_fields(code: Seq<u8>, from: Seq<u8>, to: Seq<u8>, chain: Seq<u8>, amount: Seq<u8>) -> bool {
    &&& no_quote(from)
    &&& no_quote(to)
    &&& no_quote(chain)
    &&& amount_text(amount)
    &&& code == head() + from + between_accounts() + to + before_chain() + chain + before_amount()
        + amount + seq![CLOSE_PAREN]
}

pub open spec fn is_cross_chain(code: Seq<u8>) -> bool {
    exists|f: Seq<u8>, t: Seq<u8>, c: Seq<u8>, a: Seq<u8>| cross_chain_fields(code, f, t, c, a)
}

/// The four fields of a recognised cross-chain transfer.
#[derive(Clone, Debug)]
pub struct CrossChainTransfer {
    pub from: Vec<u8>,
    pub to: Vec<u8>,
    pub chain: Vec<u8>,
    pub amount: Vec<u8>,
}

fn head_bytes() -> (r: &'static [u8])
    ensures
        r@ == head(),
{
    let s: &'static str = "(coin.transfer-crosschain \"";
    proof {
        reveal_strlit("(coin.transfer-crosschain \"");
        vstd::string::is_ascii_spec_bytes(s);
    }
    s.as_bytes()
}

fn between_accounts_bytes() -> (r: &'static [u8])
    ensures
        r@ == between_accounts(),
{
    let s: &'static str = "\" \"";
    proof {
        reveal_strlit("\" \"");
        vstd::string::is_ascii_spec_bytes(s);
    }
    s.as_bytes()
}

fn before_chain_bytes() -> (r: &'static [u8])
    ensures
        r@ == before_chain(),
{
    let s: &'static str = "\" (read-keyset \"ks\") \"";
    proof {
        reveal_strlit("\" (read-keyset \"ks\") \"");
        vstd::string::is_ascii_spec_bytes(s);
    }
    s.as_bytes()
}

fn before_amount_bytes() -> (r: &'static [u8])
    ensures
        r@ == before_amount(),
{
    let s: &'static str = "\" ";
    proof {
        reveal_strlit("\" ");
        vstd::string::is_ascii_spec_bytes(s);
    }
    s.as_bytes()
}

proof fn lemma_literal_shapes()
    ensures
        head().len() == 27,
        between_accounts().len() == 3,
        between_accounts()[0] == QUOTE,
        before_chain().len() == 22,
        before_chain()[0] == QUOTE,
        before_amount().len() == 2,
        before_amount()[0] == QUOTE,
{
    reveal_strlit("(coin.transfer-crosschain \"");
    reveal_strlit("\" \"");
    reveal_strlit("\" (read-keyset \"ks\") \"");
    reveal_strlit("\" ");
}

/// Whether `p` occurs in `code` at `at`.
fn matches_at(code: &[u8], at: usize, p: &[u8]) -> (r: bool)
    ensures
        r == (at + p@.len() <= code@.len() && code@.subrange(at as int, at + p@.len()) == p@),
{
    let n = code.len();
    if at > n || p.len() > n - at {
        return false;
    }
    let mut i: usize = 0;
    while i < p.len()
        invariant
            n == code@.len(),
            at + p@.len() <= code@.len(),
            i <= p@.len(),
            forall|k: int| 0 <= k < i ==> code@[at + k] == p@[k],
        decreases p@.len() - i,
    {
        if code[at + i] != p[i] {
            assert(code@.subrange(at as int, at + p@.len())[i as int] != p@[i as int]);
            return false;
        }
        i = i + 1;
    }
    assert(code@.subrange(at as int, at + p@.len()) =~= p@);
    true
}

/// The first quote at or after `from`.
fn find_quote(code: &[u8], from: usize) -> (r: Option<usize>)
    requires
        from <= code@.len(),
    ensures
        r matches Some(j) ==> from <= j < code@.len() && code@[j as int] == QUOTE,
        r matches Some(j) ==> quote_free(code@, from as int, j as int),
        r is None ==> quote_free(code@, from as int, code@.len() as int),
{
    reveal(quote_free);
    let mut j = from;
    while j < code.len()
        invariant
            from <= j <= code@.len(),
            forall|k: int| from <= k < j ==> code@[k] != QUOTE,
        decreases code@.len() - j,
    {
        if code[j] == QUOTE {
            proof {
                reveal(quote_free);
            }
            return Some(j);
        }
        j = j + 1;
    }
    None
}

fn copy_range(code: &[u8], lo: usize, hi: usize) -> (r: Vec<u8>)
    requires
        lo <= hi <= code@.len(),
    ensures
        r@ == code@.subrange(lo as int, hi as int),
{
    let mut r: Vec<u8> = Vec::new();
    let mut i = lo;
    while i < hi
        invariant
            lo <= i <= hi <= code@.len(),
            r@ == code@.subrange(lo as int, i as int),
        decreases hi - i,
    {
        r.push(code[i]);
        i = i + 1;
        assert(r@ =~= code@.subrange(lo as int, i as int));
    }
    r
}

fn all_amount_bytes(code: &[u8], lo: usize, hi: usize) -> (r: bool)
    requires
        lo <= hi <= code@.len(),
    ensures
        r == amount_text(code@.subrange(lo as int, hi as int)),
{
    let mut i = lo;
    while i < hi
        invariant
            lo <= i <= hi <= code@.len(),
            forall|k: int| lo <= k < i ==> is_amount_byte(code@[k]),
        decreases hi - i,
    {
        let b = code[i];
        if !((48 <= b && b <= 57) || b == DOT) {
            assert(!is_amount_byte(code@.subrange(lo as int, hi as int)[i - lo]));
            return false;
        }
        i = i + 1;
    }
    assert forall|k: int| 0 <= k < hi - lo implies is_amount_byte(
        #[trigger] code@.subrange(lo as int, hi as int)[k],
    ) by {
        assert(code@.subrange(lo as int, hi as int)[k] == code@[lo + k]);
    }
    true
}

pub open spec fn field_end_1(f: Seq<u8>) -> int {
    27int + f.len()
}

pub open spec fn field_end_2(f: Seq<u8>, t: Seq<u8>) -> int {
    field_end_1(f) + 3 + t.len()
}

pub open spec fn field_end_3(f: Seq<u8>, t: Seq<u8>, c: Seq<u8>) -> int {
    field_end_2(f, t) + 22 + c.len()
}

/// Where the pieces of a template match stand in the code: each field ends
/// at the first quote after its start.
proof fn lemma_field_positions(code: Seq<u8>, f: Seq<u8>, t: Seq<u8>, c: Seq<u8>, a: Seq<u8>)
    requires
        cross_chain_fields(code, f, t, c, a),
    ensures
        code.len() == field_end_3(f, t, c) + 2 + a.len() + 1,
        code.subrange(0, 27) == head(),
        code[field_end_1(f)] == QUOTE,
        quote_free(code, 27, field_end_1(f)),
        code.subrange(field_end_1(f), field_end_1(f) + 3) == between_accounts(),
        code[field_end_2(f, t)] == QUOTE,
        quote_free(code, field_end_1(f) + 3, field_end_2(f, t)),
        code.subrange(field_end_2(f, t), field_end_2(f, t) + 22) == before_chain(),
        code[field_end_3(f, t, c)] == QUOTE,
        quote_free(code, field_end_2(f, t) + 22, field_end_3(f, t, c)),
        code.subrange(field_end_3(f, t, c), field_end_3(f, t, c) + 2) == before_amount(),
        code[code.len() - 1] == CLOSE_PAREN,
        amount_text(code.subrange(field_end_3(f, t, c) + 2, code.len() - 1)),
{
    reveal(quote_free);
    lemma_literal_shapes();
    let j1: int = 27int + f.len();
    let i1: int = j1 + 3;
    let j2: int = i1 + t.len();
    let i2: int = j2 + 22;
    let j3: int = i2 + c.len();
    let i3: int = j3 + 2;
    assert(code.subrange(0, 27) =~= head());
    assert(code.subrange(27, j1) =~= f);
    assert(code.subrange(j1, i1) =~= between_accounts());
    assert(code.subrange(i1, j2) =~= t);
    assert(code.subrange(j2, i2) =~= before_chain());
    assert(code.subrange(i2, j3) =~= c);
    assert(code.subrange(j3, i3) =~= before_amount());
    assert(code.subrange(i3, code.len() - 1) =~= a);
    assert(code[j1] == code.subrange(j1, i1)[0]);
    assert(code[j2] == code.subrange(j2, i2)[0]);
    assert(code[j3] == code.subrange(j3, i3)[0]);
    assert forall|k: int| 27 <= k < j1 implies code[k] != QUOTE by {
        assert(code[k] == code.subrange(27, j1)[k - 27]);
    }
    assert forall|k: int| i1 <= k < j2 implies code[k] != QUOTE by {
        assert(code[k] == code.subrange(i1, j2)[k - i1]);
    }
    assert forall|k: int| i2 <= k < j3 implies code[k] != QUOTE by {
        assert(code[k] == code.subrange(i2, j3)[k - i2]);
    }
}

/// Pieces found at these positions make up a template match.
proof fn lemma_fields_from_positions(code: Seq<u8>, j1: int, j2: int, j3: int)
    requires
        27 <= j1,
        j1 + 3 <= j2,
        j2 + 22 <= j3,
        j3 + 2 < code.len(),
        code.subrange(0, 27) == head(),
        quote_free(code, 27, j1),
        code.subrange(j1, j1 + 3) == between_accounts(),
        quote_free(code, j1 + 3, j2),
        code.subrange(j2, j2 + 22) == before_chain(),
        quote_free(code, j2 + 22, j3),
        code.subrange(j3, j3 + 2) == before_amount(),
        code[code.len() - 1] == CLOSE_PAREN,
        amount_text(code.subrange(j3 + 2, code.len() - 1)),
    ensures
        cross_chain_fields(
            code,
            code.subrange(27, j1),
            code.subrange(j1 + 3, j2),
            code.subrange(j2 + 22, j3),
            code.subrange(j3 + 2, code.len() - 1),
        ),
{
    reveal(quote_free);
    lemma_literal_shapes();
    let f = code.subrange(27, j1);
    let t = code.subrange(j1 + 3, j2);
    let c = code.subrange(j2 + 22, j3);
    let a = code.subrange(j3 + 2, code.len() - 1);
    assert(code =~= head() + f + between_accounts() + t + before_chain() + c + before_amount() + a
        + seq![CLOSE_PAREN]);
}

/// Recognises the cross-chain transfer template and takes out its fields.
pub fn match_cross_chain(code: &[u8]) -> (r: Option<CrossChainTransfer>)
    ensures
        r is Some <==> is_cross_chain(code@),
        r matches Some(x) ==> cross_chain_fields(code@, x.from@, x.to@, x.chain@, x.amount@),
{
    proof {
        lemma_literal_shapes();
    }
    let n = code.len();
    let ghost s = code@;
    let ghost m = is_cross_chain(s);
    let ghost w = choose|f: Seq<u8>, t: Seq<u8>, c: Seq<u8>, a: Seq<u8>|
        cross_chain_fields(s, f, t, c, a);
    let ghost end_from = field_end_1(w.0);
    let ghost end_to = field_end_2(w.0, w.1);
    let ghost end_chain = field_end_3(w.0, w.1, w.2);
    proof {
        if m {
            lemma_field_positions(s, w.0, w.1, w.2, w.3);
        }
    }
    if !matches_at(code, 0, head_bytes()) {
        return None;
    }
    let j1 = match find_quote(code, 27) {
        Some(j) => j,
        None => {
            proof {
                if m {
                    lemma_quote_found(s, 27, end_from);
                }
            }
            return None;
        },
    };
    proof {
        if m {
            lemma_first_quote(s, 27, j1 as int, end_from);
        }
    }
    if !matches_at(code, j1, between_accounts_bytes()) {
        return None;
    }
    let j2 = match find_quote(code, j1 + 3) {
        Some(j) => j,
        None => {
            proof {
                if m {
                    lemma_quote_found(s, j1 + 3, end_to);
                }
            }
            return None;
        },
    };
    proof {
        if m {
            lemma_first_quote(s, j1 + 3, j2 as int, end_to);
        }
    }
    if !matches_at(code, j2, before_chain_bytes()) {
        return None;
    }
    let j3 = match find_quote(code, j2 + 22) {
        Some(j) => j,
        None => {
            proof {
                if m {
                    lemma_quote_found(s, j2 + 22, end_chain);
                }
            }
            return None;
        },
    };
    proof {
        if m {
            lemma_first_quote(s, j2 + 22, j3 as int, end_chain);
        }
    }
    if !matches_at(code, j3, before_amount_bytes()) {
        return None;
    }
    if j3 + 2 >= n || code[n - 1] != CLOSE_PAREN || !all_amount_bytes(code, j3 + 2, n - 1) {
        return None;
    }
    proof {
        lemma_fields_from_positions(s, j1 as int, j2 as int, j3 as int);
    }
    Some(
        CrossChainTransfer {
            from: copy_range(code, 27, j1),
            to: copy_range(code, j1 + 3, j2),
            chain: copy_range(code, j2 + 22, j3),
            amount: copy_range(code, j3 + 2, n - 1),
        },
    )
}

/// The one-line summary shown for a cross-chain transfer.
pub open spec fn cross_chain_summary_spec(from: Seq<u8>, to: Seq<u8>, chain: Seq<u8>, amount: Seq<u8>) -> Seq<u8> {
    ascii_bytes("Cross-chain "@) + amount + ascii_bytes(" from "@) + from + ascii_bytes(" to "@) + to
        + ascii_bytes(" on chain "@) + chain
}

/// Renders the summary of a cross-chain transfer.
pub fn cross_chain_summary(x: &CrossChainTransfer) -> (r: Vec<u8>)
    ensures
        r@ == cross_chain_summary_spec(x.from@, x.to@, x.chain@, x.amount@),
{
    let s0: &'static str = "Cross-chain ";
    let s1: &'static str = " from ";
    let s2: &'static str = " to ";
    let s3: &'static str = " on chain ";
    proof {
        reveal_strlit("Cross-chain ");
        reveal_strlit(" from ");
        reveal_strlit(" to ");
        reveal_strlit(" on chain ");
        vstd::string::is_ascii_spec_bytes(s0);
        vstd::string::is_ascii_spec_bytes(s1);
        vstd::string::is_ascii_spec_bytes(s2);
        vstd::string::is_ascii_spec_bytes(s3);
    }
    let mut r: Vec<u8> = Vec::new();
    append_bytes(&mut r, s0.as_bytes());
    append_bytes(&mut r, x.amount.as_slice());
    append_bytes(&mut r, s1.as_bytes());
    append_bytes(&mut r, x.from.as_slice());
    append_bytes(&mut r, s2.as_bytes());
    append_bytes(&mut r, x.to.as_slice());
    append_bytes(&mut r, s3.as_bytes());
    append_bytes(&mut r, x.chain.as_slice());
    proof {
        assert(r@ =~= cross_chain_summary_spec(x.from@, x.to@, x.chain@, x.amount@));
    }
    r
}

/// How a transaction's code field is classified: known only when it is a
/// string that fits and matches the cross-chain transfer template.
pub open spec fn code_class(code: Option<Seq<u8>>) -> CommandData {
    match code {
        Some(c) => if c.len() <= CODE_CAPACITY && is_cross_chain(c) {
            CommandData::Known
        } else {
            CommandData::Unknown
        },
        None => CommandData::Unknown,
    }
}

/// Classifies a code field, with the transfer to show when it is known.
pub fn classify_code(code: Option<&[u8]>) -> (r: (CommandData, Option<CrossChainTransfer>))
    ensures
        r.0 == code_class(match code { Some(c) => Some(c@), None => None }),
        r.1 is Some <==> r.0 == CommandData::Known,
        r.1 matches Some(x) ==> cross_chain_fields(code.unwrap()@, x.from@, x.to@, x.chain@, x.amount@),
{
    match code {
        Some(c) => if c.len() <= CODE_CAPACITY {
            match match_cross_chain(c) {
                Some(x) => (CommandData::Known, Some(x)),
                None => (CommandData::Unknown, None),
            }
        } else {
            (CommandData::Unknown, None)
        },
        None => (CommandData::Unknown, None),
    }
}

} // verus!
