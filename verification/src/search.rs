//! Search dispatcher: pure classification of a free-text query.
//!
//! No network call happens at classification time. The input is
//! trimmed; a string that parses as a non-negative 64-bit integer is
//! a block number; otherwise a length of 87 or 88 looks like a
//! transaction signature, a length of 32 ..= 44 like an account
//! address; anything else is unknown and short-circuits with no
//! downstream fetch. Lengths are byte lengths of the trimmed query.

use vstd::prelude::*;

verus! {

/// What kind of chain entity a free-text query names.
#[derive(Clone, Copy, Debug, PartialEq, Eq, Structural)]
pub enum QueryKind {
    Block,
    Transaction,
    Address,
    Unknown,
}

impl QueryKind {
    /// The wire name of this kind, as the search endpoint reports it.
    pub fn label(&self) -> (r: String)
        ensures
            *self == QueryKind::Block ==> r@ == "block"@,
            *self == QueryKind::Transaction ==> r@ == "transaction"@,
            *self == QueryKind::Address ==> r@ == "address"@,
            *self == QueryKind::Unknown ==> r@ == "unknown"@,
    {
        match self {
            QueryKind::Block => "block".to_owned(),
            QueryKind::Transaction => "transaction".to_owned(),
            QueryKind::Address => "address".to_owned(),
            QueryKind::Unknown => "unknown".to_owned(),
        }
    }
}

/// A search request: the free-text query.
#[derive(Clone, Debug)]
pub struct SearchQuery {
    pub q: String,
}

/// The ASCII whitespace bytes trimmed off a query: tab, line feed,
/// vertical tab, form feed, carriage return, space.
pub open spec fn is_ascii_ws(b: u8) -> bool {
    b == 9 || b == 10 || b == 11 || b == 12 || b == 13 || b == 32
}

/// The query with leading whitespace removed.
pub open spec fn spec_trim_front(s: Seq<u8>) -> Seq<u8>
    decreases s.len(),
{
    if s.len() > 0 && is_ascii_ws(s.first()) {
        spec_trim_front(s.drop_first())
    } else {
        s
    }
}

/// The query with trailing whitespace removed.
pub open spec fn spec_trim_back(s: Seq<u8>) -> Seq<u8>
    decreases s.len(),
{
    if s.len() > 0 && is_ascii_ws(s.last()) {
        spec_trim_back(s.drop_last())
    } else {
        s
    }
}

/// The query with whitespace removed from both ends.
pub open spec fn spec_trimmed(s: Seq<u8>) -> Seq<u8> {
    spec_trim_back(spec_trim_front(s))
}

/// An ASCII decimal digit.
pub open spec fn is_digit(b: u8) -> bool {
    48 <= b <= 57
}

/// Every byte of the sequence is a decimal digit.
pub open spec fn all_digits(s: Seq<u8>) -> bool {
    forall|i: int| 0 <= i < s.len() ==> is_digit(#[trigger] s[i])
}

/// The numeric value of a decimal digit string.
pub open spec fn dec_value(s: Seq<u8>) -> int
    decreases s.len(),
{
    if s.len() == 0 {
        0
    } else {
        dec_value(s.drop_last()) * 10 + s.last() - 48
    }
}

/// Whether a byte string parses as a `u64`, the way the standard
/// decimal parser accepts it: an optional leading `+`, then at least
/// one digit, and a value that fits in 64 bits. A too-large digit
/// string does not parse, and so falls through to the length
/// heuristics.
pub open spec fn spec_parses_as_u64(s: Seq<u8>) -> bool {
    let d = if s.len() > 0 && s[0] == 43 {
        s.drop_first()
    } else {
        s
    };
    d.len() > 0 && all_digits(d) && dec_value(d) <= u64::MAX
}

/// The classification rule, a pure function of the query bytes.
pub open spec fn spec_classify(q: Seq<u8>) -> QueryKind {
    let t = spec_trimmed(q);
    if spec_parses_as_u64(t) {
        QueryKind::Block
    } else if t.len() == 87 || t.len() == 88 {
        QueryKind::Transaction
    } else if 32 <= t.len() <= 44 {
        QueryKind::Address
    } else {
        QueryKind::Unknown
    }
}

/// 10 to the power `n`.
pub open spec fn pow10(n: nat) -> int
    decreases n,
{
    if n == 0 {
        1
    } else {
        10 * pow10((n - 1) as nat)
    }
}

proof fn lemma_pow10_values()
    ensures
        pow10(19) == 10000000000000000000,
        pow10(20) == 100000000000000000000,
{
    reveal_with_fuel(pow10, 21);
}

proof fn lemma_pow10_pos(n: nat)
    ensures
        pow10(n) >= 1,
    decreases n,
{
    if n > 0 {
        lemma_pow10_pos((n - 1) as nat);
    }
}

proof fn lemma_pow10_mono(a: nat, b: nat)
    requires
        a <= b,
    ensures
        1 <= pow10(a) <= pow10(b),
    decreases b,
{
    lemma_pow10_pos(a);
    if a < b {
        lemma_pow10_mono(a, (b - 1) as nat);
        lemma_pow10_pos((b - 1) as nat);
    }
}

/// A digit string with a nonzero first digit is worth at least 10 to
/// one less than its length.
proof fn lemma_dec_lower(s: Seq<u8>)
    requires
        all_digits(s),
        s.len() > 0,
        s[0] != 48,
    ensures
        dec_value(s) >= pow10((s.len() - 1) as nat),
    decreases s.len(),
{
    if s.len() == 1 {
        assert(s.drop_last().len() == 0);
        assert(dec_value(s.drop_last()) == 0);
        assert(s.last() == s[0]);
    } else {
        assert(all_digits(s.drop_last()));
        assert(s.drop_last()[0] == s[0]);
        lemma_dec_lower(s.drop_last());
        assert(s.last() - 48 >= 0);
    }
}

/// A string of zero digits is worth zero.
proof fn lemma_dec_zeros(s: Seq<u8>)
    requires
        forall|i: int| 0 <= i < s.len() ==> #[trigger] s[i] == 48,
    ensures
        dec_value(s) == 0,
    decreases s.len(),
{
    if s.len() > 0 {
        lemma_dec_zeros(s.drop_last());
    }
}

/// Leading zeros do not change a digit string's value.
proof fn lemma_dec_leading_zeros(s: Seq<u8>, z: int)
    requires
        0 <= z <= s.len(),
        forall|i: int| 0 <= i < z ==> #[trigger] s[i] == 48,
    ensures
        dec_value(s) == dec_value(s.subrange(z, s.len() as int)),
    decreases s.len(),
{
    if s.len() == z {
        lemma_dec_zeros(s);
        assert(s.subrange(z, s.len() as int) =~= Seq::<u8>::empty());
    } else {
        lemma_dec_leading_zeros(s.drop_last(), z);
        assert(s.subrange(z, s.len() as int).drop_last() =~= s.drop_last().subrange(
            z,
            s.drop_last().len() as int,
        ));
        assert(s.subrange(z, s.len() as int).last() == s.last());
    }
}

/// Removing `k` leading whitespace bytes, down to the first
/// non-whitespace byte, is exactly what the front trim does.
proof fn lemma_trim_front_skip(s: Seq<u8>, k: int)
    requires
        0 <= k <= s.len(),
        forall|i: int| 0 <= i < k ==> is_ascii_ws(#[trigger] s[i]),
        k == s.len() || !is_ascii_ws(s[k]),
    ensures
        spec_trim_front(s) == s.subrange(k, s.len() as int),
    decreases k,
{
    if k == 0 {
        assert(s.subrange(0, s.len() as int) =~= s);
    } else {
        assert(is_ascii_ws(s.first()));
        let t = s.drop_first();
        assert(forall|i: int| 0 <= i < k - 1 ==> is_ascii_ws(#[trigger] t[i]));
        lemma_trim_front_skip(t, k - 1);
        assert(t.subrange(k - 1, t.len() as int) =~= s.subrange(k, s.len() as int));
    }
}

/// Keeping the first `k` bytes, back to the last non-whitespace
/// byte, is exactly what the back trim does.
proof fn lemma_trim_back_take(s: Seq<u8>, k: int)
    requires
        0 <= k <= s.len(),
        forall|i: int| k <= i < s.len() ==> is_ascii_ws(#[trigger] s[i]),
        k == 0 || !is_ascii_ws(s[k - 1]),
    ensures
        spec_trim_back(s) == s.subrange(0, k),
    decreases s.len(),
{
    if k == s.len() {
        assert(s.subrange(0, k) =~= s);
    } else {
        assert(is_ascii_ws(s.last()));
        lemma_trim_back_take(s.drop_last(), k);
        assert(s.drop_last().subrange(0, k) =~= s.subrange(0, k));
    }
}

fn is_ws_byte(b: u8) -> (r: bool)
    ensures
        r == is_ascii_ws(b),
{
    b == 9 || b == 10 || b == 11 || b == 12 || b == 13 || b == 32
}

/// Trim ASCII whitespace off both ends of the query bytes.
pub fn trim_ascii(q: &[u8]) -> (r: Vec<u8>)
    ensures
        r@ == spec_trimmed(q@),
{
    let n = q.len();
    let mut lo: usize = 0;
    while lo < n && is_ws_byte(q[lo])
        invariant
            lo <= n,
            n == q@.len(),
            forall|i: int| 0 <= i < lo ==> is_ascii_ws(#[trigger] q@[i]),
        decreases n - lo,
    {
        lo = lo + 1;
    }
    proof {
        lemma_trim_front_skip(q@, lo as int);
    }
    let ghost f = spec_trim_front(q@);
    let mut hi: usize = n;
    while hi > lo && is_ws_byte(q[hi - 1])
        invariant
            lo <= hi <= n,
            n == q@.len(),
            forall|i: int| hi <= i < n ==> is_ascii_ws(#[trigger] q@[i]),
        decreases hi,
    {
        hi = hi - 1;
    }
    proof {
        assert(forall|i: int|
            hi - lo <= i < f.len() ==> is_ascii_ws(#[trigger] f[i]));
        lemma_trim_back_take(f, hi - lo);
        assert(f.subrange(0, hi - lo) =~= q@.subrange(lo as int, hi as int));
    }
    let mut out: Vec<u8> = Vec::new();
    let mut i: usize = lo;
    while i < hi
        invariant
            lo <= i <= hi <= n,
            n == q@.len(),
            out@.len() == i - lo,
            forall|j: int| 0 <= j < out@.len() ==> out@[j] == q@[lo + j],
        decreases hi - i,
    {
        out.push(q[i]);
        i = i + 1;
    }
    proof {
        assert(out@ =~= q@.subrange(lo as int, hi as int));
    }
    out
}

/// Whether the byte string parses as a `u64`: optional `+`, digits,
/// value within 64 bits.
pub fn parses_as_u64(t: &[u8]) -> (r: bool)
    ensures
        r == spec_parses_as_u64(t@),
{
    let n = t.len();
    let start: usize = if n > 0 && t[0] == 43 {
        1
    } else {
        0
    };
    let ghost d = if t@.len() > 0 && t@[0] == 43 {
        t@.drop_first()
    } else {
        t@
    };
    proof {
        assert(d =~= t@.subrange(start as int, n as int));
    }
    if start == n {
        return false;
    }
    let mut i: usize = start;
    while i < n
        invariant
            start <= i <= n,
            n == t@.len(),
            d == (if t@.len() > 0 && t@[0] == 43 {
                t@.drop_first()
            } else {
                t@
            }),
            d == t@.subrange(start as int, n as int),
            start as int == (if t@.len() > 0 && t@[0] == 43 {
                1int
            } else {
                0int
            }),
            forall|j: int| start <= j < i ==> is_digit(#[trigger] t@[j]),
        decreases n - i,
    {
        let b = t[i];
        if !(b >= 48 && b <= 57) {
            proof {
                assert(d[i - start] == t@[i as int]);
                assert(!all_digits(d));
            }
            return false;
        }
        i = i + 1;
    }
    proof {
        assert forall|j: int| 0 <= j < d.len() implies is_digit(#[trigger] d[j]) by {
            assert(d[j] == t@[start + j]);
        }
        assert(all_digits(d));
    }
    let mut z: usize = start;
    while z < n && t[z] == 48
        invariant
            start <= z <= n,
            n == t@.len(),
            forall|j: int| start <= j < z ==> #[trigger] t@[j] == 48,
        decreases n - z,
    {
        z = z + 1;
    }
    let ghost sig = t@.subrange(z as int, n as int);
    proof {
        assert forall|j: int| 0 <= j < z - start implies #[trigger] d[j] == 48 by {
            assert(d[j] == t@[start + j]);
        }
        lemma_dec_leading_zeros(d, z - start);
        assert(d.subrange(z - start, d.len() as int) =~= sig);
        assert forall|j: int| 0 <= j < sig.len() implies is_digit(#[trigger] sig[j]) by {
            assert(sig[j] == t@[z + j]);
        }
    }
    let m = n - z;
    if m > 20 {
        proof {
            assert(sig[0] == t@[z as int]);
            lemma_dec_lower(sig);
            lemma_pow10_mono(20, (sig.len() - 1) as nat);
            lemma_pow10_values();
        }
        return false;
    }
    let mut acc: u128 = 0;
    let mut j: usize = z;
    proof {
        assert(t@.subrange(z as int, z as int) =~= Seq::<u8>::empty());
        lemma_pow10_values();
    }
    while j < n
        invariant
            z <= j <= n,
            n == t@.len(),
            n - z <= 20,
            forall|jj: int| z <= jj < n ==> is_digit(#[trigger] t@[jj]),
            acc == dec_value(t@.subrange(z as int, j as int)),
            acc < pow10((j - z) as nat),
            pow10(20) == 100000000000000000000,
        decreases n - j,
    {
        let ghost prefix = t@.subrange(z as int, j as int);
        proof {
            lemma_pow10_mono((j - z) as nat, 19);
            lemma_pow10_values();
        }
        let digit = t[j] - 48;
        acc = acc * 10 + (digit as u128);
        proof {
            let next = t@.subrange(z as int, j + 1);
            assert(next.drop_last() =~= prefix);
            assert(next.last() == t@[j as int]);
            lemma_pow10_mono(((j - z) + 1) as nat, 20);
        }
        j = j + 1;
    }
    proof {
        assert(t@.subrange(z as int, n as int) =~= sig);
    }
    acc <= u64::MAX as u128
}

/// Classify a free-text search query without any network call.
///
/// The trimmed query is a block number when it parses as a `u64`;
/// otherwise its byte length decides: 87 or 88 looks like a
/// transaction signature, 32 ..= 44 like an account address, and
/// anything else is unknown.
pub fn classify_query(q: &[u8]) -> (k: QueryKind)
    ensures
        k == spec_classify(q@),
{
    let t = trim_ascii(q);
    let numeric = parses_as_u64(t.as_slice());
    let n = t.len();
    if numeric {
        QueryKind::Block
    } else if n == 87 || n == 88 {
        QueryKind::Transaction
    } else if n >= 32 && n <= 44 {
        QueryKind::Address
    } else {
        QueryKind::Unknown
    }
}

} // verus!
