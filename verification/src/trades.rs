//! Preparing fetched market trades for display: order them by their time
//! stamp and keep only the first thirty.
//!
//! The exchange's time stamps are RFC 3339 strings, so ordering them as
//! byte strings orders them chronologically; the comparison and the sort
//! are verified down to the bytes.

use vstd::prelude::*;

verus! {

use vstd::multiset::Multiset;
use vstd::seq_lib::group_to_multiset_ensures;
use vstd::slice::slice_index_get;
use vstd::utf8::encode_utf8;
use crate::models::MarketTrade;

/// Lexicographic order on byte strings: the empty string first, then by
/// the first differing byte; a proper prefix comes before its extensions.
pub open spec fn bytes_lex_le(a: Seq<u8>, b: Seq<u8>) -> bool
    decreases a.len(),
{
    if a.len() == 0 {
        true
    } else if b.len() == 0 {
        false
    } else if a[0] < b[0] {
        true
    } else if a[0] > b[0] {
        false
    } else {
        bytes_lex_le(a.skip(1), b.skip(1))
    }
}

/// Trade order for display: by the UTF-8 bytes of the time stamps.
pub open spec fn time_le(a: MarketTrade, b: MarketTrade) -> bool {
    bytes_lex_le(encode_utf8(a.time@), encode_utf8(b.time@))
}

/// A trade sequence in display order: each trade no later than the next.
pub open spec fn sorted_by_time(s: Seq<MarketTrade>) -> bool {
    forall|i: int, j: int| 0 <= i < j < s.len() ==> time_le(#[trigger] s[i], #[trigger] s[j])
}

/// Skipping an equal prefix does not change how two byte strings compare.
proof fn lemma_lex_skip(a: Seq<u8>, b: Seq<u8>, i: int)
    requires
        0 <= i <= a.len(),
        i <= b.len(),
        forall|j: int| 0 <= j < i ==> a[j] == b[j],
    ensures
        bytes_lex_le(a, b) == bytes_lex_le(a.skip(i), b.skip(i)),
    decreases i,
{
    if i == 0 {
        assert(a.skip(0) =~= a);
        assert(b.skip(0) =~= b);
    } else {
        assert(a[0] == b[0]);
        assert forall|j: int| 0 <= j < i - 1 implies a.skip(1)[j] == b.skip(1)[j] by {
            assert(a[j + 1] == b[j + 1]);
        }
        lemma_lex_skip(a.skip(1), b.skip(1), i - 1);
        assert(a.skip(1).skip(i - 1) =~= a.skip(i));
        assert(b.skip(1).skip(i - 1) =~= b.skip(i));
    }
}

/// The lexicographic order is total.
proof fn lemma_lex_total(a: Seq<u8>, b: Seq<u8>)
    ensures
        bytes_lex_le(a, b) || bytes_lex_le(b, a),
    decreases a.len(),
{
    if a.len() == 0 {
    } else if b.len() == 0 {
    } else if a[0] == b[0] {
        lemma_lex_total(a.skip(1), b.skip(1));
    }
}

/// The lexicographic order is transitive.
proof fn lemma_lex_trans(a: Seq<u8>, b: Seq<u8>, c: Seq<u8>)
    requires
        bytes_lex_le(a, b),
        bytes_lex_le(b, c),
    ensures
        bytes_lex_le(a, c),
    decreases a.len(),
{
    if a.len() == 0 {
    } else {
        if a[0] == b[0] && b[0] == c[0] {
            lemma_lex_trans(a.skip(1), b.skip(1), c.skip(1));
        }
    }
}

/// Trade order is total.
proof fn lemma_time_le_total(a: MarketTrade, b: MarketTrade)
    ensures
        time_le(a, b) || time_le(b, a),
{
    lemma_lex_total(encode_utf8(a.time@), encode_utf8(b.time@));
}

/// Trade order is transitive.
proof fn lemma_time_le_trans(a: MarketTrade, b: MarketTrade, c: MarketTrade)
    requires
        time_le(a, b),
        time_le(b, c),
    ensures
        time_le(a, c),
{
    lemma_lex_trans(encode_utf8(a.time@), encode_utf8(b.time@), encode_utf8(c.time@));
}

/// Compare two byte strings lexicographically.
fn bytes_le(a: &[u8], b: &[u8]) -> (r: bool)
    ensures
        r == bytes_lex_le(a@, b@),
{
    let a_len = a.len();
    let b_len = b.len();
    let mut i: usize = 0;
    while i < a_len && i < b_len
        invariant
            a_len == a@.len(),
            b_len == b@.len(),
            i <= a_len,
            i <= b_len,
            forall|j: int| 0 <= j < i ==> a@[j] == b@[j],
        decreases a_len - i,
    {
        let x = *slice_index_get(a, i);
        let y = *slice_index_get(b, i);
        if x < y {
            proof {
                lemma_lex_skip(a@, b@, i as int);
            }
            return true;
        }
        if x > y {
            proof {
                lemma_lex_skip(a@, b@, i as int);
            }
            return false;
        }
        i = i + 1;
    }
    proof {
        lemma_lex_skip(a@, b@, i as int);
    }
    a_len <= b_len
}

/// Compare two trades by time stamp.
fn trade_time_le(a: &MarketTrade, b: &MarketTrade) -> (r: bool)
    ensures
        r == time_le(*a, *b),
{
    bytes_le(a.time.as_str().as_bytes(), b.time.as_str().as_bytes())
}

/// Order trades by their time stamp, earliest first. Trades with equal
/// time stamps may come out in any order, as with an unstable sort: the
/// result is some time-ordered arrangement of exactly the given trades.
pub fn sort_trades_by_time(trades: Vec<MarketTrade>) -> (r: Vec<MarketTrade>)
    ensures
        r@.len() == trades@.len(),
        sorted_by_time(r@),
        r@.to_multiset() == trades@.to_multiset(),
{
    let ghost orig = trades@;
    let mut src = trades;
    let mut r: Vec<MarketTrade> = Vec::new();
    proof {
        broadcast use group_to_multiset_ensures, vstd::multiset::group_multiset_axioms;

        assert(r@.to_multiset() =~= Multiset::<MarketTrade>::empty());
        assert(r@.to_multiset().add(src@.to_multiset()) =~= src@.to_multiset());
    }
    while src.len() > 0
        invariant
            sorted_by_time(r@),
            r@.to_multiset().add(src@.to_multiset()) == orig.to_multiset(),
            r@.len() + src@.len() == orig.len(),
        decreases src@.len(),
    {
        let ghost src_before = src@;
        let x = match src.pop() {
            Option::Some(v) => v,
            Option::None => {
                proof {
                    assert(false);
                }
                return r;
            },
        };
        proof {
            broadcast use group_to_multiset_ensures;

            assert(src_before =~= src@.push(x));
        }
        let mut j: usize = 0;
        loop
            invariant
                j <= r@.len(),
                forall|k: int| 0 <= k < j ==> time_le(#[trigger] r@[k], x),
            ensures
                j <= r@.len(),
                forall|k: int| 0 <= k < j ==> time_le(#[trigger] r@[k], x),
                j == r@.len() || !time_le(r@[j as int], x),
            decreases r@.len() - j,
        {
            if j == r.len() {
                break;
            }
            if !trade_time_le(&r[j], &x) {
                break;
            }
            j = j + 1;
        }
        let ghost r_before = r@;
        proof {
            broadcast use group_to_multiset_ensures;

            if (j as int) < r_before.len() {
                lemma_time_le_total(r_before[j as int], x);
                assert forall|m: int| j <= m < r_before.len() implies time_le(
                    x,
                    #[trigger] r_before[m],
                ) by {
                    if j < m {
                        lemma_time_le_trans(x, r_before[j as int], r_before[m]);
                    }
                }
            }
        }
        r.insert(j, x);
        proof {
            assert forall|i: int, k: int| 0 <= i < k < r@.len() implies time_le(
                #[trigger] r@[i],
                #[trigger] r@[k],
            ) by {
                if k < j {
                    assert(r@[i] == r_before[i] && r@[k] == r_before[k]);
                } else if k == j {
                    assert(r@[i] == r_before[i] && r@[k] == x);
                } else if i < j {
                    assert(r@[i] == r_before[i] && r@[k] == r_before[k - 1]);
                } else if i == j {
                    assert(r@[i] == x && r@[k] == r_before[k - 1]);
                } else {
                    assert(r@[i] == r_before[i - 1] && r@[k] == r_before[k - 1]);
                }
            }
            assert(r@.to_multiset().add(src@.to_multiset()) =~= orig.to_multiset()) by {
                broadcast use group_to_multiset_ensures, vstd::multiset::group_multiset_axioms;

            }
        }
    }
    proof {
        broadcast use group_to_multiset_ensures, vstd::multiset::group_multiset_axioms;

        assert(src@.to_multiset() =~= Multiset::<MarketTrade>::empty());
        assert(r@.to_multiset() =~= orig.to_multiset());
    }
    r
}

/// How many trades the display shows of a fetch that returned `n`.
pub open spec fn display_count(n: int) -> int {
    if n <= 30 {
        n
    } else {
        30
    }
}

/// The trades the display shows: the thirty earliest of the fetched
/// trades — fewer if fewer came — in time order. The result is the prefix
/// of some time-ordered arrangement of exactly the fetched trades.
pub fn top_trades_for_display(trades: Vec<MarketTrade>) -> (r: Vec<MarketTrade>)
    ensures
        r@.len() == display_count(trades@.len() as int),
        sorted_by_time(r@),
        (exists|s: Seq<MarketTrade>|
            {
                &&& sorted_by_time(s)
                &&& s.to_multiset() == trades@.to_multiset()
                &&& r@ == s.take(display_count(trades@.len() as int))
            }),
{
    let ghost orig_len = trades@.len() as int;
    let mut s = sort_trades_by_time(trades);
    let ghost full = s@;
    if s.len() > 30 {
        s.truncate(30);
    }
    proof {
        assert(s@ =~= full.take(display_count(orig_len)));
        assert(sorted_by_time(s@));
    }
    s
}

} // verus!
