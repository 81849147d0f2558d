//! Which markets the agent evaluates: options markets only. A market whose
//! symbol names a perpetual is left alone; every other market carries a
//! resting options order worth repricing and safeguarding.

use vstd::prelude::*;

verus! {

/// The bytes of the marker that names a perpetual market: `-PERP`.
pub open spec fn perp_marker() -> Seq<u8> {
    seq![45u8, 80u8, 69u8, 82u8, 80u8]
}

/// Whether the needle occurs in the haystack starting at position `i`.
pub open spec fn matches_at(h: Seq<u8>, n: Seq<u8>, i: int) -> bool {
    &&& 0 <= i
    &&& i + n.len() <= h.len()
    &&& h.subrange(i, i + n.len()) == n
}

/// Whether the needle occurs anywhere in the haystack.
pub open spec fn contains_seq(h: Seq<u8>, n: Seq<u8>) -> bool {
    exists|i: int| matches_at(h, n, i)
}

/// Whether the window of the haystack at `i` equals the needle.
fn window_eq(h: &Vec<u8>, i: usize, n: &Vec<u8>) -> (r: bool)
    requires
        i + n@.len() <= h@.len(),
    ensures
        r == (h@.subrange(i as int, i as int + n@.len()) == n@),
{
    let mut j: usize = 0;
    while j < n.len()
        invariant
            i + n.len() <= h.len(),
            0 <= j <= n.len(),
            forall|k: int| 0 <= k < j ==> h@[i + k] == n@[k],
        decreases n@.len() - j,
    {
        if h[i + j] != n[j] {
            assert(h@.subrange(i as int, i as int + n@.len())[j as int] == h@[i + j]);
            return false;
        }
        j = j + 1;
    }
    assert(h@.subrange(i as int, i as int + n@.len()) =~= n@);
    true
}

/// Whether the needle's bytes occur contiguously in the haystack.
pub fn contains_bytes(h: &Vec<u8>, n: &Vec<u8>) -> (r: bool)
    ensures
        r == contains_seq(h@, n@),
{
    if n.len() == 0 {
        proof {
            assert(h@.subrange(0, 0) =~= n@);
            assert(matches_at(h@, n@, 0));
        }
        return true;
    }
    if n.len() > h.len() {
        return false;
    }
    let end = h.len() - n.len();
    let mut i: usize = 0;
    while i <= end
        invariant
            1 <= n.len() <= h.len(),
            end == h.len() - n.len(),
            0 <= i <= end + 1,
            forall|k: int| 0 <= k < i ==> !matches_at(h@, n@, k),
        decreases end + 1 - i,
    {
        if window_eq(h, i, n) {
            assert(matches_at(h@, n@, i as int));
            return true;
        }
        i = i + 1;
    }
    assert(forall|k: int| matches_at(h@, n@, k) ==> 0 <= k <= end as int);
    false
}

/// Whether a market symbol names an options market: any market whose symbol
/// does not carry the perpetual marker.
pub open spec fn is_option_market_spec(market: Seq<u8>) -> bool {
    !contains_seq(market, perp_marker())
}

/// Decide from the symbol's bytes whether a market is an options market and
/// so subject to the reprice and liquidity decisions.
pub fn is_option_market(market: &Vec<u8>) -> (r: bool)
    ensures
        r == is_option_market_spec(market@),
{
    let mut needle: Vec<u8> = Vec::new();
    needle.push(45u8);
    needle.push(80u8);
    needle.push(69u8);
    needle.push(82u8);
    needle.push(80u8);
    proof {
        assert(needle@ =~= perp_marker());
    }
    !contains_bytes(market, &needle)
}

} // verus!
