//! Rounding of cache and memory sizes to a fixed set of bins, so that a stored
//! row cannot single out a machine by an unusual size.

use vstd::prelude::*;

verus! {

pub const KB: u64 = 1024;

pub const MB: u64 = 1048576;

pub const GB: u64 = 1073741824;

/// The cache bins, ascending, in bytes.
pub open spec fn cache_bins() -> Seq<u64> {
    seq![
        0,
        KB,
        (2 * KB) as u64,
        (4 * KB) as u64,
        (8 * KB) as u64,
        (16 * KB) as u64,
        (32 * KB) as u64,
        MB,
        (4 * MB) as u64,
        (8 * MB) as u64,
        (16 * MB) as u64,
        (32 * MB) as u64,
        (64 * MB) as u64,
        (128 * MB) as u64,
        (256 * MB) as u64,
        u64::MAX,
    ]
}

/// The memory bins, ascending, in bytes.
pub open spec fn mem_bins() -> Seq<u64> {
    seq![GB, (2 * GB) as u64, (4 * GB) as u64, (8 * GB) as u64, (16 * GB) as u64, u64::MAX]
}

pub open spec fn ascending(bins: Seq<u64>) -> bool {
    forall|i: int, j: int| 0 <= i < j < bins.len() ==> bins[i] < bins[j]
}

/// `r` is the largest bin that is at most `x`, or 0 where every bin is above `x`.
pub open spec fn is_floor_bin(bins: Seq<u64>, x: u64, r: u64) -> bool {
    if exists|i: int| 0 <= i < bins.len() && bins[i] <= x {
        &&& bins.contains(r)
        &&& r <= x
        &&& forall|j: int| 0 <= j < bins.len() && bins[j] <= x ==> bins[j] <= r
    } else {
        r == 0
    }
}

/// The last bin, going down from the top, that is at most `x`; 0 if there is
/// none.
pub open spec fn floor_bin(bins: Seq<u64>, x: u64) -> u64
    decreases bins.len(),
{
    if bins.len() == 0 {
        0
    } else if bins.last() <= x {
        bins.last()
    } else {
        floor_bin(bins.drop_last(), x)
    }
}

/// Of ascending bins, `floor_bin` is the largest bin at most `x`.
pub proof fn lemma_floor_bin_is_largest_below(bins: Seq<u64>, x: u64)
    requires
        ascending(bins),
    ensures
        is_floor_bin(bins, x, floor_bin(bins, x)),
    decreases bins.len(),
{
    if bins.len() > 0 {
        let rest = bins.drop_last();
        lemma_floor_bin_is_largest_below(rest, x);
        if bins.last() <= x {
            assert(bins[bins.len() - 1] == bins.last());
            assert forall|j: int| 0 <= j < bins.len() && bins[j] <= x implies bins[j] <= bins.last() by {
                if j < bins.len() - 1 {
                    assert(bins[j] < bins[bins.len() - 1]);
                }
            }
        } else {
            assert forall|j: int| 0 <= j < bins.len() && bins[j] <= x implies j < rest.len() && rest[j] == bins[j] by {
            }
            if exists|i: int| 0 <= i < rest.len() && rest[i] <= x {
                let i = choose|i: int| 0 <= i < rest.len() && rest[i] == floor_bin(rest, x);
                assert(bins[i] == floor_bin(rest, x));
            }
        }
    }
}

/// There is one largest bin at most `x`.
pub proof fn lemma_floor_bin_unique(bins: Seq<u64>, x: u64, r1: u64, r2: u64)
    requires
        is_floor_bin(bins, x, r1),
        is_floor_bin(bins, x, r2),
    ensures
        r1 == r2,
{
    if exists|i: int| 0 <= i < bins.len() && bins[i] <= x {
        let i1 = choose|i: int| 0 <= i < bins.len() && bins[i] == r1;
        let i2 = choose|i: int| 0 <= i < bins.len() && bins[i] == r2;
        assert(bins[i1] <= r2);
        assert(bins[i2] <= r1);
    }
}

/// Floor `input` to the largest bin that does not exceed it; 0 if there is none.
fn bin(input: u64, bins: &[u64]) -> (r: u64)
    requires
        ascending(bins@),
    ensures
        is_floor_bin(bins@, input, r),
        r == floor_bin(bins@, input),
{
    let mut out: u64 = 0;
    let mut i: usize = 0;
    while i < bins.len()
        invariant
            ascending(bins@),
            i <= bins@.len(),
            forall|j: int| 0 <= j < i ==> bins@[j] <= input,
            i == 0 ==> out == 0,
            i > 0 ==> out == bins@[i - 1],
        ensures
            i <= bins@.len(),
            forall|j: int| 0 <= j < i ==> bins@[j] <= input,
            i == 0 ==> out == 0,
            i > 0 ==> out == bins@[i - 1],
            i == bins@.len() || bins@[i as int] > input,
        decreases bins@.len() - i,
    {
        if bins[i] > input {
            break;
        }
        out = bins[i];
        i = i + 1;
    }
    proof {
        assert forall|j: int| 0 <= j < bins@.len() && bins@[j] <= input implies j < i by {
            if j >= i {
                assert(i == j || bins@[i as int] < bins@[j]);
            }
        }
        if i > 0 {
            assert(bins@[i - 1] == out);
            assert forall|j: int| 0 <= j < bins@.len() && bins@[j] <= input implies bins@[j]
                <= out by {
                assert(j < i);
                assert(j == i - 1 || bins@[j] < bins@[i - 1]);
            }
        }
    }
    proof {
        lemma_floor_bin_is_largest_below(bins@, input);
        lemma_floor_bin_unique(bins@, input, out, floor_bin(bins@, input));
    }
    out
}

/// Round a cache size, in bytes, down to one of the cache bins.
pub fn round_cache(cache: u64) -> (r: u64)
    ensures
        r == floor_bin(cache_bins(), cache),
{
    let bins: [u64; 16] = [
        0,
        KB,
        2 * KB,
        4 * KB,
        8 * KB,
        16 * KB,
        32 * KB,
        MB,
        4 * MB,
        8 * MB,
        16 * MB,
        32 * MB,
        64 * MB,
        128 * MB,
        256 * MB,
        u64::MAX,
    ];
    assert(bins@ =~= cache_bins());
    bin(cache, &bins)
}

/// Round a memory size, in bytes, down to one of the memory bins; 0 below the
/// smallest.
pub fn round_mem(mem: u64) -> (r: u64)
    ensures
        r == floor_bin(mem_bins(), mem),
{
    let bins: [u64; 6] = [GB, 2 * GB, 4 * GB, 8 * GB, 16 * GB, u64::MAX];
    assert(bins@ =~= mem_bins());
    bin(mem, &bins)
}

/// A rounded cache size never exceeds the size it came from, and is always one
/// of the cache bins (the smallest bin is 0, so every size has one below it).
pub proof fn lemma_round_cache_is_bin_below(x: u64)
    ensures
        floor_bin(cache_bins(), x) <= x,
        cache_bins().contains(floor_bin(cache_bins(), x)),
{
    assert(ascending(cache_bins()));
    lemma_floor_bin_is_largest_below(cache_bins(), x);
    assert(cache_bins()[0] <= x);
}

/// Rounding to ascending bins is monotone: a larger size never gets a smaller
/// bin.
pub proof fn lemma_floor_bin_monotone(bins: Seq<u64>, x: u64, y: u64)
    requires
        ascending(bins),
        x <= y,
    ensures
        floor_bin(bins, x) <= floor_bin(bins, y),
{
    lemma_floor_bin_is_largest_below(bins, x);
    lemma_floor_bin_is_largest_below(bins, y);
    if exists|i: int| 0 <= i < bins.len() && bins[i] <= x {
        let i = choose|i: int| 0 <= i < bins.len() && bins[i] == floor_bin(bins, x);
        assert(bins[i] <= y);
    }
}

/// A rounded memory size is monotone in the size it came from.
pub proof fn lemma_round_mem_monotone(x: u64, y: u64)
    requires
        x <= y,
    ensures
        floor_bin(mem_bins(), x) <= floor_bin(mem_bins(), y),
{
    assert(ascending(mem_bins()));
    lemma_floor_bin_monotone(mem_bins(), x, y);
}

} // verus!
