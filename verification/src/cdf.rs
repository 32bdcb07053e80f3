//! The discrete CDF sampler used for importance sampling over a
//! finite weighted set.
//!
//! The structure is built incrementally: `insert` appends weighted
//! items, `prepare` freezes the distribution, `sample` reads it.
//! Weights and densities are binary32 bit patterns.  Normalizing the
//! weights and accumulating the running densities is floating-point
//! arithmetic and is handed in by the caller; everything the scan
//! logic decides — the backward tail-collapse that forces a trailing
//! run of zero-weight items (and the positive-weight item just before
//! them) to density exactly 1.0, the idempotence of preparation, and
//! the forward first-match scan of `sample` — is stated and proved
//! here exactly.

use vstd::prelude::*;

use crate::binary32::ONE_BITS;
use crate::binary32::ZERO_BITS;
use crate::binary32::ge_bits;
use crate::binary32::gt_bits;
use crate::binary32::ge;
use crate::binary32::gt;

verus! {

/// The index at which the backward tail-collapse of `prepare` begins:
/// scanning the weights from the end, every index is collapsed up to
/// and including the first one holding a strictly positive weight; if
/// no weight is positive, every index is collapsed.
pub open spec fn collapse_start(ws: Seq<u32>) -> int
    decreases ws.len(),
{
    if ws.len() == 0 {
        0
    } else if gt_bits(ws.last(), ZERO_BITS) {
        ws.len() - 1
    } else {
        collapse_start(ws.drop_last())
    }
}

/// The collapse never starts past the last index.
pub proof fn lemma_collapse_start_range(ws: Seq<u32>)
    ensures
        0 <= collapse_start(ws),
        ws.len() > 0 ==> collapse_start(ws) < ws.len(),
        ws.len() == 0 ==> collapse_start(ws) == 0,
    decreases ws.len(),
{
    if ws.len() > 0 && !gt_bits(ws.last(), ZERO_BITS) {
        lemma_collapse_start_range(ws.drop_last());
    }
}

/// The backward scan stops exactly at the last strictly positive
/// weight: when every weight after index `k` is zero-or-less and the
/// weight at `k` is positive, the collapse begins at `k` — so after
/// `prepare` the trailing run of zero-weight items, and the one
/// positive-weight item just before it, all carry density exactly 1.0.
pub proof fn lemma_collapse_start_at_last_positive(ws: Seq<u32>, k: int)
    requires
        0 <= k < ws.len(),
        gt_bits(ws[k], ZERO_BITS),
        forall|j: int| k < j < ws.len() ==> !gt_bits(ws[j], ZERO_BITS),
    ensures
        collapse_start(ws) == k,
    decreases ws.len(),
{
    if k < ws.len() - 1 {
        lemma_collapse_start_at_last_positive(ws.drop_last(), k);
    }
}

/// With no strictly positive weight at all, the collapse covers the
/// whole density sequence.
pub proof fn lemma_collapse_start_all_nonpositive(ws: Seq<u32>)
    requires
        forall|j: int| 0 <= j < ws.len() ==> !gt_bits(ws[j], ZERO_BITS),
    ensures
        collapse_start(ws) == 0,
    decreases ws.len(),
{
    if ws.len() > 0 {
        lemma_collapse_start_all_nonpositive(ws.drop_last());
    }
}

/// A normalized, piecewise-constant discrete probability distribution
/// over items of type `T`, built incrementally and sampled with one
/// uniform random value.
pub struct CDF<T> {
    items: Vec<(T, u32)>,
    densities: Vec<u32>,
    prepared: bool,
}

impl<T: Copy> CDF<T> {
    /// The items inserted so far, in insertion order, each with its
    /// weight pattern (raw before `prepare`, normalized after).
    pub closed spec fn items_seq(self) -> Seq<(T, u32)> {
        self.items@
    }

    /// The cumulative densities, empty until `prepare` has run.
    pub closed spec fn densities_seq(self) -> Seq<u32> {
        self.densities@
    }

    /// Whether `prepare` has run.
    pub closed spec fn prepared_spec(self) -> bool {
        self.prepared
    }

    /// How many pairs the forward scan of `sample` walks: items and
    /// densities in step, up to the shorter of the two.
    pub open spec fn scan_len(self) -> int {
        if self.items_seq().len() <= self.densities_seq().len() {
            self.items_seq().len() as int
        } else {
            self.densities_seq().len() as int
        }
    }

    /// An empty distribution, ready to accept insertions.
    pub fn new() -> (c: CDF<T>)
        ensures
            c.items_seq().len() == 0,
            c.densities_seq().len() == 0,
            !c.prepared_spec(),
    {
        CDF { items: Vec::new(), densities: Vec::new(), prepared: false }
    }

    /// How many items have been inserted.
    pub fn len(&self) -> (n: usize)
        ensures
            n == self.items_seq().len(),
    {
        self.items.len()
    }

    /// Whether the distribution has been prepared.
    pub fn is_prepared(&self) -> (p: bool)
        ensures
            p == self.prepared_spec(),
    {
        self.prepared
    }

    /// Append one item with its raw weight.  Legal only while the
    /// distribution is still building, with a non-negative weight.
    pub fn insert(&mut self, item: T, weight: u32)
        requires
            !old(self).prepared_spec(),
            ge_bits(weight, ZERO_BITS),
        ensures
            final(self).items_seq() == old(self).items_seq().push((item, weight)),
            final(self).densities_seq() == old(self).densities_seq(),
            !final(self).prepared_spec(),
    {
        self.items.push((item, weight));
    }

    /// Freeze the distribution.  The caller hands in the normalized
    /// weights (each raw weight divided by the weight sum) and the
    /// running cumulative densities, one of each per item; this
    /// function installs them and forces the tail collapse: from
    /// `collapse_start` of the normalized weights on, every density
    /// becomes exactly 1.0, so the last density is exactly 1.0 and no
    /// rounding drift survives.  A second call is a no-op.
    pub fn prepare(&mut self, weights: Vec<u32>, densities: Vec<u32>)
        requires
            !old(self).prepared_spec() ==> weights@.len() == old(self).items_seq().len()
                && densities@.len() == old(self).items_seq().len(),
        ensures
            old(self).prepared_spec() ==> *final(self) == *old(self),
            !old(self).prepared_spec() ==> {
                let n = old(self).items_seq().len() as int;
                let cs = collapse_start(weights@);
                &&& final(self).prepared_spec()
                &&& final(self).items_seq().len() == n
                &&& forall|i: int|
                    0 <= i < n ==> #[trigger] final(self).items_seq()[i] == (
                    old(self).items_seq()[i].0,
                    weights@[i],
                )
                &&& final(self).densities_seq().len() == n
                &&& forall|i: int|
                    0 <= i < cs ==> #[trigger] final(self).densities_seq()[i] == densities@[i]
                &&& forall|i: int|
                    cs <= i < n ==> #[trigger] final(self).densities_seq()[i] == ONE_BITS
                &&& n > 0 ==> final(self).densities_seq().last() == ONE_BITS
            },
    {
        if self.prepared {
            return;
        }
        let ghost pre = *self;
        let n = self.items.len();
        let mut i: usize = 0;
        while i < n
            invariant
                i <= n,
                n == self.items@.len(),
                n == pre.items@.len(),
                weights@.len() == n,
                forall|j: int|
                    0 <= j < i ==> #[trigger] self.items@[j] == (pre.items@[j].0, weights@[j]),
                forall|j: int| i <= j < n ==> #[trigger] self.items@[j] == pre.items@[j],
                self.densities == pre.densities,
                self.prepared == pre.prepared,
            decreases n - i,
        {
            let (item, _) = self.items[i];
            self.items.set(i, (item, weights[i]));
            i = i + 1;
        }
        let cs = find_collapse_start(&weights);
        proof {
            lemma_collapse_start_range(weights@);
        }
        let ghost dens0 = densities@;
        self.densities = densities;
        let mut j: usize = cs;
        while j < self.densities.len()
            invariant
                cs as int == collapse_start(weights@),
                cs <= j,
                j <= self.densities@.len(),
                cs <= n,
                self.densities@.len() == n,
                dens0.len() == n,
                weights@.len() == n,
                n == self.items@.len(),
                n == pre.items@.len(),
                forall|k: int|
                    0 <= k < n ==> #[trigger] self.items@[k] == (pre.items@[k].0, weights@[k]),
                self.prepared == pre.prepared,
                forall|k: int| 0 <= k < cs ==> #[trigger] self.densities@[k] == dens0[k],
                forall|k: int| cs <= k < j ==> #[trigger] self.densities@[k] == ONE_BITS,
                forall|k: int| j <= k < n ==> #[trigger] self.densities@[k] == dens0[k],
            decreases self.densities@.len() - j,
        {
            self.densities.set(j, ONE_BITS);
            j = j + 1;
        }
        self.prepared = true;
    }

    /// Draw the item selected by a uniform random value `x` in
    /// [0, 1): the forward scan returns the first pair whose
    /// cumulative density compares at least `x`, together with its
    /// normalized weight, and nothing when no density reaches `x`
    /// (an `x` past 1.0, or an empty or unprepared distribution).
    pub fn sample(&self, x: u32) -> (r: Option<(T, u32)>)
        ensures
            match r {
                Some(p) => exists|i: int|
                    0 <= i < self.scan_len() && #[trigger] ge_bits(self.densities_seq()[i], x)
                        && (forall|j: int| 0 <= j < i ==> !ge_bits(self.densities_seq()[j], x))
                        && p == self.items_seq()[i],
                None => forall|i: int|
                    0 <= i < self.scan_len() ==> !(#[trigger] ge_bits(self.densities_seq()[i], x)),
            },
    {
        let n = if self.items.len() <= self.densities.len() {
            self.items.len()
        } else {
            self.densities.len()
        };
        let mut i: usize = 0;
        while i < n
            invariant
                i <= n,
                n == self.scan_len(),
                n <= self.items@.len(),
                n <= self.densities@.len(),
                forall|j: int| 0 <= j < i ==> !(#[trigger] ge_bits(self.densities@[j], x)),
            decreases n - i,
        {
            if ge(self.densities[i], x) {
                return Some(self.items[i]);
            }
            i = i + 1;
        }
        None
    }

    /// The density at index `i`, when there is one.
    pub fn density_at(&self, i: usize) -> (d: Option<u32>)
        ensures
            i < self.densities_seq().len() ==> d == Some(self.densities_seq()[i as int]),
            i >= self.densities_seq().len() ==> d is None,
    {
        if i < self.densities.len() {
            Some(self.densities[i])
        } else {
            None
        }
    }

    /// The weight stored at index `i`, when there is one (raw before
    /// `prepare`, normalized after).
    pub fn weight_at(&self, i: usize) -> (w: Option<u32>)
        ensures
            i < self.items_seq().len() ==> w == Some(self.items_seq()[i as int].1),
            i >= self.items_seq().len() ==> w is None,
    {
        if i < self.items.len() {
            Some(self.items[i].1)
        } else {
            None
        }
    }
}

/// The index where the backward scan of `prepare` stops: walking from
/// the last weight towards the front, the first strictly positive
/// weight ends the walk; with no positive weight the walk reaches
/// index 0.
fn find_collapse_start(ws: &Vec<u32>) -> (idx: usize)
    ensures
        idx as int == collapse_start(ws@),
{
    let mut i: usize = ws.len();
    proof {
        assert(ws@.take(ws@.len() as int) =~= ws@);
    }
    while i > 0
        invariant
            i <= ws@.len(),
            collapse_start(ws@) == collapse_start(ws@.take(i as int)),
        decreases i,
    {
        if gt(ws[i - 1], ZERO_BITS) {
            return i - 1;
        }
        proof {
            assert(ws@.take(i as int).drop_last() =~= ws@.take(i as int - 1));
        }
        i = i - 1;
    }
    0
}

/// Once a distribution is prepared its last density is exactly 1.0,
/// so every sampling value that compares at most 1.0 finds an item:
/// some scanned density compares at least `x`, and `sample` therefore
/// returns one.
pub proof fn lemma_prepared_sample_hits<T: Copy>(c: CDF<T>, x: u32)
    requires
        c.densities_seq().len() > 0,
        c.items_seq().len() == c.densities_seq().len(),
        c.densities_seq().last() == ONE_BITS,
        crate::binary32::le_bits(x, ONE_BITS),
    ensures
        exists|i: int| 0 <= i < c.scan_len() && #[trigger] ge_bits(c.densities_seq()[i], x),
{
    assert(ge_bits(c.densities_seq()[c.densities_seq().len() - 1], x));
}

} // verus!
