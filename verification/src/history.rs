//! Fixed-depth rolling sample histories.
//!
//! A [`HistorySeries`] is a sliding window over time: its length is fixed
//! at construction, and every push appends the newest sample and evicts
//! the oldest, so the window never grows and never shrinks.

use vstd::prelude::*;

use crate::units::SAMPLE_LIMIT;

verus! {

/// Largest depth a series may be built with; keeps index arithmetic in
/// the plot geometry inside 63 bits.
pub const DEPTH_LIMIT: usize = 0x8000_0000;

/// The window after one push: the oldest sample leaves on the left, the
/// new one enters on the right.
pub open spec fn pushed(s: Seq<u64>, v: u64) -> Seq<u64> {
    s.skip(1).push(v)
}

/// The window after pushing every value of `vs` in order.
pub open spec fn pushed_all(s: Seq<u64>, vs: Seq<u64>) -> Seq<u64>
    decreases vs.len(),
{
    if vs.len() == 0 {
        s
    } else {
        pushed_all(pushed(s, vs[0]), vs.skip(1))
    }
}

/// A fixed-depth rolling buffer of fixed-point samples, oldest first.
#[derive(Clone, Debug)]
pub struct HistorySeries {
    samples: Vec<u64>,
}

impl View for HistorySeries {
    type V = Seq<u64>;

    closed spec fn view(&self) -> Seq<u64> {
        self.samples@
    }
}

impl HistorySeries {
    /// Well-formed: non-empty, within the depth limit, and every sample
    /// within the fixed-point sample limit.
    pub open spec fn wf(&self) -> bool {
        &&& 1 <= self@.len() <= DEPTH_LIMIT
        &&& forall|i: int| 0 <= i < self@.len() ==> self@[i] <= SAMPLE_LIMIT
    }

    /// A series of `depth` copies of `fill`.
    pub fn new(depth: usize, fill: u64) -> (r: HistorySeries)
        requires
            1 <= depth <= DEPTH_LIMIT,
            fill <= SAMPLE_LIMIT,
        ensures
            r.wf(),
            r@.len() == depth,
            forall|i: int| 0 <= i < depth ==> r@[i] == fill,
    {
        HistorySeries { samples: vec![fill; depth] }
    }

    /// The fixed depth of the window.
    pub fn len(&self) -> (n: usize)
        ensures
            n == self@.len(),
    {
        self.samples.len()
    }

    /// The sample at position `i`, oldest first.
    pub fn get(&self, i: usize) -> (v: u64)
        requires
            i < self@.len(),
        ensures
            v == self@[i as int],
    {
        self.samples[i]
    }

    /// The newest sample: the one pushed last.
    pub fn newest(&self) -> (v: u64)
        requires
            self@.len() >= 1,
        ensures
            v == self@.last(),
    {
        self.samples[self.samples.len() - 1]
    }

    /// Append `v` and evict the oldest sample; the depth never changes.
    pub fn push(&mut self, v: u64)
        requires
            old(self).wf(),
            v <= SAMPLE_LIMIT,
        ensures
            final(self).wf(),
            final(self)@.len() == old(self)@.len(),
            final(self)@ == pushed(old(self)@, v),
    {
        self.samples.remove(0);
        self.samples.push(v);
        proof {
            assert(self@ =~= pushed(old(self)@, v));
        }
    }
}

/// A push keeps a common upper bound on the samples: the shifted old
/// samples keep theirs, and the new sample brings its own.
pub proof fn lemma_pushed_bound(s: Seq<u64>, v: u64, bound: u64)
    requires
        s.len() >= 1,
        forall|i: int| 0 <= i < s.len() ==> s[i] <= bound,
        v <= bound,
    ensures
        pushed(s, v).len() == s.len(),
        forall|i: int| 0 <= i < pushed(s, v).len() ==> pushed(s, v)[i] <= bound,
{
    assert forall|i: int| 0 <= i < pushed(s, v).len() implies pushed(s, v)[i] <= bound by {
        if i < s.len() - 1 {
            assert(pushed(s, v)[i] == s[i + 1]);
        } else {
            assert(pushed(s, v)[i] == v);
        }
    }
}

/// Pushing never changes the depth of the window.
pub proof fn lemma_pushed_all_len(s: Seq<u64>, vs: Seq<u64>)
    requires
        s.len() >= 1,
    ensures
        pushed_all(s, vs).len() == s.len(),
    decreases vs.len(),
{
    if vs.len() > 0 {
        assert(pushed(s, vs[0]).len() == s.len());
        lemma_pushed_all_len(pushed(s, vs[0]), vs.skip(1));
    }
}

/// After pushing `vs`, the window is the tail of `s + vs`: the last
/// `s.len()` values of the original window followed by everything pushed.
proof fn lemma_pushed_all_concat(s: Seq<u64>, vs: Seq<u64>)
    requires
        s.len() >= 1,
    ensures
        pushed_all(s, vs) == (s + vs).skip(vs.len() as int),
    decreases vs.len(),
{
    if vs.len() == 0 {
        assert((s + vs).skip(0) =~= s);
    } else {
        let s1 = pushed(s, vs[0]);
        assert(s1.len() == s.len());
        lemma_pushed_all_concat(s1, vs.skip(1));
        assert(vs.skip(1).len() == vs.len() - 1);
        assert((s1 + vs.skip(1)).skip(vs.len() - 1) =~= (s + vs).skip(vs.len() as int)) by {
            let lhs = (s1 + vs.skip(1)).skip(vs.len() - 1);
            let rhs = (s + vs).skip(vs.len() as int);
            assert(lhs.len() == s.len());
            assert(rhs.len() == s.len());
            assert forall|j: int| 0 <= j < s.len() implies lhs[j] == rhs[j] by {
                let k = vs.len() - 1 + j;
                assert(lhs[j] == (s1 + vs.skip(1))[k]);
                if k < s.len() {
                    if k < s.len() - 1 {
                        assert(s1[k] == s.skip(1)[k]);
                        assert(s.skip(1)[k] == s[k + 1]);
                    } else {
                        assert(s1[k] == vs[0]);
                    }
                } else {
                    assert((s1 + vs.skip(1))[k] == vs.skip(1)[k - s.len()]);
                    assert(vs.skip(1)[k - s.len()] == vs[k - s.len() + 1]);
                }
            }
        }
    }
}

/// Ring invariant: however many samples are pushed, the window keeps its
/// exact depth; and once at least `depth` samples have been pushed, the
/// window holds exactly the last `depth` pushed values, in push order.
pub proof fn lemma_ring_invariant(s: Seq<u64>, vs: Seq<u64>)
    requires
        s.len() >= 1,
    ensures
        pushed_all(s, vs).len() == s.len(),
        vs.len() >= s.len() ==> pushed_all(s, vs) == vs.skip(vs.len() - s.len()),
{
    lemma_pushed_all_len(s, vs);
    lemma_pushed_all_concat(s, vs);
    if vs.len() >= s.len() {
        assert((s + vs).skip(vs.len() as int) =~= vs.skip(vs.len() - s.len()));
    }
}

} // verus!
