//! Trusted boundary around `im::Vector<u64>`, the persistent vector that
//! published snapshots carry their sample series in.
//!
//! The contents of such a vector are named by the spec function
//! [`im_seq`]; every wrapper below states its effect over that name, as
//! the crate's documented behaviour shows it.

use vstd::prelude::*;

verus! {

#[verifier::external_type_specification]
#[verifier::external_body]
#[verifier::reject_recursive_types(A)]
pub struct ExImVector<A>(im::Vector<A>);

/// The samples an `im::Vector<u64>` holds, oldest first.
pub uninterp spec fn im_seq(v: im::Vector<u64>) -> Seq<u64>;

/// Relies on `im::Vector`'s `Clone`. It is declared only so that snapshot
/// types holding such vectors can derive `Clone`; no verified code claims
/// anything about a cloned vector.
pub assume_specification<A: Clone>[ <im::Vector<A> as Clone>::clone ](
    v: &im::Vector<A>,
) -> im::Vector<A>;

/// Relies on `im::Vector::new`: it constructs an empty vector.
#[verifier::external_body]
pub(crate) fn im_new() -> (v: im::Vector<u64>)
    ensures
        im_seq(v) == Seq::<u64>::empty(),
{
    im::Vector::new()
}

/// Relies on `im::Vector::len`: it returns the number of elements held.
#[verifier::external_body]
pub(crate) fn im_len(v: &im::Vector<u64>) -> (n: usize)
    ensures
        n == im_seq(*v).len(),
{
    v.len()
}

/// Relies on `im::Vector::push_back`: it appends one value at the end,
/// leaving the elements before it as they were.
#[verifier::external_body]
pub(crate) fn im_push_back(v: &mut im::Vector<u64>, value: u64)
    ensures
        im_seq(*final(v)) == im_seq(*old(v)).push(value),
{
    v.push_back(value)
}

/// Relies on `im::Vector::get`: for an index below the length it returns
/// a reference to the element at that index.
#[verifier::external_body]
pub(crate) fn im_get(v: &im::Vector<u64>, index: usize) -> (r: u64)
    requires
        index < im_seq(*v).len(),
    ensures
        r == im_seq(*v)[index as int],
{
    *v.get(index).unwrap()
}

/// Read a whole persistent series back out as a plain vector, oldest
/// sample first.
pub fn im_values(v: &im::Vector<u64>) -> (r: Vec<u64>)
    ensures
        r@ == im_seq(*v),
{
    let n = im_len(v);
    let mut r: Vec<u64> = Vec::new();
    let mut i: usize = 0;
    while i < n
        invariant
            n == im_seq(*v).len(),
            i <= n,
            r@ == im_seq(*v).take(i as int),
        decreases n - i,
    {
        r.push(im_get(v, i));
        proof {
            assert(im_seq(*v).take(i + 1 as int) =~= im_seq(*v).take(i as int).push(
                im_seq(*v)[i as int],
            ));
        }
        i = i + 1;
    }
    proof {
        assert(im_seq(*v).take(n as int) =~= im_seq(*v));
    }
    r
}

} // verus!
