//! Element-wise conversion of vectors.

use vstd::prelude::*;

verus! {

/// Converts every element of `v` with `f`, in order; `spec_f` states what `f` gives.
pub(crate) fn map_vec<A, B, F: Fn(&A) -> B>(v: &Vec<A>, f: F, Ghost(spec_f): Ghost<spec_fn(A) -> B>) -> (out: Vec<B>)
    requires
        forall|a: &A| #[trigger] f.requires((a,)),
        forall|a: &A, b: B| f.ensures((a,), b) ==> b == spec_f(*a),
    ensures
        out@.len() == v@.len(),
        forall|i: int| 0 <= i < v@.len() ==> out@[i] == spec_f(#[trigger] v@[i]),
{
    let mut out: Vec<B> = Vec::new();
    let mut i: usize = 0;
    while i < v.len()
        invariant
            i <= v.len(),
            out@.len() == i,
            forall|a: &A| #[trigger] f.requires((a,)),
            forall|a: &A, b: B| f.ensures((a,), b) ==> b == spec_f(*a),
            forall|k: int| 0 <= k < i ==> out@[k] == spec_f(#[trigger] v@[k]),
        decreases v.len() - i,
    {
        let b = f(&v[i]);
        out.push(b);
        i = i + 1;
    }
    out
}


/// Converts every element of `v` with `f`, in order; `rel` states how each output relates
/// to its input.
pub(crate) fn map_vec_rel<A, B, F: Fn(&A) -> B>(
    v: &Vec<A>,
    f: F,
    Ghost(rel): Ghost<spec_fn(A, B) -> bool>,
) -> (out: Vec<B>)
    requires
        forall|a: &A| #[trigger] f.requires((a,)),
        forall|a: &A, b: B| f.ensures((a,), b) ==> rel(*a, b),
    ensures
        out@.len() == v@.len(),
        forall|i: int| 0 <= i < v@.len() ==> rel(#[trigger] v@[i], out@[i]),
{
    let mut out: Vec<B> = Vec::new();
    let mut i: usize = 0;
    while i < v.len()
        invariant
            i <= v.len(),
            out@.len() == i,
            forall|a: &A| #[trigger] f.requires((a,)),
            forall|a: &A, b: B| f.ensures((a,), b) ==> rel(*a, b),
            forall|k: int| 0 <= k < i ==> rel(#[trigger] v@[k], out@[k]),
        decreases v.len() - i,
    {
        let b = f(&v[i]);
        out.push(b);
        i = i + 1;
    }
    out
}

/// Each output relates to the input at the same position.
pub open spec fn pairwise<A, B>(input: Seq<A>, output: Seq<B>, rel: spec_fn(A, B) -> bool) -> bool {
    &&& output.len() == input.len()
    &&& forall|i: int| 0 <= i < input.len() ==> #[trigger] rel(input[i], output[i])
}

} // verus!
