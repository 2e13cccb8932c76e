use vstd::prelude::*;

verus! {

/// A value that can be duplicated. The duplicate holds the same data as the original; where
/// the value owns vectors, "the same" means the same elements in the same order, since two
/// vectors with equal contents are not otherwise known to be one value.
pub trait DeepCopy: Sized {
    /// `self` holds the same data as `other`.
    spec fn copy_of(self, other: Self) -> bool;

    fn deep_copy(&self) -> (r: Self)
        ensures
            r.copy_of(*self),
    ;
}

/// Element by element, `a` holds copies of the elements of `b`.
pub open spec fn copies_of<T: DeepCopy>(a: Seq<T>, b: Seq<T>) -> bool {
    &&& a.len() == b.len()
    &&& forall|i: int| 0 <= i < a.len() ==> (#[trigger] a[i]).copy_of(b[i])
}

/// A vector of copies of the elements of `v`, in order.
pub fn copy_vec<T: DeepCopy>(v: &Vec<T>) -> (r: Vec<T>)
    ensures
        copies_of(r@, v@),
{
    let mut out: Vec<T> = Vec::new();
    let mut i: usize = 0;
    while i < v.len()
        invariant
            i <= v@.len(),
            out@.len() == i,
            forall|j: int| 0 <= j < i ==> (#[trigger] out@[j]).copy_of(v@[j]),
        decreases v@.len() - i,
    {
        let item = v[i].deep_copy();
        out.push(item);
        i += 1;
    }
    out
}

/// A copy of an optional value.
pub fn copy_option<T: DeepCopy>(v: &Option<T>) -> (r: Option<T>)
    ensures
        match (r, *v) {
            (Some(a), Some(b)) => a.copy_of(b),
            (None, None) => true,
            _ => false,
        },
{
    match v {
        Some(x) => Some(x.deep_copy()),
        None => None,
    }
}

} // verus!
