//! An editing map over a collection: apply a function to every element in
//! place of the element, keeping order and cardinality.

use vstd::prelude::*;

verus! {

/// Whether `f` may be applied to every one of `items`.
pub open spec fn editable<T, F: Fn(T) -> T>(f: F, items: Seq<T>) -> bool {
    forall|i: int| 0 <= i < items.len() ==> call_requires(f, (#[trigger] items[i],))
}

/// A collection whose elements can be rewritten one at a time by a caller-
/// supplied function, preserving order and cardinality. The ingestion
/// pipeline uses this to stamp a batch-wide machine name onto every
/// heartbeat of a batch.
pub trait IterExt: Sized {
    type Item;

    /// The elements of the collection, in order.
    spec fn items(&self) -> Seq<Self::Item>;

    /// Replace every element `x` by `f(x)`, in a single pass, keeping the
    /// order of the elements.
    fn edit<F: Fn(Self::Item) -> Self::Item>(self, f: F) -> (r: Self)
        requires
            editable(f, self.items()),
        ensures
            r.items().len() == self.items().len(),
            forall|i: int|
                0 <= i < self.items().len() ==> call_ensures(
                    f,
                    (self.items()[i],),
                    #[trigger] r.items()[i],
                ),
    ;
}

impl<T> IterExt for Vec<T> {
    type Item = T;

    open spec fn items(&self) -> Seq<T> {
        self@
    }

    fn edit<F: Fn(T) -> T>(self, f: F) -> (r: Vec<T>) {
        let ghost orig: Seq<T> = self@;
        let mut rest = self;
        let mut result: Vec<T> = Vec::new();
        while rest.len() > 0
            invariant
                editable(f, orig),
                result@.len() + rest@.len() == orig.len(),
                rest@ == orig.skip(result@.len() as int),
                forall|i: int|
                    0 <= i < result@.len() ==> call_ensures(f, (orig[i],), #[trigger] result@[i]),
            decreases rest@.len(),
        {
            let ghost done = result@.len() as int;
            let x = rest.remove(0);
            assert(orig.skip(done).remove(0) =~= orig.skip(done + 1));
            result.push(f(x));
        }
        result
    }
}

} // verus!
