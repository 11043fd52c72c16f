//! The merge/remove interface of partial records.
//!
//! A partial record is a fixed set of optional fields; a field holding no
//! value means "unknown", never "explicitly empty". `update` folds a delta
//! into the receiver field by field, and `remove` clears named fields back
//! to unknown.

use vstd::prelude::*;

verus! {

/// A record whose fields are all optional, supporting a field-wise
/// last-writer-wins merge and explicit clearing of named fields.
pub trait Update: Sized {
    /// The merged value: every field that `other` carries overwrites the
    /// field of `self`; absent fields of `other` leave `self`'s untouched.
    spec fn merge_spec(self, other: Self) -> Self;

    /// The value after clearing the fields named in `names`, in order;
    /// unrecognized names change nothing.
    spec fn remove_spec(self, names: Seq<Seq<char>>) -> Self;

    /// Fold `other` into `self`, field by field, last writer wins.
    fn update(&mut self, other: Self)
        ensures
            *final(self) == old(self).merge_spec(other),
    ;

    /// Clear exactly the fields named in `properties_name`; names that match
    /// no field are ignored.
    fn remove(&mut self, properties_name: &[String])
        ensures
            *final(self) == old(self).remove_spec(
                properties_name@.map_values(|s: String| s@),
            ),
    ;
}

} // verus!
