use vstd::prelude::*;

pub mod session;

verus! {

/// Uniform contract between an entity type and the document store: each
/// entity declares the name of the collection that holds it and exposes
/// its store-assigned identifier.  New entity kinds are added by
/// implementing this trait, not by changing the store.
pub trait Model: Sized {
    /// The storage namespace this entity type lives in.
    spec fn spec_collection_name() -> Seq<char>;

    /// The store-assigned identifier: present once persisted, absent
    /// before the first write.
    spec fn spec_id(self) -> Option<u64>;

    fn collection_name() -> (name: String)
        ensures
            name@ == Self::spec_collection_name(),
    ;

    fn id(&self) -> (id: u64)
        requires
            self.spec_id() is Some,
        ensures
            Some(id) == self.spec_id(),
    ;
}

} // verus!
