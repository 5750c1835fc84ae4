//! Base trait for entities with a unique identity.

use vstd::prelude::*;

verus! {

/// An entity owns a unique identifier that never changes.
pub trait Entity {
    type Id;

    /// The identifier, as a specification-level value.
    spec fn id_spec(&self) -> Self::Id;

    fn id(&self) -> (r: &Self::Id)
        ensures
            *r == self.id_spec(),
    ;
}

} // verus!
