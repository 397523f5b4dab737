use vstd::prelude::*;

verus! {

/// A principal that is told apart from every other by its identifier.
pub trait AuthUser {
    /// The identifier's type. Identifiers are compared for equality; nothing
    /// else is asked of them.
    type Id;

    /// The identifier this user carries.
    spec fn identifier(&self) -> Self::Id;

    /// Returns the user's identifier. It never fails, and it gives the same
    /// value on every call for as long as the user is not changed.
    fn id(&self) -> (id: Self::Id)
        ensures
            id == self.identifier(),
    ;
}

} // verus!
