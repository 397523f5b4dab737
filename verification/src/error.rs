use vstd::prelude::*;

verus! {

/// Why a provider could not hand out a session.
#[derive(Debug)]
pub enum AuthError {
    /// The caller's token is unknown or no longer accepted. Authenticating
    /// again is the remedy.
    InvalidToken,
    /// The backing data for the principal is missing or damaged. The caller
    /// cannot repair this.
    DataError,
}

} // verus!
