use vstd::prelude::*;
use crate::error::AuthError;
use crate::session::AuthSession;
use crate::user::AuthUser;

verus! {

/// What a provider knows, as far as its callers can tell.
#[verifier::reject_recursive_types(Token)]
#[verifier::reject_recursive_types(Id)]
pub struct ProviderView<Token, Id> {
    /// The tokens that were issued and are still accepted, each with the
    /// identifier of the principal it names.
    pub tokens: Map<Token, Id>,
    /// The identifiers for which usable principal data is at hand.
    pub principals: Set<Id>,
}

/// A source of sessions: it turns a token, or an identifier, into a session of
/// the principal that it names.
///
/// How tokens are issued, how long they last and where principals are kept is
/// the implementation's business. Failure is always told by an
/// [`AuthError`], never by a stand-in value.
pub trait AuthProvider<AU: AuthUser, AS: AuthSession<AU>> {
    /// The credential that is exchanged for a session. Its shape is the
    /// provider's own business.
    type Token;

    /// The accepted tokens and the known principals.
    spec fn view(&self) -> ProviderView<Self::Token, AU::Id>;

    /// Tells whether `token` is accepted: `false` for every token that was
    /// never issued or is no longer good. Asking makes no session and does not
    /// use the token up.
    fn valid_token(&self, token: Self::Token) -> (valid: bool)
        ensures
            valid == self@.tokens.contains_key(token),
    ;

    /// Exchanges `token` for a session of the principal that it names.
    ///
    /// A token that is not accepted gives `InvalidToken`. An accepted token
    /// whose principal has no usable data gives `DataError`. Every other token
    /// gives a session, and its user carries the identifier that the token
    /// names.
    fn session_from_token(&self, token: Self::Token) -> (outcome: Result<AS, AuthError>)
        ensures
            match outcome {
                Ok(session) => {
                    &&& self@.tokens.contains_key(token)
                    &&& self@.principals.contains(self@.tokens[token])
                    &&& session@.user.identifier() == self@.tokens[token]
                },
                Err(AuthError::InvalidToken) => !self@.tokens.contains_key(token),
                Err(AuthError::DataError) => {
                    &&& self@.tokens.contains_key(token)
                    &&& !self@.principals.contains(self@.tokens[token])
                },
            },
    ;

    /// Opens a session for the principal `id` without a token.
    ///
    /// An identifier without usable principal data gives `DataError`. Every
    /// other identifier gives a session whose user carries it.
    fn session_from_id(&self, id: AU::Id) -> (outcome: Result<AS, AuthError>)
        ensures
            match outcome {
                Ok(session) => self@.principals.contains(id) && session@.user.identifier() == id,
                Err(AuthError::InvalidToken) => false,
                Err(AuthError::DataError) => !self@.principals.contains(id),
            },
    ;
}

} // verus!
