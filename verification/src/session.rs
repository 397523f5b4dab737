use vstd::prelude::*;
use crate::permission::{Permission, PermissionView};
use crate::user::AuthUser;

verus! {

/// What a session is, as far as its callers can tell: the user it is bound to
/// and the permissions that are granted in it.
pub struct SessionView<AU> {
    pub user: AU,
    pub granted: Set<PermissionView>,
}

impl<AU> SessionView<AU> {
    /// Whether `permission` is granted.
    pub open spec fn holds(self, permission: PermissionView) -> bool {
        self.granted.contains(permission)
    }

    /// The session after `permission` has been granted (`state` is `true`) or
    /// revoked (`state` is `false`). The user and every other permission stay
    /// as they are.
    pub open spec fn with_permission(self, permission: PermissionView, state: bool) -> Self {
        SessionView {
            user: self.user,
            granted: if state {
                self.granted.insert(permission)
            } else {
                self.granted.remove(permission)
            },
        }
    }

    /// The session with `user` in the place of its user and the same
    /// permissions.
    pub open spec fn with_user(self, user: AU) -> Self {
        SessionView { user, granted: self.granted }
    }
}

/// An authenticated context: one user, and the permissions that are granted
/// while the session lasts.
///
/// A session comes from an [`AuthProvider`](crate::provider::AuthProvider) and
/// ends when it is dropped.
pub trait AuthSession<AU: AuthUser> {
    /// The user and the granted permissions of this session.
    spec fn view(&self) -> SessionView<AU>;

    /// Lends out the session's user, to be read or extended. What the caller
    /// leaves behind the reference is the session's user from then on. The
    /// permissions are no part of the user and stay as they were.
    fn user(&mut self) -> (user: &mut AU)
        ensures
            *user == old(self)@.user,
            final(self)@ == old(self)@.with_user(*final(user)),
    ;

    /// Tells whether `permission` is granted at present.
    fn has_permission(&self, permission: &Permission) -> (held: bool)
        ensures
            held == self@.holds(permission@),
    ;

    /// Grants `permission` where `state` is `true` and revokes it where
    /// `state` is `false`. Granting what is granted, or revoking what is not,
    /// changes nothing.
    fn grant_permission(&mut self, permission: &Permission, state: bool)
        ensures
            final(self)@ == old(self)@.with_permission(permission@, state),
    ;
}

/// A permission that was just granted is held, and one that was revoked after
/// that is not.
pub proof fn lemma_grant_then_revoke<AU>(session: SessionView<AU>, permission: PermissionView)
    ensures
        session.with_permission(permission, true).holds(permission),
        !session.with_permission(permission, true).with_permission(permission, false).holds(
            permission,
        ),
{
}

/// Whatever was done last to a permission decides whether it is held.
pub proof fn lemma_last_grant_decides<AU>(
    session: SessionView<AU>,
    permission: PermissionView,
    state: bool,
)
    ensures
        session.with_permission(permission, state).holds(permission) == state,
{
}

/// Granting twice, or revoking twice, leaves the session as doing it once
/// does.
pub proof fn lemma_grant_idempotent<AU>(
    session: SessionView<AU>,
    permission: PermissionView,
    state: bool,
)
    ensures
        session.with_permission(permission, state).with_permission(permission, state)
            == session.with_permission(permission, state),
{
    let once = session.with_permission(permission, state);
    assert(once.with_permission(permission, state).granted =~= once.granted);
}

/// Granting what is held already, or revoking what is not held, changes
/// nothing.
pub proof fn lemma_grant_of_present_state<AU>(
    session: SessionView<AU>,
    permission: PermissionView,
    state: bool,
)
    requires
        session.holds(permission) == state,
    ensures
        session.with_permission(permission, state) == session,
{
    assert(session.with_permission(permission, state).granted =~= session.granted);
}

/// Granting or revoking one permission changes neither the user nor whether
/// any other permission is held.
pub proof fn lemma_grant_leaves_others<AU>(
    session: SessionView<AU>,
    permission: PermissionView,
    state: bool,
    other: PermissionView,
)
    requires
        other != permission,
    ensures
        session.with_permission(permission, state).user == session.user,
        session.with_permission(permission, state).holds(other) == session.holds(other),
{
}

/// A session whose user was lent out and handed back as it was is the session
/// it was before.
pub proof fn lemma_user_handed_back<AU>(session: SessionView<AU>)
    ensures
        session.with_user(session.user) == session,
{
}

} // verus!
