use vstd::prelude::*;

verus! {

/// What the navigation shows of a signed-in user.
#[derive(Clone, Copy, Default)]
pub struct UserState<'a> {
    pub first_name: &'a str,
    pub picture: &'a str,
}

/// Whether someone is signed in, and who.
#[derive(Clone, Copy, Default)]
pub struct AuthenticatedState<'a> {
    pub is_authenticated: bool,
    pub user: Option<UserState<'a>>,
}

impl<'a> AuthenticatedState<'a> {
    /// The state is consistent: a user is present exactly when signed in.
    pub open spec fn wf(&self) -> bool {
        self.is_authenticated <==> self.user is Some
    }

    /// The signed-out state.
    pub fn new() -> (r: Self)
        ensures
            !r.is_authenticated,
            r.user is None,
            r.wf(),
    {
        Self { is_authenticated: false, user: None }
    }

    /// Signs `user` in, replacing whoever was signed in before.
    pub fn set_user(&mut self, user: UserState<'a>)
        ensures
            final(self).is_authenticated,
            final(self).user == Some(user),
            final(self).wf(),
    {
        self.is_authenticated = true;
        self.user = Some(user);
    }
}

} // verus!
