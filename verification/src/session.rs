//! The session: logged out or logged in, and the text of the password field.
//!
//! The password field belongs to the login form, and the form is offered only
//! while nobody is logged in. So an open session always holds the password
//! that opened it: nothing but logout touches a session that is open.

use vstd::prelude::*;

verus! {

/// The password that opens a session.
///
/// This is a stand-in for a credential check and no more: the text is compared
/// as it is, and after a successful login it stays in memory until logout.
pub const SECRET: &'static str = "password";

/// The session as contracts see it.
#[verifier::ext_equal]
pub struct SessionView {
    /// The text of the password field.
    pub password: Seq<char>,
    /// Whether a session is open.
    pub logged_in: bool,
}

impl SessionView {
    /// What holds of every session: while it is open, the password field
    /// holds the secret.
    pub open spec fn valid(self) -> bool {
        self.logged_in ==> self.password == SECRET@
    }

    /// The session at the start of the process: logged out, the password field empty.
    pub open spec fn initial() -> SessionView {
        SessionView { password: Seq::empty(), logged_in: false }
    }

    /// The session after `text` was typed into the password field of the
    /// login form. With a session open there is no form, and nothing changes.
    pub open spec fn with_password(self, text: Seq<char>) -> SessionView {
        if self.logged_in {
            self
        } else {
            SessionView { password: text, logged_in: false }
        }
    }

    /// Whether the password field holds the secret.
    pub open spec fn password_matches(self) -> bool {
        self.password == SECRET@
    }

    /// The session after the credentials were submitted.
    ///
    /// Logged out, a matching password opens the session and stays in the
    /// field; any other password is wiped and the session stays closed. The
    /// login form is not offered while a session is open, and submitting then
    /// changes nothing.
    pub open spec fn login(self) -> SessionView {
        if self.logged_in {
            self
        } else if self.password_matches() {
            SessionView { password: self.password, logged_in: true }
        } else {
            SessionView { password: Seq::empty(), logged_in: false }
        }
    }

    /// The session after logout: closed, the password field wiped.
    pub open spec fn logout(self) -> SessionView {
        SessionView { password: Seq::empty(), logged_in: false }
    }
}

/// The part of the state that lives only as long as the process and is never stored.
#[derive(Debug)]
pub struct SessionState {
    password: String,
    logged_in: bool,
}

impl View for SessionState {
    type V = SessionView;

    closed spec fn view(&self) -> SessionView {
        SessionView { password: self.password@, logged_in: self.logged_in }
    }
}

impl Clone for SessionState {
    fn clone(&self) -> (copy: SessionState)
        ensures
            copy@ == self@,
    {
        proof {
            use_type_invariant(self);
        }
        SessionState { password: self.password.clone(), logged_in: self.logged_in }
    }
}

impl SessionState {
    /// Every session is valid: see [`SessionView::valid`].
    #[verifier::type_invariant]
    pub open spec fn holds_secret_while_open(&self) -> bool {
        self@.valid()
    }

    /// A closed session with an empty password field.
    pub fn new() -> (session: SessionState)
        ensures
            session@ == SessionView::initial(),
    {
        SessionState { password: String::new(), logged_in: false }
    }

    /// The text of the password field: the secret while the session is open.
    pub fn password(&self) -> (text: &str)
        ensures
            text@ == self@.password,
            self@.valid(),
    {
        proof {
            use_type_invariant(self);
        }
        self.password.as_str()
    }

    /// Whether a session is open. If it is, the password field holds the secret.
    pub fn logged_in(&self) -> (open: bool)
        ensures
            open == self@.logged_in,
            self@.valid(),
    {
        proof {
            use_type_invariant(self);
        }
        self.logged_in
    }

    /// Replaces the text of the password field, as typing into the login form
    /// does. With a session open there is no form, and nothing changes.
    pub fn set_password(&mut self, text: String)
        ensures
            final(self)@ == old(self)@.with_password(text@),
            old(self)@.logged_in ==> final(self)@ == old(self)@,
            !old(self)@.logged_in ==> !final(self)@.logged_in && final(self)@.password == text@,
            final(self)@.valid(),
    {
        if !self.logged_in {
            self.password = text;
        }
        proof {
            use_type_invariant(&*self);
        }
    }

    /// Submits the credentials.
    ///
    /// Logged out and holding the secret, the session opens and the password
    /// is kept. Logged out and holding anything else, the session stays closed
    /// and the password field is wiped; nothing reports the failed attempt.
    /// With a session open nothing changes.
    pub fn login(&mut self)
        ensures
            final(self)@ == old(self)@.login(),
            !old(self)@.logged_in && old(self)@.password == SECRET@ ==> final(self)@.logged_in
                && final(self)@.password == old(self)@.password,
            !old(self)@.logged_in && old(self)@.password != SECRET@ ==> !final(self)@.logged_in
                && final(self)@.password == Seq::<char>::empty(),
            old(self)@.logged_in ==> final(self)@ == old(self)@,
            final(self)@.valid(),
    {
        if !self.logged_in {
            let secret = String::from_str(SECRET);
            if self.password == secret {
                self.logged_in = true;
            } else {
                self.password = String::new();
            }
        }
        proof {
            use_type_invariant(&*self);
        }
    }

    /// Closes the session and wipes the password field, whatever the state was.
    pub fn logout(&mut self)
        ensures
            final(self)@ == old(self)@.logout(),
            !final(self)@.logged_in,
            final(self)@.password == Seq::<char>::empty(),
    {
        self.logged_in = false;
        self.password = String::new();
    }
}

/// Logging out twice in a row leaves the session as logging out once does.
pub proof fn logout_is_idempotent(session: SessionView)
    ensures
        session.logout().logout() == session.logout(),
{
}

/// Whatever is done to a session, an open one holds the secret in its
/// password field: a valid session is valid after typing any text, after
/// submitting the credentials, and after logout.
pub proof fn session_stays_valid(session: SessionView, text: Seq<char>)
    requires
        session.valid(),
    ensures
        SessionView::initial().valid(),
        session.with_password(text).valid(),
        session.login().valid(),
        session.logout().valid(),
{
}

} // verus!
