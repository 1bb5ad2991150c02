use vstd::prelude::*;

use crate::summary::Summary;

verus! {

/// The mathematical value of a `User`.
pub ghost struct UserView {
    pub username: Seq<char>,
    pub email: Seq<char>,
    pub sign_in_count: u64,
    pub active: bool,
}

/// The record that `create_user` builds from a user name and an e-mail
/// address: both kept verbatim, one sign-in, active.
pub open spec fn new_user_view(username: Seq<char>, email: Seq<char>) -> UserView {
    UserView { username, email, sign_in_count: 1, active: true }
}

/// The one-line description of a user: the name, a space, then the e-mail
/// address in parentheses.
pub open spec fn user_summary_text(username: Seq<char>, email: Seq<char>) -> Seq<char> {
    username + " ("@ + email + ")"@
}

/// A user account.
pub struct User {
    username: String,
    email: String,
    sign_in_count: u64,
    active: bool,
}

impl View for User {
    type V = UserView;

    closed spec fn view(&self) -> UserView {
        UserView {
            username: self.username@,
            email: self.email@,
            sign_in_count: self.sign_in_count,
            active: self.active,
        }
    }
}

/// Builds a fresh account: name and e-mail taken as given, one sign-in,
/// active.
pub fn create_user(username: String, email: String) -> (r: User)
    ensures
        r@ == new_user_view(username@, email@),
{
    User { username, email, sign_in_count: 1, active: true }
}

impl User {
    pub fn username(&self) -> (r: &str)
        ensures
            r@ == self@.username,
    {
        self.username.as_str()
    }

    pub fn email(&self) -> (r: &str)
        ensures
            r@ == self@.email,
    {
        self.email.as_str()
    }

    pub fn sign_in_count(&self) -> (r: u64)
        ensures
            r == self@.sign_in_count,
    {
        self.sign_in_count
    }

    pub fn active(&self) -> (r: bool)
        ensures
            r == self@.active,
    {
        self.active
    }
}

impl Summary for User {
    open spec fn summary_of(&self) -> Seq<char> {
        user_summary_text(self@.username, self@.email)
    }

    fn summarize(&self) -> (r: String) {
        let mut r = self.username.clone();
        r.append(" (");
        r.append(self.email.as_str());
        r.append(")");
        r
    }
}

/// The line shown for a user: `User summary: ` followed by the user's
/// summary.
pub fn summary_line(user: &User) -> (r: String)
    ensures
        r@ == "User summary: "@ + user_summary_text(user@.username, user@.email),
{
    let mut r = String::from_str("User summary: ");
    let s = user.summarize();
    r.append(s.as_str());
    r
}

/// Two accounts built from the same name and e-mail address are equal as
/// values: building one leaves nothing behind that changes the next.
pub proof fn lemma_create_user_deterministic(
    username: Seq<char>,
    email: Seq<char>,
    first: User,
    second: User,
)
    requires
        first@ == new_user_view(username, email),
        second@ == new_user_view(username, email),
    ensures
        first@ == second@,
{
}

} // verus!
