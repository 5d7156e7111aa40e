//! A user record with an optional password.

use crate::text::{decimal_text, push_decimal};
use vstd::prelude::*;
use vstd::string::StringExecFns;

verus! {

/// What a [`User`] holds, as plain values.
pub struct UserView {
    pub id: u64,
    pub username: Seq<char>,
    pub email: Seq<char>,
    pub password: Option<Seq<char>>,
}

/// A registered user. A user is protected once a password has been set.
pub struct User {
    id: u64,
    pub username: String,
    pub email: String,
    password: Option<String>,
}

impl View for User {
    type V = UserView;

    closed spec fn view(&self) -> UserView {
        UserView {
            id: self.id,
            username: self.username@,
            email: self.email@,
            password: match self.password {
                Some(p) => Some(p@),
                None => None,
            },
        }
    }
}

/// A user as it is shown: the identity, the name and the mail address,
/// in brackets and parted by bars.
pub open spec fn shown(user: UserView) -> Seq<char> {
    seq!['('] + decimal_text(user.id as nat) + seq![' ', '|', ' '] + user.username + seq![
        ' ',
        '|',
        ' ',
    ] + user.email + seq![')']
}

impl User {
    /// A new user without a password.
    pub fn new(id: u64, username: String, email: String) -> (user: User)
        ensures
            user@ == (UserView { id, username: username@, email: email@, password: None }),
    {
        User { id, username, email, password: None }
    }

    /// The name of the user.
    pub fn username(&self) -> (name: &str)
        ensures
            name@ == self@.username,
    {
        self.username.as_str()
    }

    /// The mail address of the user.
    pub fn email(&self) -> (email: &str)
        ensures
            email@ == self@.email,
    {
        self.email.as_str()
    }

    /// Sets or replaces the password; nothing else changes.
    pub fn set_password(&mut self, new_password: String)
        ensures
            final(self)@ == (UserView { password: Some(new_password@), ..old(self)@ }),
    {
        self.password = Some(new_password)
    }

    /// Whether a password has been set.
    pub fn is_protected(&self) -> (protected: bool)
        ensures
            protected == self@.password is Some,
    {
        self.password.is_some()
    }

    /// The user as it is shown, such as `(7 | ann | ann@example.org)`.
    pub fn to_string(&self) -> (line: String)
        ensures
            line@ == shown(self@),
    {
        proof {
            reveal_strlit("(");
            reveal_strlit(" | ");
            reveal_strlit(")");
            assert("("@ == seq!['(']);
            assert(" | "@ == seq![' ', '|', ' ']);
            assert(")"@ == seq![')']);
        }
        let mut line = String::from_str("(");
        push_decimal(self.id, &mut line);
        line.append(" | ");
        line.append(self.username.as_str());
        line.append(" | ");
        line.append(self.email.as_str());
        line.append(")");
        line
    }
}

} // verus!
