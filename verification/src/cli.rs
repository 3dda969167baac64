//! The two roles a process can take, and the choice between them.

use vstd::prelude::*;
use crate::text::{trimmed, trimmed_spells};

verus! {

/// What a process does: keep the store and listen, or read lines and send
/// them.
#[derive(Debug, Clone, Copy, PartialEq, Eq, Structural)]
pub enum Role {
    Admin,
    User,
}

/// The role that a role name selects: `admin`, with any whitespace around
/// it, is `Admin`; every other name is `User`.
pub open spec fn role_named(name: Seq<char>) -> Role {
    if trimmed(name) == "admin"@ {
        Role::Admin
    } else {
        Role::User
    }
}

impl Role {
    /// The port that belongs to the role.
    pub open spec fn spec_port(&self) -> u16 {
        match self {
            Role::Admin => 7878,
            Role::User => 8081,
        }
    }

    /// The port that belongs to the role.
    #[verifier::when_used_as_spec(spec_port)]
    pub fn port(&self) -> (port: u16)
        ensures
            port == self.spec_port(),
    {
        match self {
            Role::Admin => 7878,
            Role::User => 8081,
        }
    }
}

/// The arguments of the program.
#[derive(Debug)]
pub struct Args {
    role: String,
}

impl View for Args {
    type V = Seq<char>;

    /// The role name as it was given.
    closed spec fn view(&self) -> Seq<char> {
        self.role@
    }
}

impl Args {
    /// Arguments with the given role name.
    pub fn new(role: String) -> (args: Args)
        ensures
            args@ == role@,
    {
        Args { role }
    }

    /// The role name as it was given.
    pub fn role(&self) -> (name: &str)
        ensures
            name@ == self@,
    {
        self.role.as_str()
    }

    /// The role that the arguments select.
    pub fn command(&self) -> (role: Role)
        ensures
            role == role_named(self@),
    {
        if trimmed_spells(self.role.as_str(), "admin") {
            Role::Admin
        } else {
            Role::User
        }
    }
}

} // verus!
