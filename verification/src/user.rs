//! The user account model: unique email and username, a password hash that
//! never holds plaintext, a role tag, and the public projection that leaves
//! the credential out.

use vstd::prelude::*;
use vstd::string::*;
use crate::hash;
use crate::hash::{phc_verifies, phc_well_formed};
use crate::errors::Error;

verus! {

/// Role tag stored on an account. Only a tag: authorization is out of scope.
#[derive(Clone, Copy, Debug, PartialEq, Eq, Structural)]
pub enum Role {
    Root,
    Admin,
    Author,
    User,
}

/// The wire name of a role.
pub open spec fn spec_role_wire(r: Role) -> Seq<char> {
    match r {
        Role::Root => "root"@,
        Role::Admin => "admin"@,
        Role::Author => "author"@,
        Role::User => "user"@,
    }
}

/// The role a wire name stands for, or `None` for an unrecognized name.
pub open spec fn spec_role_from_wire(s: Seq<char>) -> Option<Role> {
    if s == "root"@ {
        Some(Role::Root)
    } else if s == "admin"@ {
        Some(Role::Admin)
    } else if s == "author"@ {
        Some(Role::Author)
    } else if s == "user"@ {
        Some(Role::User)
    } else {
        None
    }
}

impl Role {
    /// The exhaustive mapping of roles to their wire representation.
    pub fn as_wire(&self) -> (s: &'static str)
        ensures
            s@ == spec_role_wire(*self),
    {
        match self {
            Role::Root => "root",
            Role::Admin => "admin",
            Role::Author => "author",
            Role::User => "user",
        }
    }

    /// Parse a wire name; an unrecognized value is rejected with `None`.
    pub fn from_wire(s: &str) -> (r: Option<Role>)
        ensures
            r == spec_role_from_wire(s@),
    {
        let v = String::from_str(s);
        if v == String::from_str("root") {
            Some(Role::Root)
        } else if v == String::from_str("admin") {
            Some(Role::Admin)
        } else if v == String::from_str("author") {
            Some(Role::Author)
        } else if v == String::from_str("user") {
            Some(Role::User)
        } else {
            None
        }
    }
}

/// The wire mapping of roles is a round trip: every role's wire name parses
/// back to the same role.
pub proof fn lemma_role_wire_round_trip(r: Role)
    ensures
        spec_role_from_wire(spec_role_wire(r)) == Some(r),
{
    reveal_strlit("root");
    reveal_strlit("admin");
    reveal_strlit("author");
    reveal_strlit("user");
    assert("root"@.len() == 4 && "admin"@.len() == 5 && "author"@.len() == 6 && "user"@.len()
        == 4);
    assert("user"@[0] == 'u' && "root"@[0] == 'r');
    assert("user"@ != "root"@);
}

impl Default for Role {
    /// Accounts created by registration get the plain user role.
    fn default() -> (r: Self)
        ensures
            r == Role::User,
    {
        Role::User
    }
}

/// A user account. The password field holds a hash, never plaintext, from
/// the moment of construction onward.
#[derive(Debug)]
pub struct User {
    /// Unique record identifier.
    pub id: u64,
    /// Globally unique email address.
    pub email: String,
    /// Globally unique username.
    pub username: String,
    /// The PHC password-hash string — a hash from the moment of
    /// construction, never plaintext. Responses carry the public projection,
    /// which leaves this field out.
    pub password: String,
    pub role: Role,
    /// Creation time, Unix milliseconds.
    pub created_at: i64,
    /// Last update time, Unix milliseconds.
    pub updated_at: i64,
}

/// The public projection of an account: everything a response may carry.
/// There is no password field, so the credential cannot leak through it.
#[derive(Debug)]
pub struct PublicUser {
    pub id: u64,
    pub email: String,
    pub username: String,
    pub role: Role,
    pub created_at: i64,
    pub updated_at: i64,
}

impl User {
    /// The stored password hash, as an abstract sequence of characters.
    pub open spec fn spec_password(&self) -> Seq<char> {
        self.password@
    }

    /// Well-formedness: the stored credential is a structurally valid PHC
    /// hash string. Constructors establish it; no operation breaks it.
    pub open spec fn wf(&self) -> bool {
        phc_well_formed(self.spec_password())
    }

    /// A new account whose stored credential is the hash of `password`,
    /// never the plaintext. A hashing failure is unrecoverable.
    pub fn new(id: u64, email: String, username: String, password: String, role: Role, now: i64) -> (r: Result<Self, Error>)
        ensures
            r matches Ok(u) ==> ({
                &&& u.id == id
                &&& u.email == email
                &&& u.username == username
                &&& u.role == role
                &&& u.created_at == now
                &&& u.updated_at == now
                &&& u.wf()
                &&& phc_verifies(password@, u.spec_password())
            }),
            r matches Err(e) ==> e is Internal,
    {
        match hash::hash(password.as_str()) {
            Ok(hashed) => {
                Ok(Self { id, email, username, password: hashed, role, created_at: now, updated_at: now })
            },
            Err(e) => Err(e),
        }
    }

    /// Whether `candidate_password` is the password this account was created
    /// with, by recomputation against the stored hash. A structurally
    /// invalid stored hash is an unrecoverable error (data corruption); it
    /// cannot arise on an account the constructor built.
    pub fn verify_password(&self, candidate_password: &str) -> (r: Result<bool, Error>)
        ensures
            r is Ok <==> self.wf(),
            r matches Ok(b) ==> b == phc_verifies(candidate_password@, self.spec_password()),
            r matches Err(e) ==> e is Internal,
    {
        hash::verify(candidate_password, self.password.as_str())
    }

    /// The stored PHC hash string.
    pub fn password_hash(&self) -> (h: &String)
        ensures
            h@ == self.spec_password(),
    {
        &self.password
    }

    /// An identical copy of this record.
    pub fn duplicate(&self) -> (u: Self)
        ensures
            u == *self,
    {
        User {
            id: self.id,
            email: self.email.clone(),
            username: self.username.clone(),
            password: self.password.clone(),
            role: self.role,
            created_at: self.created_at,
            updated_at: self.updated_at,
        }
    }

    /// The public projection of this account: same identity fields, no
    /// password.
    pub fn public_projection(&self) -> (p: PublicUser)
        ensures
            p.id == self.id,
            p.email == self.email,
            p.username == self.username,
            p.role == self.role,
            p.created_at == self.created_at,
            p.updated_at == self.updated_at,
    {
        PublicUser {
            id: self.id,
            email: self.email.clone(),
            username: self.username.clone(),
            role: self.role,
            created_at: self.created_at,
            updated_at: self.updated_at,
        }
    }
}

/// Which unique field of a user record a conflict is about.
#[derive(Clone, Copy, Debug, PartialEq, Eq, Structural)]
pub enum UserField {
    Email,
    Username,
}

} // verus!
