//! The system of record: user and code collections with the uniqueness
//! rules the workflows rely on, and the conditional find-and-update that
//! consumes a code exactly once.

use vstd::prelude::*;
use crate::code::{Code, CodeType};
use crate::errors::{Conflict, Error};
use crate::user::{User, UserField};

verus! {

/// Which collection of the system of record a record belongs to.
#[derive(Clone, Copy, Debug, PartialEq, Eq, Structural)]
pub enum Collection {
    Users,
    Codes,
}

/// The name of a collection.
pub open spec fn spec_collection_name(c: Collection) -> Seq<char> {
    match c {
        Collection::Users => "users"@,
        Collection::Codes => "codes"@,
    }
}

/// The collection a name stands for, or `None` for an unrecognized name.
pub open spec fn spec_collection_from_name(s: Seq<char>) -> Option<Collection> {
    if s == "users"@ {
        Some(Collection::Users)
    } else if s == "codes"@ {
        Some(Collection::Codes)
    } else {
        None
    }
}

impl Collection {
    /// The exhaustive mapping of collections to their names.
    pub fn as_name(&self) -> (s: &'static str)
        ensures
            s@ == spec_collection_name(*self),
    {
        match self {
            Collection::Users => "users",
            Collection::Codes => "codes",
        }
    }

    /// Parse a collection name; an unrecognized one is rejected with `None`.
    pub fn parse(s: &str) -> (r: Option<Collection>)
        ensures
            r == spec_collection_from_name(s@),
    {
        let v = String::from_str(s);
        if v == String::from_str("users") {
            Some(Collection::Users)
        } else if v == String::from_str("codes") {
            Some(Collection::Codes)
        } else {
            None
        }
    }
}

/// The collection-name mapping is a round trip: every collection's name
/// parses back to the same collection.
pub proof fn lemma_collection_name_round_trip(c: Collection)
    ensures
        spec_collection_from_name(spec_collection_name(c)) == Some(c),
{
    reveal_strlit("users");
    reveal_strlit("codes");
    assert("users"@[0] == 'u' && "codes"@[0] == 'c');
    assert("users"@ != "codes"@);
}

/// Some user in `users` holds this email.
pub open spec fn has_user_email(users: Seq<User>, email: Seq<char>) -> bool {
    exists|i: int| 0 <= i < users.len() && (#[trigger] users[i]).email@ == email
}

/// Some user in `users` holds this username.
pub open spec fn has_username(users: Seq<User>, username: Seq<char>) -> bool {
    exists|i: int| 0 <= i < users.len() && (#[trigger] users[i]).username@ == username
}

/// Some code record in `codes` carries this identifier.
pub open spec fn has_code_id(codes: Seq<Code>, id: u64) -> bool {
    exists|i: int| 0 <= i < codes.len() && (#[trigger] codes[i]).id == id
}

/// `c` is an active code of kind `t` for `email`.
pub open spec fn is_active_for(c: Code, email: Seq<char>, t: CodeType) -> bool {
    c.active && c.email@ == email && c.code_type == t
}

/// Some record in `codes` is an active code of kind `t` for `email`.
pub open spec fn has_active_code(codes: Seq<Code>, email: Seq<char>, t: CodeType) -> bool {
    exists|i: int| 0 <= i < codes.len() && is_active_for(#[trigger] codes[i], email, t)
}

/// Some record in `codes` is active and carries this identifier.
pub open spec fn has_active_code_id(codes: Seq<Code>, id: u64) -> bool {
    exists|i: int| 0 <= i < codes.len() && (#[trigger] codes[i]).active && codes[i].id == id
}

/// The same record with its active flag lowered; nothing else changes.
pub open spec fn deactivated(c: Code) -> Code {
    Code { active: false, ..c }
}

/// `c1` is `c0` with exactly one record — active, carrying `id` — flipped to
/// inactive. This is the outcome of the conditional find-and-update that
/// consumes a code.
pub open spec fn deactivate_transition(c0: Seq<Code>, c1: Seq<Code>, id: u64) -> bool {
    exists|i: int|
        0 <= i < c0.len() && (#[trigger] c0[i]).active && c0[i].id == id && c1 == c0.update(
            i,
            deactivated(c0[i]),
        )
}

/// No two users share an email, and no two share a username.
pub open spec fn users_unique(users: Seq<User>) -> bool {
    forall|i: int, j: int|
        #![trigger users[i], users[j]]
        0 <= i < j < users.len() ==> users[i].email@ != users[j].email@ && users[i].username@
            != users[j].username@
}

/// No two code records share an identifier.
pub open spec fn code_ids_unique(codes: Seq<Code>) -> bool {
    forall|i: int, j: int|
        #![trigger codes[i], codes[j]]
        0 <= i < j < codes.len() ==> codes[i].id != codes[j].id
}

/// At most one ACTIVE code exists per (email, type) pair at any time —
/// expired codes may stay flagged active until explicitly retired.
pub open spec fn one_active_per_email(codes: Seq<Code>) -> bool {
    forall|i: int, j: int|
        #![trigger codes[i], codes[j]]
        0 <= i < j < codes.len() && codes[i].active && codes[j].active && codes[i].code_type
            == codes[j].code_type ==> codes[i].email@ != codes[j].email@
}

/// The system of record. Records are only ever appended or conditionally
/// updated in place; codes are deactivated, never deleted.
#[derive(Debug)]
pub struct Database {
    pub users: Vec<User>,
    pub codes: Vec<Code>,
}

impl Database {
    /// The store's invariant, established empty and preserved by every
    /// operation.
    pub open spec fn wf(&self) -> bool {
        &&& users_unique(self.users@)
        &&& code_ids_unique(self.codes@)
        &&& one_active_per_email(self.codes@)
    }

    /// An empty system of record.
    pub fn new() -> (db: Self)
        ensures
            db.users@ == Seq::<User>::empty(),
            db.codes@ == Seq::<Code>::empty(),
            db.wf(),
    {
        Database { users: Vec::new(), codes: Vec::new() }
    }

    /// Whether any code record carries `id`; lets a caller pick identifiers
    /// that satisfy the freshness preconditions.
    pub fn contains_code_id(&self, id: u64) -> (r: bool)
        ensures
            r == has_code_id(self.codes@, id),
    {
        let n = self.codes.len();
        let mut i: usize = 0;
        while i < n
            invariant
                n == self.codes@.len(),
                i <= n,
                forall|j: int| 0 <= j < i ==> (#[trigger] self.codes@[j]).id != id,
            decreases n - i,
        {
            if self.codes[i].id == id {
                return true;
            }
            i += 1;
        }
        false
    }
}

impl User {
    /// Persist a new user. The store's uniqueness rules on email and
    /// username are checked here, and a violation is surfaced as a
    /// structured conflict carrying the collection, field and value.
    /// Email is reported first when both collide.
    pub fn create(user: User, db: &mut Database) -> (r: Result<(), Error>)
        requires
            old(db).wf(),
        ensures
            final(db).wf(),
            final(db).codes@ == old(db).codes@,
            r is Ok <==> !has_user_email(old(db).users@, user.email@) && !has_username(
                old(db).users@,
                user.username@,
            ),
            r is Ok ==> final(db).users@ == old(db).users@.push(user),
            r is Err ==> final(db).users@ == old(db).users@,
            has_user_email(old(db).users@, user.email@) ==> r == Err::<(), Error>(
                Error::Conflict(
                    Conflict::DuplicateField {
                        collection: Collection::Users,
                        field: UserField::Email,
                        value: user.email,
                    },
                ),
            ),
            !has_user_email(old(db).users@, user.email@) && has_username(
                old(db).users@,
                user.username@,
            ) ==> r == Err::<(), Error>(
                Error::Conflict(
                    Conflict::DuplicateField {
                        collection: Collection::Users,
                        field: UserField::Username,
                        value: user.username,
                    },
                ),
            ),
    {
        let n = db.users.len();
        let mut i: usize = 0;
        while i < n
            invariant
                n == db.users@.len(),
                i <= n,
                db.wf(),
                db.users@ == old(db).users@,
                db.codes@ == old(db).codes@,
                forall|j: int| 0 <= j < i ==> (#[trigger] db.users@[j]).email@ != user.email@,
            decreases n - i,
        {
            if db.users[i].email == user.email {
                return Err(
                    Error::Conflict(
                        Conflict::DuplicateField {
                            collection: Collection::Users,
                            field: UserField::Email,
                            value: user.email,
                        },
                    ),
                );
            }
            i += 1;
        }
        let mut k: usize = 0;
        while k < n
            invariant
                n == db.users@.len(),
                k <= n,
                db.wf(),
                db.users@ == old(db).users@,
                db.codes@ == old(db).codes@,
                forall|j: int| 0 <= j < n ==> (#[trigger] db.users@[j]).email@ != user.email@,
                forall|j: int| 0 <= j < k ==> (#[trigger] db.users@[j]).username@ != user.username@,
            decreases n - k,
        {
            if db.users[k].username == user.username {
                return Err(
                    Error::Conflict(
                        Conflict::DuplicateField {
                            collection: Collection::Users,
                            field: UserField::Username,
                            value: user.username,
                        },
                    ),
                );
            }
            k += 1;
        }
        db.users.push(user);
        proof {
            let users1 = db.users@;
            let users0 = old(db).users@;
            assert forall|i2: int, j2: int|
                #![trigger users1[i2], users1[j2]]
                0 <= i2 < j2 < users1.len() implies users1[i2].email@ != users1[j2].email@
                && users1[i2].username@ != users1[j2].username@ by {
                if j2 == users1.len() - 1 {
                    assert(users1[i2] == users0[i2]);
                }
            }
        }
        Ok(())
    }

    /// Fetch the user holding this email, if any.
    pub fn find_one_by_email(email: &String, db: &Database) -> (r: Option<User>)
        ensures
            r is Some <==> has_user_email(db.users@, email@),
            r matches Some(u) ==> u.email@ == email@ && exists|i: int|
                0 <= i < db.users@.len() && db.users@[i] == u,
    {
        let n = db.users.len();
        let mut i: usize = 0;
        while i < n
            invariant
                n == db.users@.len(),
                i <= n,
                forall|j: int| 0 <= j < i ==> (#[trigger] db.users@[j]).email@ != email@,
            decreases n - i,
        {
            if db.users[i].email == *email {
                return Some(db.users[i].duplicate());
            }
            i += 1;
        }
        None
    }
}

impl Code {
    /// Persist a new code record. The one-active-per-email rule and
    /// identifier freshness are the callers' duty, enforced by the
    /// workflows' checks rather than by a store constraint.
    pub fn create(code: Code, db: &mut Database) -> (r: Result<(), Error>)
        requires
            old(db).wf(),
            !has_code_id(old(db).codes@, code.id),
            code.active ==> !has_active_code(old(db).codes@, code.email@, code.code_type),
        ensures
            r is Ok,
            final(db).wf(),
            final(db).users@ == old(db).users@,
            final(db).codes@ == old(db).codes@.push(code),
    {
        db.codes.push(code);
        proof {
            let codes1 = db.codes@;
            let codes0 = old(db).codes@;
            assert forall|i2: int, j2: int|
                #![trigger codes1[i2], codes1[j2]]
                0 <= i2 < j2 < codes1.len() implies codes1[i2].id != codes1[j2].id by {
                if j2 == codes1.len() - 1 {
                    assert(codes1[i2] == codes0[i2]);
                }
            }
            assert forall|i2: int, j2: int|
                #![trigger codes1[i2], codes1[j2]]
                0 <= i2 < j2 < codes1.len() && codes1[i2].active && codes1[j2].active
                && codes1[i2].code_type == codes1[j2].code_type implies codes1[i2].email@
                != codes1[j2].email@ by {
                if j2 == codes1.len() - 1 {
                    assert(codes1[i2] == codes0[i2]);
                    assert(is_active_for(codes0[i2], code.email@, code.code_type)
                        ==> has_active_code(codes0, code.email@, code.code_type));
                }
            }
        }
        Ok(())
    }

    /// Fetch the active code of kind `code_type` for `email`, if any — at
    /// most one exists under the store's invariant.
    pub fn find_one_by_email(email: &String, code_type: CodeType, db: &Database) -> (r: Option<
        Code,
    >)
        ensures
            r is Some <==> has_active_code(db.codes@, email@, code_type),
            r matches Some(c) ==> is_active_for(c, email@, code_type) && exists|i: int|
                0 <= i < db.codes@.len() && db.codes@[i] == c,
    {
        let n = db.codes.len();
        let mut i: usize = 0;
        while i < n
            invariant
                n == db.codes@.len(),
                i <= n,
                forall|j: int|
                    0 <= j < i ==> !is_active_for(#[trigger] db.codes@[j], email@, code_type),
            decreases n - i,
        {
            if db.codes[i].active && db.codes[i].email == *email && db.codes[i].code_type
                == code_type {
                return Some(db.codes[i].duplicate());
            }
            i += 1;
        }
        None
    }

    /// Consume or retire this record: a conditional find-and-update that
    /// flips the active flag to false iff an ACTIVE record with this
    /// identifier still exists. Failure signals a race (another request
    /// consumed it first) or corruption. This is the compare-and-swap that
    /// keeps one code from being consumed twice.
    pub fn deactivate_by_id(&self, db: &mut Database) -> (r: Result<(), Error>)
        requires
            old(db).wf(),
        ensures
            final(db).wf(),
            final(db).users@ == old(db).users@,
            r is Ok <==> has_active_code_id(old(db).codes@, self.id),
            r is Ok ==> deactivate_transition(old(db).codes@, final(db).codes@, self.id),
            r is Err ==> r == Err::<(), Error>(Error::Internal) && final(db).codes@ == old(
                db,
            ).codes@,
    {
        let n = db.codes.len();
        let mut i: usize = 0;
        while i < n
            invariant
                n == db.codes@.len(),
                i <= n,
                db.wf(),
                db.users@ == old(db).users@,
                db.codes@ == old(db).codes@,
                forall|j: int|
                    0 <= j < i ==> !((#[trigger] db.codes@[j]).active && db.codes@[j].id
                        == self.id),
            decreases n - i,
        {
            if db.codes[i].active && db.codes[i].id == self.id {
                let newv = Code {
                    id: db.codes[i].id,
                    email: db.codes[i].email.clone(),
                    code: db.codes[i].code.clone(),
                    code_type: db.codes[i].code_type,
                    active: false,
                    created_at: db.codes[i].created_at,
                    expired_at: db.codes[i].expired_at,
                };
                proof {
                    assert(newv == deactivated(old(db).codes@[i as int]));
                }
                db.codes[i] = newv;
                proof {
                    let codes1 = db.codes@;
                    let codes0 = old(db).codes@;
                    assert(codes1 == codes0.update(i as int, deactivated(codes0[i as int])));
                    assert forall|k: int| 0 <= k < codes1.len() implies (#[trigger] codes1[k]).id
                        == codes0[k].id && (codes1[k].active ==> codes1[k] == codes0[k]) by {
                        if k != i {
                            assert(codes1[k] == codes0[k]);
                        }
                    }
                    assert(has_active_code_id(codes0, self.id));
                    assert(deactivate_transition(codes0, codes1, self.id));
                    assert forall|i2: int, j2: int|
                        #![trigger codes1[i2], codes1[j2]]
                        0 <= i2 < j2 < codes1.len() implies codes1[i2].id != codes1[j2].id by {
                        assert(codes1[i2].id == codes0[i2].id);
                        assert(codes1[j2].id == codes0[j2].id);
                    }
                    assert forall|i2: int, j2: int|
                        #![trigger codes1[i2], codes1[j2]]
                        0 <= i2 < j2 < codes1.len() && codes1[i2].active && codes1[j2].active
                        && codes1[i2].code_type == codes1[j2].code_type implies codes1[i2].email@
                        != codes1[j2].email@ by {
                        assert(codes1[i2].active ==> codes0[i2].active && codes1[i2]
                            == codes0[i2]);
                        assert(codes1[j2].active ==> codes0[j2].active && codes1[j2]
                            == codes0[j2]);
                    }
                }
                return Ok(());
            }
            i += 1;
        }
        Err(Error::Internal)
    }
}

} // verus!
