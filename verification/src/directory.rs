//! The shared mapping of handle to registered user record.
//!
//! The directory is initialized empty at process startup, mutated only by
//! `register`, and read by `login` and `lookup_for_connect`. Its invariant:
//! no two records share a handle. Callers that share one directory across
//! concurrent handlers must serialize each whole operation (one critical
//! section per call); each operation here completes or fails atomically.

use vstd::prelude::*;

use crate::protocol::{DirectoryError, Hop, Key, User};

verus! {

/// One registered user: the unique handle, the credential (compared
/// verbatim, as an opaque pre-shared secret), the "ip:port" address of the
/// user's listening port, and the user's public key.
#[derive(Debug, Clone, PartialEq, Eq, Hash)]
pub struct KnownUser {
    pub handle: String,
    pub password: String,
    pub addr: String,
    pub public_key: Key,
}

impl KnownUser {
    pub fn new(handle: String, password: String, addr: String, key: &Key) -> (u: KnownUser)
        ensures
            u == (KnownUser { handle, password, addr, public_key: *key }),
    {
        KnownUser { handle, password, addr, public_key: *key }
    }

    /// A copy of this record, field for field.
    pub fn duplicate(&self) -> (u: KnownUser)
        ensures
            u == *self,
    {
        KnownUser {
            handle: self.handle.clone(),
            password: self.password.clone(),
            addr: self.addr.clone(),
            public_key: self.public_key,
        }
    }
}

/// Whether some record in `users` carries the handle `h`.
pub open spec fn contains_handle(users: Seq<KnownUser>, h: Seq<char>) -> bool {
    exists|i: int| 0 <= i < users.len() && users[i].handle@ == h
}

/// The record in `users` that carries the handle `h`; meaningful where
/// `contains_handle(users, h)` holds and handles are unique.
pub open spec fn user_with(users: Seq<KnownUser>, h: Seq<char>) -> KnownUser {
    users[choose|i: int| 0 <= i < users.len() && users[i].handle@ == h]
}

/// What registering `user` leaves in the directory: unchanged where the
/// handle is taken, extended by the record otherwise.
pub open spec fn spec_register(users: Seq<KnownUser>, user: KnownUser) -> Seq<KnownUser> {
    if contains_handle(users, user.handle@) {
        users
    } else {
        users.push(user)
    }
}

/// The directory: records in registration order, no two sharing a handle.
pub struct Directory {
    users: Vec<KnownUser>,
}

impl View for Directory {
    type V = Seq<KnownUser>;

    closed spec fn view(&self) -> Seq<KnownUser> {
        self.users@
    }
}

impl Directory {
    /// Uniqueness invariant: no two records share a handle.
    pub open spec fn wf(&self) -> bool {
        forall|i: int, j: int|
            0 <= i < j < self@.len() ==> self@[i].handle@ != self@[j].handle@
    }

    /// An empty directory, as at process startup.
    pub fn new() -> (d: Directory)
        ensures
            d@ == Seq::<KnownUser>::empty(),
            d.wf(),
    {
        Directory { users: Vec::new() }
    }

    pub fn len(&self) -> (n: usize)
        ensures
            n == self@.len(),
    {
        self.users.len()
    }

    pub fn user_at(&self, i: usize) -> (u: &KnownUser)
        requires
            i < self@.len(),
        ensures
            *u == self@[i as int],
    {
        &self.users[i]
    }

    /// The index of the record carrying `handle`, where one exists.
    fn find(&self, handle: &String) -> (r: Option<usize>)
        ensures
            match r {
                Some(i) => i < self@.len() && self@[i as int].handle@ == handle@,
                None => !contains_handle(self@, handle@),
            },
    {
        let mut i: usize = 0;
        while i < self.users.len()
            invariant
                i <= self@.len(),
                forall|j: int| 0 <= j < i ==> self@[j].handle@ != handle@,
            decreases self@.len() - i,
        {
            if self.users[i].handle == *handle {
                return Some(i);
            }
            i = i + 1;
        }
        None
    }

    /// Inserts the record iff its handle is absent: an atomic
    /// check-then-insert. On success the echoed view carries the record's
    /// own handle, address and key; on a taken handle the directory is
    /// unchanged and the caller observes `HandleInUse`.
    pub fn register(&mut self, user: KnownUser) -> (r: Result<User, DirectoryError>)
        requires
            old(self).wf(),
        ensures
            final(self).wf(),
            final(self)@ == spec_register(old(self)@, user),
            contains_handle(old(self)@, user.handle@) ==> r == Err::<User, DirectoryError>(
                DirectoryError::HandleInUse,
            ),
            !contains_handle(old(self)@, user.handle@) ==> (r matches Ok(v) && v == (User {
                handle: user.handle,
                addr: user.addr,
                public_key: user.public_key,
            })),
    {
        match self.find(&user.handle) {
            Some(_) => Err(DirectoryError::HandleInUse),
            None => {
                let view = User {
                    handle: user.handle.clone(),
                    addr: user.addr.clone(),
                    public_key: user.public_key,
                };
                self.users.push(user);
                Ok(view)
            },
        }
    }

    /// Looks a user up by handle and credential; read-only. `NoSuchUser`
    /// iff the handle is absent; `WrongCredential` iff it is present but
    /// the credential differs; the stored record, copied, otherwise.
    pub fn login(&self, handle: &String, password: &String) -> (r: Result<
        KnownUser,
        DirectoryError,
    >)
        requires
            self.wf(),
        ensures
            !contains_handle(self@, handle@) ==> r == Err::<KnownUser, DirectoryError>(
                DirectoryError::NoSuchUser,
            ),
            contains_handle(self@, handle@) && user_with(self@, handle@).password@ != password@
                ==> r == Err::<KnownUser, DirectoryError>(DirectoryError::WrongCredential),
            contains_handle(self@, handle@) && user_with(self@, handle@).password@ == password@
                ==> r == Ok::<KnownUser, DirectoryError>(user_with(self@, handle@)),
    {
        match self.find(handle) {
            None => Err(DirectoryError::NoSuchUser),
            Some(i) => {
                let u = &self.users[i];
                proof {
                    let w = choose|k: int|
                        0 <= k < self@.len() && self@[k].handle@ == handle@;
                    assert(self@[w].handle@ == handle@ && self@[i as int].handle@ == handle@);
                    assert(w == i as int);
                }
                if u.password == *password {
                    Ok(u.duplicate())
                } else {
                    Err(DirectoryError::WrongCredential)
                }
            },
        }
    }

    /// Looks the target of a Connect up; read-only. The hop returned on
    /// success is the target's own listening address and public key.
    pub fn lookup_for_connect(&self, target: &String) -> (r: Result<Hop, DirectoryError>)
        requires
            self.wf(),
        ensures
            !contains_handle(self@, target@) ==> r == Err::<Hop, DirectoryError>(
                DirectoryError::TargetNotFound,
            ),
            contains_handle(self@, target@) ==> r == Ok::<Hop, DirectoryError>(
                (user_with(self@, target@).addr, user_with(self@, target@).public_key),
            ),
    {
        match self.find(target) {
            None => Err(DirectoryError::TargetNotFound),
            Some(i) => {
                let u = &self.users[i];
                proof {
                    let w = choose|k: int|
                        0 <= k < self@.len() && self@[k].handle@ == target@;
                    assert(self@[w].handle@ == target@ && self@[i as int].handle@ == target@);
                    assert(w == i as int);
                }
                Ok((u.addr.clone(), u.public_key))
            },
        }
    }
}

/// Registration uniqueness: once a record with a handle stands in the
/// directory, registering any record with that handle leaves the directory
/// unchanged — so of any two registrations of one handle, exactly the first
/// to enter the critical section succeeds, and the directory never holds
/// two records for one handle.
pub proof fn lemma_registration_unique(users: Seq<KnownUser>, u1: KnownUser, u2: KnownUser)
    requires
        u1.handle@ == u2.handle@,
        !contains_handle(users, u1.handle@),
    ensures
        spec_register(users, u1) == users.push(u1),
        contains_handle(spec_register(users, u1), u2.handle@),
        spec_register(spec_register(users, u1), u2) == spec_register(users, u1),
{
    let after = users.push(u1);
    assert(after[users.len() as int].handle@ == u2.handle@);
}

} // verus!
