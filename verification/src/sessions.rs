//! The session directory: a process-wide map from authenticated usernames to
//! their user records, kept so that a request need not re-query the metadata
//! store. Mutual exclusion around the directory belongs to the surrounding
//! plumbing; this module holds the directory itself.

use crate::store::contains_username;
use crate::user::{User, UserView};
use vstd::prelude::*;

verus! {

/// The directory of logged-in users, keyed by username.
pub struct Sessions {
    entries: Vec<User>,
}

impl View for Sessions {
    type V = Seq<UserView>;

    closed spec fn view(&self) -> Seq<UserView> {
        self.entries@.map_values(|u: User| u@)
    }
}

impl Sessions {
    /// A well-formed directory holds each username at most once.
    pub open spec fn wf(&self) -> bool {
        forall|i: int, j: int|
            0 <= i < j < self@.len() ==> self@[i].username != self@[j].username
    }

    /// An empty directory.
    pub fn new() -> (r: Sessions)
        ensures
            r.wf(),
            r@.len() == 0,
    {
        Sessions { entries: Vec::new() }
    }

    /// The number of sessions held.
    pub fn count(&self) -> (n: usize)
        ensures
            n == self@.len(),
    {
        self.entries.len()
    }

    /// Records a session under the user's own username: an existing entry
    /// for that username is replaced in place, any other entry stays as it
    /// was, and a new username is appended.
    pub fn insert(&mut self, user: User)
        requires
            old(self).wf(),
        ensures
            final(self).wf(),
            contains_username(old(self)@, user@.username) ==> final(self)@.len() == old(
                self,
            )@.len() && forall|i: int|
                0 <= i < old(self)@.len() ==> final(self)@[i] == (
                if old(self)@[i].username == user@.username {
                    user@
                } else {
                    old(self)@[i]
                }),
            !contains_username(old(self)@, user@.username) ==> final(self)@ == old(self)@.push(
                user@,
            ),
    {
        let name = user.get_username();
        let mut i: usize = 0;
        while i < self.entries.len()
            invariant
                old(self).wf(),
                self@ == old(self)@,
                self.entries@ == old(self).entries@,
                0 <= i <= self.entries@.len(),
                name@ == user@.username,
                forall|j: int| 0 <= j < i ==> self@[j].username != user@.username,
                self@.len() == self.entries@.len(),
                forall|j: int| 0 <= j < self.entries@.len() ==> self@[j] == self.entries@[j]@,
            decreases self.entries@.len() - i,
        {
            if self.entries[i].get_username() == name {
                let ghost c0 = self.entries@;
                let ghost pre = old(self)@;
                let _ = self.entries.remove(i);
                self.entries.insert(i, user);
                proof {
                    assert(self.entries@ =~= c0.update(i as int, user));
                    assert(self@ =~= pre.update(i as int, user@));
                    assert(pre[i as int].username == user@.username);
                    assert(contains_username(pre, user@.username));
                    assert(forall|x: int|
                        0 <= x < self@.len() ==> self@[x].username == pre[x].username);
                    assert forall|a: int, b: int|
                        0 <= a < b < self@.len() implies self@[a].username
                        != self@[b].username by {
                        assert(pre[a].username != pre[b].username);
                    }
                    assert forall|j: int|
                        0 <= j < pre.len() implies self@[j] == (
                    if pre[j].username == user@.username {
                        user@
                    } else {
                        pre[j]
                    }) by {
                        if j != i {
                            if j < i {
                                assert(pre[j].username != pre[i as int].username);
                            } else {
                                assert(pre[i as int].username != pre[j].username);
                            }
                        }
                    }
                }
                return ;
            }
            i = i + 1;
        }
        self.entries.push(user);
        proof {
            assert(self@ =~= old(self)@.push(user@));
            assert(!contains_username(old(self)@, user@.username));
        }
    }

    /// The session recorded under `username`, if one exists.
    pub fn get(&self, username: &str) -> (r: Option<&User>)
        ensures
            r matches Some(u) ==> u@.username == username@ && exists|i: int|
                0 <= i < self@.len() && self@[i] == u@,
            r is None ==> !contains_username(self@, username@),
    {
        let name = username.to_owned();
        let mut i: usize = 0;
        while i < self.entries.len()
            invariant
                name@ == username@,
                0 <= i <= self.entries@.len(),
                forall|j: int| 0 <= j < i ==> self@[j].username != username@,
                self@.len() == self.entries@.len(),
                forall|j: int| 0 <= j < self.entries@.len() ==> self@[j] == self.entries@[j]@,
            decreases self.entries@.len() - i,
        {
            if self.entries[i].get_username() == name {
                proof {
                    assert(self@[i as int] == self.entries@[i as int]@);
                    assert(exists|j: int|
                        0 <= j < self@.len() && self@[j] == self.entries@[i as int]@);
                }
                return Some(&self.entries[i]);
            }
            i = i + 1;
        }
        None
    }
}

} // verus!
