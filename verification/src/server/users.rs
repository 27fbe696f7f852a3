//! The connected users, by id, and the numbering of new users.

use std::collections::HashMap;
use vstd::prelude::*;

use super::keyed::keys_of;

use crate::protocol::parameters::{UserId, UserNameWithInfo, UserNameWithInfoView};

verus! {

/// Why the user service could not answer.
#[derive(Debug, Clone, Copy, PartialEq, Eq, Structural)]
pub enum UsersError {
    ExecutionError,
    ServiceUnavailable,
}

/// The connected users as values, by id, and the id the next user gets.
pub struct UsersView {
    pub users: Map<i16, UserNameWithInfoView>,
    pub top: i16,
}

/// The connected users and the id the next user gets.
#[derive(Debug)]
pub struct Users {
    users: HashMap<i16, UserNameWithInfo>,
    top: i16,
}

/// Where the user with id `k` is in a list.
pub open spec fn user_index(s: Seq<UserNameWithInfo>, k: i16) -> int {
    choose|i: int| 0 <= i < s.len() && (#[trigger] s[i]).user_id.0 == k
}

/// The users of a list, by id.
pub open spec fn users_map(s: Seq<UserNameWithInfo>) -> Map<i16, UserNameWithInfoView> {
    Map::new(
        |k: i16| exists|i: int| 0 <= i < s.len() && (#[trigger] s[i]).user_id.0 == k,
        |k: i16| s[user_index(s, k)]@,
    )
}

/// No id is used twice.
pub open spec fn distinct_users(s: Seq<UserNameWithInfo>) -> bool {
    forall|i: int, j: int| 0 <= i < j < s.len() ==> (#[trigger] s[i]).user_id.0 != (#[trigger] s[j]).user_id.0
}

proof fn lemma_user_at(s: Seq<UserNameWithInfo>, i: int)
    requires
        distinct_users(s),
        0 <= i < s.len(),
    ensures
        users_map(s).dom().contains(s[i].user_id.0),
        users_map(s)[s[i].user_id.0] == s[i]@,
{
    let k = s[i].user_id.0;
    assert(exists|j: int| 0 <= j < s.len() && (#[trigger] s[j]).user_id.0 == k);
    let j = user_index(s, k);
    if j != i {
        if j < i {
            assert(s[j].user_id.0 != s[i].user_id.0);
        } else {
            assert(s[i].user_id.0 != s[j].user_id.0);
        }
    }
}

/// The connected users after `u` is put in, replacing any with its id.
pub open spec fn replaced(m: Map<i16, UserNameWithInfoView>, u: UserNameWithInfoView) -> Map<i16, UserNameWithInfoView> {
    m.insert(u.user_id, u)
}

impl View for Users {
    type V = UsersView;

    closed spec fn view(&self) -> UsersView {
        UsersView { users: self.users@.map_values(|u: UserNameWithInfo| u@), top: self.top }
    }
}

impl Users {
    /// Each user is kept under its own id.
    pub closed spec fn wf(&self) -> bool {
        forall|k: i16| #[trigger] self.users@.contains_key(k) ==> self.users@[k].user_id.0 == k
    }

    /// No users; the first user gets id 1.
    pub fn new() -> (r: Self)
        ensures
            r.wf(),
            r@.users == Map::<i16, UserNameWithInfoView>::empty(),
            r@.top == 1,
    {
        let r = Users { users: HashMap::new(), top: 1 };
        assert(r@.users =~= Map::<i16, UserNameWithInfoView>::empty());
        r
    }

    /// The id the next user gets.
    pub fn next_id(&self) -> (r: i16)
        ensures
            r == self@.top,
    {
        self.top
    }

    /// Gives the user the next id and keeps it, unless a user with that id is
    /// already kept; returns the id.
    pub fn add(&mut self, user: &mut UserNameWithInfo) -> (r: UserId)
        requires
            old(self).wf(),
            old(self)@.top < 0x7fff,
        ensures
            final(self).wf(),
            r.0 == old(self)@.top,
            final(user)@ == (UserNameWithInfoView { user_id: r.0, ..old(user)@ }),
            final(self)@.top == old(self)@.top + 1,
            final(self)@.users == (if old(self)@.users.dom().contains(r.0) {
                old(self)@.users
            } else {
                old(self)@.users.insert(r.0, final(user)@)
            }),
    {
        broadcast use vstd::std_specs::hash::group_hash_axioms;

        let user_id = UserId(self.top);
        user.user_id = user_id;
        self.top = self.top + 1;
        if !self.users.contains_key(&user_id.0) {
            let d = user.duplicate();
            let ghost dv = d@;
            self.users.insert(user_id.0, d);
            assert(self@.users =~= old(self)@.users.insert(user_id.0, dv));
        }
        user_id
    }

    /// Puts the user in place of the one with its id; returns the id when
    /// there was one. A user not kept yet is kept all the same.
    pub fn update(&mut self, user: &UserNameWithInfo) -> (r: Option<UserId>)
        requires
            old(self).wf(),
        ensures
            final(self).wf(),
            final(self)@ == (UsersView { users: replaced(old(self)@.users, user@), ..old(self)@ }),
            r == (if old(self)@.users.dom().contains(user.user_id.0) {
                Some(user.user_id)
            } else {
                None
            }),
    {
        broadcast use vstd::std_specs::hash::group_hash_axioms;

        let copy = user.duplicate();
        let old_user = self.users.insert(user.user_id.0, copy);
        assert(self@.users =~= replaced(old(self)@.users, user@));
        match old_user {
            Some(_) => Some(user.user_id),
            None => None,
        }
    }

    /// Forgets the user with the id of `user`.
    pub fn remove(&mut self, user: &UserNameWithInfo)
        requires
            old(self).wf(),
        ensures
            final(self).wf(),
            final(self)@ == (UsersView { users: old(self)@.users.remove(user.user_id.0), ..old(self)@ }),
    {
        broadcast use vstd::std_specs::hash::group_hash_axioms;

        self.users.remove(&user.user_id.0);
        assert(self@.users =~= old(self)@.users.remove(user.user_id.0));
    }

    /// The user with this id, if there is one.
    pub fn find(&self, id: UserId) -> (r: Option<&UserNameWithInfo>)
        requires
            self.wf(),
        ensures
            match r {
                Some(u) => self@.users.dom().contains(id.0) && u@ == self@.users[id.0] && u.user_id == id,
                None => !self@.users.dom().contains(id.0),
            },
    {
        broadcast use vstd::std_specs::hash::group_hash_axioms;

        self.users.get(&id.0)
    }

    /// Every user, each once.
    pub fn to_vec(&self) -> (r: Vec<UserNameWithInfo>)
        requires
            self.wf(),
        ensures
            distinct_users(r@),
            users_map(r@) == self@.users,
    {
        broadcast use vstd::std_specs::hash::group_hash_axioms;

        let ids = keys_of(&self.users);
        let mut out: Vec<UserNameWithInfo> = Vec::new();
        let mut i: usize = 0;
        while i < ids.len()
            invariant
                self.wf(),
                ids@.to_set() == self.users@.dom(),
                0 <= i <= ids@.len(),
                out@.len() == i,
                forall|j: int| 0 <= j < i ==> (#[trigger] out@[j])@ == self@.users[ids@[j]] && out@[j].user_id.0 == ids@[j],
            decreases ids@.len() - i,
        {
            assert(ids@.to_set().contains(ids@[i as int]));
            match self.users.get(&ids[i]) {
                Some(u) => out.push(u.duplicate()),
                None => {
                    assert(false);
                },
            }
            i = i + 1;
        }
        proof {
            assert(distinct_users(out@)) by {
                assert forall|a: int, b: int| 0 <= a < b < out@.len() implies (#[trigger] out@[a]).user_id.0 != (#[trigger] out@[b]).user_id.0 by {
                    assert(ids@[a] != ids@[b]);
                }
            }
            assert(users_map(out@) =~= self@.users) by {
                assert forall|x: i16| users_map(out@).dom().contains(x) <==> self@.users.dom().contains(x) by {
                    if users_map(out@).dom().contains(x) {
                        let j = choose|j: int| 0 <= j < out@.len() && (#[trigger] out@[j]).user_id.0 == x;
                        assert(ids@.to_set().contains(ids@[j]));
                    }
                    if self@.users.dom().contains(x) {
                        assert(ids@.to_set().contains(x));
                        let j = choose|j: int| 0 <= j < ids@.len() && ids@[j] == x;
                        assert(out@[j].user_id.0 == x);
                    }
                }
                assert forall|x: i16| #[trigger] users_map(out@).dom().contains(x) implies users_map(out@)[x] == self@.users[x] by {
                    let j = choose|j: int| 0 <= j < out@.len() && (#[trigger] out@[j]).user_id.0 == x;
                    lemma_user_at(out@, j);
                }
            }
        }
        out
    }
}

impl Default for Users {
    fn default() -> (r: Self)
        ensures
            r.wf(),
            r@.users == Map::<i16, UserNameWithInfoView>::empty(),
            r@.top == 1,
    {
        Self::new()
    }
}

/// A change asked of the connected users.
#[derive(Debug)]
pub enum UserCommand {
    Connect(UserNameWithInfo),
    Update(UserNameWithInfo),
    Disconnect(UserNameWithInfo),
}

/// What a change of the connected users answers.
#[derive(Debug, Clone, Copy, PartialEq, Eq, Structural)]
pub enum UserReply {
    Connected(UserId),
    Done,
}

/// Keeps the connected users and applies the changes asked of them, one at
/// a time; the caller passes on each answer and each new state.
#[derive(Debug)]
pub struct UserUpdateProcessor {
    users: Users,
}

impl UserUpdateProcessor {
    pub closed spec fn wf(&self) -> bool {
        self.users.wf()
    }

    /// The users as they are now.
    pub closed spec fn state(&self) -> UsersView {
        self.users@
    }

    pub fn new() -> (r: Self)
        ensures
            r.wf(),
            r.state().users == Map::<i16, UserNameWithInfoView>::empty(),
            r.state().top == 1,
    {
        UserUpdateProcessor { users: Users::new() }
    }

    /// The users, to be published after a change.
    pub fn users(&self) -> (r: &Users)
        ensures
            r@ == self.state(),
            self.wf() ==> r.wf(),
    {
        &self.users
    }

    /// Applies one change and gives its answer.
    pub fn handle(&mut self, command: UserCommand) -> (r: UserReply)
        requires
            old(self).wf(),
            command is Connect ==> old(self).state().top < 0x7fff,
        ensures
            final(self).wf(),
            match command {
                UserCommand::Connect(user) => r == UserReply::Connected(UserId(old(self).state().top))
                    && final(self).state().top == old(self).state().top + 1 && final(self).state().users == (
                if old(self).state().users.dom().contains(old(self).state().top) {
                    old(self).state().users
                } else {
                    old(self).state().users.insert(
                        old(self).state().top,
                        UserNameWithInfoView { user_id: old(self).state().top, ..user@ },
                    )
                }),
                UserCommand::Update(user) => r == UserReply::Done && final(self).state() == (UsersView {
                    users: replaced(old(self).state().users, user@),
                    ..old(self).state()
                }),
                UserCommand::Disconnect(user) => r == UserReply::Done && final(self).state() == (UsersView {
                    users: old(self).state().users.remove(user.user_id.0),
                    ..old(self).state()
                }),
            },
    {
        match command {
            UserCommand::Connect(user) => {
                let mut user = user;
                let id = self.users.add(&mut user);
                UserReply::Connected(id)
            },
            UserCommand::Update(user) => {
                self.users.update(&user);
                UserReply::Done
            },
            UserCommand::Disconnect(user) => {
                self.users.remove(&user);
                UserReply::Done
            },
        }
    }
}

/// A user added and then looked up by the id it got is found, with that id.
pub proof fn law_add_then_find(m: Map<i16, UserNameWithInfoView>, top: i16, u: UserNameWithInfoView)
    requires
        !m.dom().contains(top),
    ensures
        m.insert(top, UserNameWithInfoView { user_id: top, ..u }).dom().contains(top),
        m.insert(top, UserNameWithInfoView { user_id: top, ..u })[top].user_id == top,
        m.insert(top, UserNameWithInfoView { user_id: top, ..u })[top].username == u.username,
{
}

/// A user put in place is what a lookup of its id finds.
pub proof fn law_update_then_find(m: Map<i16, UserNameWithInfoView>, u: UserNameWithInfoView)
    ensures
        replaced(m, u).dom().contains(u.user_id),
        replaced(m, u)[u.user_id] == u,
{
}

/// A removed user is not found, and no other user is affected.
pub proof fn law_remove_then_find(m: Map<i16, UserNameWithInfoView>, k: i16)
    ensures
        !m.remove(k).dom().contains(k),
        forall|j: i16| j != k && #[trigger] m.dom().contains(j) ==> m.remove(k)[j] == m[j],
{
}

} // verus!
