//! Chat rooms: who is in each room, each room's subject, and the numbering
//! of new rooms.

use std::collections::{HashMap, HashSet};
use vstd::prelude::*;

use crate::protocol::parameters::{ChatId, UserId};
use super::keyed::{elements_of, keys_of};
use super::{ChatRoomCreationRequest, ChatRoomPresence, ChatRoomSubject};

verus! {

/// Why the chat service could not answer.
#[derive(Debug, Clone, Copy, PartialEq, Eq, Structural)]
pub enum ChatError {
    ExecutionError,
    ServiceUnavailable,
}

/// The user ids in a list.
pub open spec fn ids_of(us: Seq<UserId>) -> Set<i16> {
    Set::new(|x: i16| exists|i: int| 0 <= i < us.len() && (#[trigger] us[i]).0 == x)
}

/// No user is in the list twice.
pub open spec fn distinct_ids(us: Seq<UserId>) -> bool {
    forall|i: int, j: int| 0 <= i < j < us.len() ==> (#[trigger] us[i]).0 != (#[trigger] us[j]).0
}

/// A chat room as a value: its subject and its members.
pub struct ChatRoomView {
    pub subject: Option<Seq<u8>>,
    pub users: Set<i16>,
}

/// A chat room.
#[derive(Debug)]
pub struct ChatRoom {
    pub subject: Option<Vec<u8>>,
    users: HashSet<i16>,
}

impl View for ChatRoom {
    type V = ChatRoomView;

    closed spec fn view(&self) -> ChatRoomView {
        ChatRoomView {
            subject: match self.subject {
                Some(s) => Some(s@),
                None => None,
            },
            users: self.users@,
        }
    }
}

impl ChatRoom {
    /// The members are finitely many.
    pub closed spec fn wf(&self) -> bool {
        self.users@.finite()
    }

    pub fn add(&mut self, user: UserId)
        requires
            old(self).wf(),
        ensures
            final(self).wf(),
            final(self)@ == (ChatRoomView { users: old(self)@.users.insert(user.0), ..old(self)@ }),
    {
        broadcast use vstd::std_specs::hash::group_hash_axioms;

        self.users.insert(user.0);
    }

    pub fn remove(&mut self, user: UserId)
        requires
            old(self).wf(),
        ensures
            final(self).wf(),
            final(self)@ == (ChatRoomView { users: old(self)@.users.remove(user.0), ..old(self)@ }),
    {
        broadcast use vstd::std_specs::hash::group_hash_axioms;

        self.users.remove(&user.0);
    }

    /// The members, each once.
    pub fn users(&self) -> (r: Vec<UserId>)
        requires
            self.wf(),
        ensures
            ids_of(r@) == self@.users,
            distinct_ids(r@),
    {
        broadcast use vstd::std_specs::hash::group_hash_axioms;

        let ids = elements_of(&self.users);
        let mut out: Vec<UserId> = Vec::new();
        let mut i: usize = 0;
        while i < ids.len()
            invariant
                0 <= i <= ids@.len(),
                out@.len() == i,
                forall|j: int| 0 <= j < i ==> (#[trigger] out@[j]).0 == ids@[j],
            decreases ids@.len() - i,
        {
            out.push(UserId(ids[i]));
            i = i + 1;
        }
        proof {
            assert(ids_of(out@) =~= self@.users) by {
                assert forall|x: i16| ids_of(out@).contains(x) implies self@.users.contains(x) by {
                    let j = choose|j: int| 0 <= j < out@.len() && (#[trigger] out@[j]).0 == x;
                    assert(ids@.to_set().contains(ids@[j]));
                }
                assert forall|x: i16| self@.users.contains(x) implies ids_of(out@).contains(x) by {
                    assert(ids@.to_set().contains(x));
                    let j = choose|j: int| 0 <= j < ids@.len() && ids@[j] == x;
                    assert(out@[j].0 == x);
                }
            }
            assert forall|a: int, b: int| 0 <= a < b < out@.len() implies (#[trigger] out@[a]).0 != (#[trigger] out@[b]).0 by {
                assert(ids@[a] != ids@[b]);
            }
        }
        out
    }

    /// The subject, if the room has one.
    pub fn subject(&self) -> (r: Option<Vec<u8>>)
        ensures
            match self@.subject {
                Some(s) => r matches Some(t) && t@ == s,
                None => r is None,
            },
    {
        match &self.subject {
            Some(s) => Some(s.clone()),
            None => None,
        }
    }

    pub fn contains(&self, user: &UserId) -> (r: bool)
        ensures
            r == self@.users.contains(user.0),
    {
        broadcast use vstd::std_specs::hash::group_hash_axioms;

        self.users.contains(&user.0)
    }
}

impl Default for ChatRoom {
    fn default() -> (r: Self)
        ensures
            r.wf(),
            r@.subject is None,
            r@.users == Set::<i16>::empty(),
    {
        ChatRoom { subject: None, users: HashSet::new() }
    }
}

/// The room number after `id`, wrapping around.
pub open spec fn next_chat_id(id: i16) -> i16 {
    if id == 0x7fff {
        -0x8000i16
    } else {
        (id + 1) as i16
    }
}

/// A chat room with its number.
#[derive(Debug)]
pub struct ChatRoomId(pub ChatId, pub ChatRoom);

impl ChatRoomId {
    /// An empty room with the next number.
    pub fn next(&self) -> (r: Self)
        ensures
            r.0.0 == next_chat_id(self.0.0),
            r.1.wf(),
            r.1@.subject is None,
            r.1@.users == Set::<i16>::empty(),
    {
        let id: i16 = if self.0.0 == 0x7fff {
            -0x8000
        } else {
            self.0.0 + 1
        };
        ChatRoomId(ChatId(id), ChatRoom::default())
    }
}

/// Every room as a value, by number.
pub struct ChatsView {
    pub rooms: Map<i16, ChatRoomView>,
    pub next: i16,
}

/// The rooms and the number the next new room gets.
#[derive(Debug)]
pub struct Chats {
    rooms: HashMap<i16, ChatRoom>,
    next: ChatRoomId,
}

/// The room with number `k`, or an empty room without a subject.
pub open spec fn room_or_default(m: Map<i16, ChatRoomView>, k: i16) -> ChatRoomView {
    if m.dom().contains(k) {
        m[k]
    } else {
        ChatRoomView { subject: None, users: Set::empty() }
    }
}

/// The rooms after `u` joins room `k`; a missing room is made.
pub open spec fn joined(m: Map<i16, ChatRoomView>, k: i16, u: i16) -> Map<i16, ChatRoomView> {
    m.insert(k, ChatRoomView { users: room_or_default(m, k).users.insert(u), ..room_or_default(m, k) })
}

/// The rooms after `u` leaves room `k`; a missing room is made, empty.
pub open spec fn left(m: Map<i16, ChatRoomView>, k: i16, u: i16) -> Map<i16, ChatRoomView> {
    m.insert(k, ChatRoomView { users: room_or_default(m, k).users.remove(u), ..room_or_default(m, k) })
}

/// The rooms after room `k` gets the subject `s`; a missing room is made.
pub open spec fn with_subject(m: Map<i16, ChatRoomView>, k: i16, s: Seq<u8>) -> Map<i16, ChatRoomView> {
    m.insert(k, ChatRoomView { subject: Some(s), ..room_or_default(m, k) })
}

/// The rooms after `u` leaves every room.
pub open spec fn left_all(m: Map<i16, ChatRoomView>, u: i16) -> Map<i16, ChatRoomView> {
    m.map_values(|r: ChatRoomView| ChatRoomView { users: r.users.remove(u), ..r })
}

/// The numbers in a list of rooms.
pub open spec fn chat_ids_of(cs: Seq<ChatId>) -> Set<i16> {
    Set::new(|x: i16| exists|i: int| 0 <= i < cs.len() && (#[trigger] cs[i]).0 == x)
}

/// No room number is in the list twice.
pub open spec fn distinct_chat_ids(cs: Seq<ChatId>) -> bool {
    forall|i: int, j: int| 0 <= i < j < cs.len() ==> (#[trigger] cs[i]).0 != (#[trigger] cs[j]).0
}

/// The numbers of the rooms that `u` is in.
pub open spec fn rooms_of(m: Map<i16, ChatRoomView>, u: i16) -> Set<i16> {
    m.dom().filter(|k: i16| m[k].users.contains(u))
}

/// The rooms after a room `k` is made for the users `us`: with no users,
/// nothing changes.
pub open spec fn created(m: Map<i16, ChatRoomView>, k: i16, us: Set<i16>) -> Map<i16, ChatRoomView> {
    if us == Set::<i16>::empty() {
        m
    } else {
        m.insert(k, ChatRoomView { users: room_or_default(m, k).users.union(us), ..room_or_default(m, k) })
    }
}

impl View for Chats {
    type V = ChatsView;

    closed spec fn view(&self) -> ChatsView {
        ChatsView { rooms: self.rooms@.map_values(|r: ChatRoom| r@), next: self.next.0.0 }
    }
}

impl Chats {
    /// Every room is well formed.
    pub closed spec fn wf(&self) -> bool {
        forall|k: i16| #[trigger] self.rooms@.contains_key(k) ==> self.rooms@[k].wf()
    }

    /// No rooms; the first room made gets number 1.
    pub fn new() -> (r: Self)
        ensures
            r.wf(),
            r@.rooms == Map::<i16, ChatRoomView>::empty(),
            r@.next == 1,
    {
        let r = Chats { rooms: HashMap::new(), next: ChatRoomId(ChatId::default(), ChatRoom::default()) };
        assert(r@.rooms =~= Map::<i16, ChatRoomView>::empty());
        r
    }

    /// Takes the room with number `chat_id` out, or an empty one when there
    /// is none; `put_room` puts it back.
    fn take_room(&mut self, chat_id: ChatId) -> (r: ChatRoom)
        requires
            old(self).wf(),
        ensures
            final(self).wf(),
            final(self).next == old(self).next,
            final(self)@.rooms == old(self)@.rooms.remove(chat_id.0),
            r.wf(),
            r@ == room_or_default(old(self)@.rooms, chat_id.0),
    {
        broadcast use vstd::std_specs::hash::group_hash_axioms;

        let taken = self.rooms.remove(&chat_id.0);
        assert(self@.rooms =~= old(self)@.rooms.remove(chat_id.0));
        match taken {
            Some(room) => room,
            None => ChatRoom::default(),
        }
    }

    /// Puts a room under its number.
    fn put_room(&mut self, chat_id: ChatId, room: ChatRoom)
        requires
            old(self).wf(),
            room.wf(),
        ensures
            final(self).wf(),
            final(self).next == old(self).next,
            final(self)@ == (ChatsView { rooms: old(self)@.rooms.insert(chat_id.0, room@), ..old(self)@ }),
    {
        broadcast use vstd::std_specs::hash::group_hash_axioms;

        let ghost rv = room@;
        self.rooms.insert(chat_id.0, room);
        assert(self@.rooms =~= old(self)@.rooms.insert(chat_id.0, rv));
    }

    /// Makes a room with the next number for these users and returns its
    /// number.
    pub fn create(&mut self, users: Vec<UserId>) -> (r: ChatId)
        requires
            old(self).wf(),
        ensures
            final(self).wf(),
            r.0 == old(self)@.next,
            final(self)@.next == next_chat_id(old(self)@.next),
            final(self)@.rooms == created(old(self)@.rooms, r.0, ids_of(users@)),
    {
        let chat = self.next.0;
        self.next = self.next.next();
        let ghost start = self@.rooms;
        let mut i: usize = 0;
        while i < users.len()
            invariant
                self.wf(),
                0 <= i <= users@.len(),
                self@.next == next_chat_id(old(self)@.next),
                chat.0 == old(self)@.next,
                start == old(self)@.rooms,
                i == 0 ==> self@.rooms == start,
                i > 0 ==> self@.rooms == created(start, chat.0, ids_of(users@.take(i as int))),
            decreases users@.len() - i,
        {
            self.join(chat, users[i]);
            proof {
                let t = users@.take(i + 1);
                assert(ids_of(t) =~= ids_of(users@.take(i as int)).insert(users@[i as int].0)) by {
                    assert forall|x: i16| ids_of(t).contains(x) implies ids_of(users@.take(i as int)).insert(users@[i as int].0).contains(x) by {
                        let j = choose|j: int| 0 <= j < t.len() && (#[trigger] t[j]).0 == x;
                        if j < i {
                            assert(users@.take(i as int)[j] == t[j]);
                        }
                    }
                    assert forall|x: i16| ids_of(users@.take(i as int)).insert(users@[i as int].0).contains(x) implies ids_of(t).contains(x) by {
                        if x == users@[i as int].0 {
                            assert(t[i as int] == users@[i as int]);
                        } else {
                            let j = choose|j: int| 0 <= j < i && (#[trigger] users@.take(i as int)[j]).0 == x;
                            assert(t[j] == users@.take(i as int)[j]);
                        }
                    }
                }
                assert(ids_of(t).contains(users@[i as int].0)) by {
                    assert(t[i as int] == users@[i as int]);
                }
                if i == 0 {
                    assert(ids_of(users@.take(0)) =~= Set::<i16>::empty());
                    assert(room_or_default(start, chat.0).users.insert(users@[0].0) =~= room_or_default(start, chat.0).users.union(ids_of(t)));
                } else {
                    let prev = ids_of(users@.take(i as int));
                    assert(prev.contains(users@[0].0)) by {
                        assert(users@.take(i as int)[0] == users@[0]);
                    }
                    assert(room_or_default(start, chat.0).users.union(prev).insert(users@[i as int].0) =~= room_or_default(start, chat.0).users.union(ids_of(t)));
                }
                assert(self@.rooms =~= created(start, chat.0, ids_of(t)));
            }
            i = i + 1;
        }
        proof {
            assert(users@.take(users@.len() as int) =~= users@);
            if users@.len() == 0 {
                assert(ids_of(users@) =~= Set::<i16>::empty());
            }
        }
        chat
    }

    pub fn join(&mut self, chat_id: ChatId, user: UserId)
        requires
            old(self).wf(),
        ensures
            final(self).wf(),
            final(self)@ == (ChatsView { rooms: joined(old(self)@.rooms, chat_id.0, user.0), ..old(self)@ }),
    {
        let mut room = self.take_room(chat_id);
        room.add(user);
        self.put_room(chat_id, room);
        assert(self@.rooms =~= joined(old(self)@.rooms, chat_id.0, user.0));
    }

    pub fn leave(&mut self, chat_id: ChatId, user: UserId)
        requires
            old(self).wf(),
        ensures
            final(self).wf(),
            final(self)@ == (ChatsView { rooms: left(old(self)@.rooms, chat_id.0, user.0), ..old(self)@ }),
    {
        let mut room = self.take_room(chat_id);
        room.remove(user);
        self.put_room(chat_id, room);
        assert(self@.rooms =~= left(old(self)@.rooms, chat_id.0, user.0));
    }

    pub fn set_subject(&mut self, chat_id: ChatId, subject: Vec<u8>)
        requires
            old(self).wf(),
        ensures
            final(self).wf(),
            final(self)@ == (ChatsView { rooms: with_subject(old(self)@.rooms, chat_id.0, subject@), ..old(self)@ }),
    {
        let mut room = self.take_room(chat_id);
        room.subject = Some(subject);
        self.put_room(chat_id, room);
        assert(self@.rooms =~= with_subject(old(self)@.rooms, chat_id.0, subject@));
    }

    /// Takes `user` out of every room, and returns the numbers of the rooms
    /// the user was in, each once.
    pub fn leave_all(&mut self, user: UserId) -> (r: Vec<ChatId>)
        requires
            old(self).wf(),
        ensures
            final(self).wf(),
            final(self)@ == (ChatsView { rooms: left_all(old(self)@.rooms, user.0), ..old(self)@ }),
            chat_ids_of(r@) == rooms_of(old(self)@.rooms, user.0),
            distinct_chat_ids(r@),
    {
        let ghost start = self@.rooms;
        let ids = keys_of(&self.rooms);
        let mut out: Vec<ChatId> = Vec::new();
        let mut i: usize = 0;
        while i < ids.len()
            invariant
                self.wf(),
                self.next == old(self).next,
                start == old(self)@.rooms,
                ids@.to_set() == start.dom(),
                ids@.no_duplicates(),
                0 <= i <= ids@.len(),
                self@.rooms.dom() == start.dom(),
                forall|k: i16| #[trigger] self@.rooms.contains_key(k) ==> self@.rooms[k] == (if ids@.take(
                    i as int,
                ).contains(k) {
                    ChatRoomView { users: start[k].users.remove(user.0), ..start[k] }
                } else {
                    start[k]
                }),
                chat_ids_of(out@) == Set::new(
                    |k: i16| ids@.take(i as int).contains(k) && start[k].users.contains(user.0),
                ),
                distinct_chat_ids(out@),
                forall|a: int| 0 <= a < out@.len() ==> ids@.take(i as int).contains((#[trigger] out@[a]).0),
            decreases ids@.len() - i,
        {
            let id = ChatId(ids[i]);
            let ghost before = self@.rooms;
            let ghost prev_out = out@;
            assert(ids@.to_set().contains(id.0));
            assert(!ids@.take(i as int).contains(id.0)) by {
                if ids@.take(i as int).contains(id.0) {
                    let a = choose|a: int| 0 <= a < i && ids@.take(i as int)[a] == id.0;
                    assert(ids@[a] == ids@[i as int]);
                }
            }
            let mut room = self.take_room(id);
            let was_member = room.contains(&user);
            room.remove(user);
            self.put_room(id, room);
            if was_member {
                proof {
                    assert forall|a: int| 0 <= a < prev_out.len() implies (#[trigger] prev_out[a]).0 != id.0 by {
                        assert(ids@.take(i as int).contains(prev_out[a].0));
                    }
                }
                out.push(id);
            }
            proof {
                let t = ids@.take(i + 1);
                assert(t =~= ids@.take(i as int).push(id.0));
                assert forall|k: i16| #[trigger] self@.rooms.contains_key(k) implies self@.rooms[k] == (if t.contains(k) {
                    ChatRoomView { users: start[k].users.remove(user.0), ..start[k] }
                } else {
                    start[k]
                }) by {
                    if k != id.0 {
                        assert(t.contains(k) == ids@.take(i as int).contains(k));
                    } else {
                        assert(t.contains(k)) by {
                            assert(t[i as int] == k);
                        }
                    }
                }
                let p = |k: i16| t.contains(k) && start[k].users.contains(user.0);
                assert(chat_ids_of(out@) =~= Set::new(p)) by {
                    assert forall|k: i16| chat_ids_of(out@).contains(k) implies #[trigger] p(k) by {
                        let a = choose|a: int| 0 <= a < out@.len() && (#[trigger] out@[a]).0 == k;
                        if a < prev_out.len() {
                            assert(out@[a] == prev_out[a]);
                            assert(chat_ids_of(prev_out).contains(k));
                        } else {
                            assert(t[i as int] == k);
                        }
                    }
                    assert forall|k: i16| #[trigger] p(k) implies chat_ids_of(out@).contains(k) by {
                        if k == id.0 {
                            assert(out@[out@.len() - 1].0 == k);
                        } else {
                            assert(ids@.take(i as int).contains(k));
                            assert(chat_ids_of(prev_out).contains(k));
                            let a = choose|a: int| 0 <= a < prev_out.len() && (#[trigger] prev_out[a]).0 == k;
                            assert(out@[a] == prev_out[a]);
                        }
                    }
                }
                assert forall|a: int| 0 <= a < out@.len() implies t.contains((#[trigger] out@[a]).0) by {
                    if a < prev_out.len() {
                        assert(out@[a] == prev_out[a]);
                        assert(ids@.take(i as int).contains(prev_out[a].0));
                    } else {
                        assert(t[i as int] == out@[a].0);
                    }
                }
            }
            i = i + 1;
        }
        proof {
            assert(ids@.take(ids@.len() as int) =~= ids@);
            assert forall|k: i16| start.dom().contains(k) implies ids@.contains(k) by {
                assert(ids@.to_set().contains(k));
            }
            assert(self@.rooms =~= left_all(start, user.0));
            assert(chat_ids_of(out@) =~= rooms_of(start, user.0)) by {
                assert forall|k: i16| #[trigger] rooms_of(start, user.0).contains(k) implies chat_ids_of(out@).contains(k) by {
                    assert(ids@.contains(k));
                }
                assert forall|k: i16| #[trigger] chat_ids_of(out@).contains(k) implies rooms_of(start, user.0).contains(k) by {
                    assert(ids@.contains(k));
                    assert(ids@.to_set().contains(k));
                }
            }
        }
        out
    }

    /// The room with number `chat_id`, if there is one.
    pub fn room(&self, chat_id: ChatId) -> (r: Option<&ChatRoom>)
        requires
            self.wf(),
        ensures
            match r {
                Some(room) => self@.rooms.dom().contains(chat_id.0) && room@ == self@.rooms[chat_id.0]
                    && room.wf(),
                None => !self@.rooms.dom().contains(chat_id.0),
            },
    {
        broadcast use vstd::std_specs::hash::group_hash_axioms;

        self.rooms.get(&chat_id.0)
    }
}

/// A change asked of the chat rooms.
#[derive(Debug)]
pub enum ChatCommand {
    Create(ChatRoomCreationRequest),
    SubjectUpdate(ChatRoomSubject),
    UserJoin(ChatRoomPresence),
    UserUpdate(ChatRoomPresence),
    UserLeave(ChatRoomPresence),
    UserLeaveAll(UserId),
}

/// What a change of the chat rooms answers.
#[derive(Debug)]
pub enum ChatReply {
    Created(ChatId),
    Done,
    LeftRooms(Vec<ChatId>),
}

/// The members a new room is made with: the user who asks, then the users
/// invited.
pub open spec fn creation_members(request: ChatRoomCreationRequest) -> Set<i16> {
    ids_of(request.1@).insert(request.0.0)
}

/// Keeps the chat rooms and applies the changes asked of them, one at a
/// time; the caller passes on each answer and each new state.
#[derive(Debug)]
pub struct ChatUpdateProcessor {
    chats: Chats,
}

impl ChatUpdateProcessor {
    pub closed spec fn wf(&self) -> bool {
        self.chats.wf()
    }

    /// The rooms as they are now.
    pub closed spec fn state(&self) -> ChatsView {
        self.chats@
    }

    pub fn new() -> (r: Self)
        ensures
            r.wf(),
            r.state().rooms == Map::<i16, ChatRoomView>::empty(),
            r.state().next == 1,
    {
        ChatUpdateProcessor { chats: Chats::new() }
    }

    /// The rooms, to be published after a change.
    pub fn chats(&self) -> (r: &Chats)
        ensures
            r@ == self.state(),
            self.wf() ==> r.wf(),
    {
        &self.chats
    }

    /// Applies one change and gives its answer.
    pub fn handle(&mut self, command: ChatCommand) -> (r: ChatReply)
        requires
            old(self).wf(),
        ensures
            final(self).wf(),
            match command {
                ChatCommand::Create(request) => r matches ChatReply::Created(id) && id.0 == old(self).state().next
                    && final(self).state() == (ChatsView {
                        rooms: created(old(self).state().rooms, id.0, creation_members(request)),
                        next: next_chat_id(old(self).state().next),
                    }),
                ChatCommand::UserJoin(ChatRoomPresence(chat, user)) => r is Done && final(self).state() == (
                ChatsView { rooms: joined(old(self).state().rooms, chat.0, user.0.user_id.0), ..old(self).state() }),
                ChatCommand::UserUpdate(_) => r is Done && final(self).state() == old(self).state(),
                ChatCommand::UserLeave(ChatRoomPresence(chat, user)) => r is Done && final(self).state() == (
                ChatsView { rooms: left(old(self).state().rooms, chat.0, user.0.user_id.0), ..old(self).state() }),
                ChatCommand::SubjectUpdate(ChatRoomSubject(chat, subject)) => r is Done && final(self).state() == (
                ChatsView { rooms: with_subject(old(self).state().rooms, chat.0, subject@), ..old(self).state() }),
                ChatCommand::UserLeaveAll(user) => r matches ChatReply::LeftRooms(ids) && chat_ids_of(ids@)
                    == rooms_of(old(self).state().rooms, user.0) && distinct_chat_ids(ids@) && final(self).state()
                    == (ChatsView { rooms: left_all(old(self).state().rooms, user.0), ..old(self).state() }),
            },
    {
        match command {
            ChatCommand::Create(request) => {
                let ChatRoomCreationRequest(creator, invited) = request;
                let mut members: Vec<UserId> = vec![creator];
                let ghost invited_ids = ids_of(invited@);
                let mut i: usize = 0;
                while i < invited.len()
                    invariant
                        0 <= i <= invited@.len(),
                        members@ == seq![creator] + invited@.take(i as int),
                    decreases invited@.len() - i,
                {
                    members.push(invited[i]);
                    i = i + 1;
                    assert(members@ =~= seq![creator] + invited@.take(i as int));
                }
                proof {
                    assert(invited@.take(invited@.len() as int) =~= invited@);
                    assert(ids_of(members@) =~= invited_ids.insert(creator.0)) by {
                        assert forall|x: i16| ids_of(members@).contains(x) implies invited_ids.insert(creator.0).contains(x) by {
                            let j = choose|j: int| 0 <= j < members@.len() && (#[trigger] members@[j]).0 == x;
                            if j > 0 {
                                assert(members@[j] == invited@[j - 1]);
                            }
                        }
                        assert forall|x: i16| invited_ids.insert(creator.0).contains(x) implies ids_of(members@).contains(x) by {
                            if x == creator.0 {
                                assert(members@[0] == creator);
                            } else {
                                let j = choose|j: int| 0 <= j < invited@.len() && (#[trigger] invited@[j]).0 == x;
                                assert(members@[j + 1] == invited@[j]);
                            }
                        }
                    }
                }
                let id = self.chats.create(members);
                ChatReply::Created(id)
            },
            ChatCommand::UserJoin(ChatRoomPresence(chat, user)) => {
                self.chats.join(chat, user.0.user_id);
                ChatReply::Done
            },
            ChatCommand::UserUpdate(_) => ChatReply::Done,
            ChatCommand::UserLeave(ChatRoomPresence(chat, user)) => {
                self.chats.leave(chat, user.0.user_id);
                ChatReply::Done
            },
            ChatCommand::SubjectUpdate(ChatRoomSubject(chat, subject)) => {
                self.chats.set_subject(chat, subject);
                ChatReply::Done
            },
            ChatCommand::UserLeaveAll(user) => ChatReply::LeftRooms(self.chats.leave_all(user)),
        }
    }
}

/// After a user joins a room, the room exists and has the user; no other
/// room changes.
pub proof fn law_join_makes_member(m: Map<i16, ChatRoomView>, k: i16, u: i16)
    ensures
        joined(m, k, u).dom().contains(k),
        joined(m, k, u)[k].users.contains(u),
        forall|k2: i16| k2 != k && #[trigger] m.dom().contains(k2) ==> joined(m, k, u)[k2] == m[k2],
{
}

/// After a user leaves a room, the room does not have the user; no other room
/// changes.
pub proof fn law_leave_removes_member(m: Map<i16, ChatRoomView>, k: i16, u: i16)
    ensures
        !left(m, k, u)[k].users.contains(u),
        forall|k2: i16| k2 != k && #[trigger] m.dom().contains(k2) ==> left(m, k, u)[k2] == m[k2],
{
}

/// Joining a room one was not in and leaving it again leaves the rooms as
/// they were.
pub proof fn law_join_then_leave(m: Map<i16, ChatRoomView>, k: i16, u: i16)
    requires
        m.dom().contains(k),
        !m[k].users.contains(u),
    ensures
        left(joined(m, k, u), k, u) == m,
{
    assert(m[k].users.insert(u).remove(u) =~= m[k].users);
    assert(left(joined(m, k, u), k, u) =~= m);
}

/// After a user leaves every room, no room has the user, the same rooms
/// exist, and a room without the user is unchanged.
pub proof fn law_leave_all(m: Map<i16, ChatRoomView>, u: i16)
    ensures
        left_all(m, u).dom() == m.dom(),
        forall|k: i16| #[trigger] left_all(m, u).dom().contains(k) ==> !left_all(m, u)[k].users.contains(u),
        forall|k: i16| #[trigger] m.dom().contains(k) && !m[k].users.contains(u) ==> left_all(m, u)[k] == m[k],
        rooms_of(left_all(m, u), u) == Set::<i16>::empty(),
{
    assert(left_all(m, u).dom() =~= m.dom());
    assert forall|k: i16| #[trigger] m.dom().contains(k) && !m[k].users.contains(u) implies left_all(m, u)[k] == m[k] by {
        assert(m[k].users.remove(u) =~= m[k].users);
    }
    assert(rooms_of(left_all(m, u), u) =~= Set::<i16>::empty());
}

/// Leaving every room a second time changes nothing.
pub proof fn law_leave_all_idempotent(m: Map<i16, ChatRoomView>, u: i16)
    ensures
        left_all(left_all(m, u), u) == left_all(m, u),
{
    assert forall|k: i16| #[trigger] left_all(m, u).dom().contains(k) implies left_all(left_all(m, u), u)[k] == left_all(m, u)[k] by {
        assert(m[k].users.remove(u).remove(u) =~= m[k].users.remove(u));
    }
    assert(left_all(left_all(m, u), u) =~= left_all(m, u));
}

/// A room made for some users has each of them.
pub proof fn law_create_has_members(m: Map<i16, ChatRoomView>, k: i16, us: Set<i16>, u: i16)
    requires
        us.contains(u),
    ensures
        created(m, k, us).dom().contains(k),
        created(m, k, us)[k].users.contains(u),
{
}

/// A room given a subject has it, with the same members.
pub proof fn law_subject(m: Map<i16, ChatRoomView>, k: i16, s: Seq<u8>)
    ensures
        with_subject(m, k, s)[k].subject == Some(s),
        with_subject(m, k, s)[k].users == room_or_default(m, k).users,
{
}

/// Room numbers given one after the other differ.
pub proof fn law_next_differs(n: i16)
    ensures
        next_chat_id(n) != n,
{
}

} // verus!
