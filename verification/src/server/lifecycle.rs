//! The course of one client connection of the full server: the phases it
//! goes through, how its handshake and login are answered, how a login
//! becomes a user, what a keep-alive is answered, and what a departing user
//! leaves behind. Reading, writing and waiting are the caller's part.

use vstd::prelude::*;

use crate::protocol::handshake::{parse_client_handshake, ClientHandshakeRequest};
use crate::protocol::messages::{GenericReply, LoginReply, ProtocolVersion, SetClientUserInfo};
use crate::protocol::parameters::{ChatId, UserFlags, UserId, UserNameWithInfo, UserNameWithInfoView};
use crate::protocol::transaction::{reply_frame, Id, TransactionFrame, TransactionHeader};
use crate::protocol::ProtocolError;
use super::bus::Notification;
use super::chat::Chats;
use super::established::VersionedLoginRequest;
use super::users::Users;
use super::ChatRoomLeave;

verus! {

/// Where a connection stands. `Borrowed` is what is left of a connection
/// whose last step failed: it takes no further step.
#[derive(Debug, Clone, Copy, PartialEq, Eq, Structural)]
pub enum Phase {
    New,
    Unauthenticated,
    Established,
    Closed,
    Borrowed,
}

/// The outside work a step of a connection does in its phase.
#[derive(Debug, Clone, Copy, PartialEq, Eq, Structural)]
pub enum PhaseWork {
    /// Read the client's handshake and answer it.
    Handshake,
    /// Read the login and answer it.
    Login,
    /// Serve requests and notifications until the connection ends.
    Serve,
    /// Nothing: the connection is over.
    Nothing,
}

/// The work of a step in phase `p`.
pub open spec fn phase_work(p: Phase) -> PhaseWork {
    match p {
        Phase::New => PhaseWork::Handshake,
        Phase::Unauthenticated => PhaseWork::Login,
        Phase::Established => PhaseWork::Serve,
        _ => PhaseWork::Nothing,
    }
}

/// The phase after a step in phase `p` that succeeded.
pub open spec fn next_phase(p: Phase) -> Phase {
    match p {
        Phase::New => Phase::Unauthenticated,
        Phase::Unauthenticated => Phase::Established,
        Phase::Established => Phase::Closed,
        Phase::Closed => Phase::Closed,
        Phase::Borrowed => Phase::Borrowed,
    }
}

/// How far along a connection is.
pub open spec fn phase_rank(p: Phase) -> int {
    match p {
        Phase::New => 0,
        Phase::Unauthenticated => 1,
        Phase::Established => 2,
        _ => 3,
    }
}

impl Phase {
    /// The work a step in this phase does. A spent connection takes no step.
    pub fn work(&self) -> (r: PhaseWork)
        requires
            !(*self is Borrowed),
        ensures
            r == phase_work(*self),
    {
        match self {
            Phase::New => PhaseWork::Handshake,
            Phase::Unauthenticated => PhaseWork::Login,
            Phase::Established => PhaseWork::Serve,
            _ => PhaseWork::Nothing,
        }
    }

    /// The phase after a step whose work succeeded or failed. A closed
    /// connection stays closed; a failure leaves the connection spent.
    pub fn after(self, succeeded: bool) -> (r: Phase)
        requires
            !(self is Borrowed),
        ensures
            r == (if self is Closed {
                Phase::Closed
            } else if succeeded {
                next_phase(self)
            } else {
                Phase::Borrowed
            }),
    {
        match self {
            Phase::Closed => Phase::Closed,
            _ => if succeeded {
                match self {
                    Phase::New => Phase::Unauthenticated,
                    Phase::Unauthenticated => Phase::Established,
                    _ => Phase::Closed,
                }
            } else {
                Phase::Borrowed
            },
        }
    }
}

/// A connection goes forward one phase at a time: every successful step of
/// an open connection moves it exactly one phase on, and only a closed
/// connection does no work.
pub proof fn law_phases_in_order(p: Phase)
    requires
        !(p is Borrowed),
    ensures
        !(p is Closed) ==> phase_rank(next_phase(p)) == phase_rank(p) + 1,
        p is Closed ==> next_phase(p) == p,
        (phase_work(p) == PhaseWork::Nothing) <==> p is Closed,
{
}

/// The protocol version a client's handshake is answered with, when the
/// bytes hold a handshake; `None` when they do not.
pub fn handshake_version(buf: &[u8]) -> (r: Option<ProtocolVersion>)
    ensures
        match parse_client_handshake(buf@) {
            Some((n, _)) => if n == buf@.len() {
                r == Some(ProtocolVersion(123))
            } else {
                r is None
            },
            None => r is None,
        },
{
    match ClientHandshakeRequest::try_from(buf) {
        Some(_) => Some(ProtocolVersion(123)),
        None => None,
    }
}

/// The user flags of a newly logged-in user: only the administrator flag
/// (bit 1 of the flags) may be set, and only for an administrator's account.
pub fn login_flags(admin: bool) -> (r: UserFlags)
    ensures
        r.0 == (if admin { 2i16 } else { 0i16 }),
{
    if admin {
        UserFlags(2)
    } else {
        UserFlags(0)
    }
}

/// What an accepted login sets off.
#[derive(Debug)]
pub struct LoginAccepted {
    /// The answer to the login request.
    pub reply: TransactionFrame,
    /// The user the login makes, when the client sent its name and icon
    /// with the login; otherwise the client is yet to send them.
    pub user: Option<UserNameWithInfo>,
}

/// The user a login makes from a name and an icon.
pub open spec fn login_user(name: Seq<u8>, icon: i16, flags: UserFlags) -> UserNameWithInfoView {
    UserNameWithInfoView {
        user_id: 0,
        icon_id: icon,
        user_flags: flags.0,
        username_len: name.len() as i16,
        username: name,
    }
}

/// Answers a login request, given what checking its credentials found: no
/// account (the login is refused), or an account and whether it belongs to
/// an administrator.
pub fn accept_login(
    request: &VersionedLoginRequest,
    header: &TransactionHeader,
    account_admin: Option<bool>,
) -> (r: Option<LoginAccepted>)
    ensures
        match account_admin {
            None => r is None,
            Some(admin) => r matches Some(a) && a.reply@ == reply_frame(
                LoginReply(ProtocolVersion(123)).frame_view(),
                *header,
            ) && match (request.0.nickname, request.0.icon_id) {
                (Some(n), Some(i)) => a.user matches Some(u) && u@ == login_user(
                    n@,
                    i.0,
                    UserFlags(if admin { 2i16 } else { 0i16 }),
                ),
                _ => a.user is None,
            },
        },
{
    match account_admin {
        None => None,
        Some(admin) => {
            let flags = login_flags(admin);
            let reply = LoginReply::default().framed().reply_to(header);
            let user = request.user(flags);
            Some(LoginAccepted { reply, user })
        },
    }
}

/// Completes a login whose client sends its name and icon after the login:
/// reads them from `frame`, fills them in, and gives the user they make.
pub fn complete_login(request: &mut VersionedLoginRequest, frame: TransactionFrame, flags: UserFlags) -> (r:
    Result<UserNameWithInfo, ProtocolError>)
    ensures
        match SetClientUserInfo::rejects(frame) {
            Some(e) => r matches Err(e2) && e2 == e && *final(request) == *old(request),
            None => r matches Ok(u) && exists|v: SetClientUserInfo|
                #![trigger SetClientUserInfo::accepts(frame, v)]
                SetClientUserInfo::accepts(frame, v) && u@ == login_user(v.username@, v.icon_id.0, flags)
                    && (final(request).0.nickname matches Some(n) && n@ == v.username@)
                    && final(request).0.icon_id == Some(v.icon_id)
                    && final(request).0.login == old(request).0.login
                    && final(request).0.password == old(request).0.password,
        },
{
    let info = match SetClientUserInfo::try_from(frame) {
        Ok(info) => info,
        Err(e) => {
            return Err(e);
        },
    };
    let ghost v = info;
    let SetClientUserInfo { username, icon_id } = info;
    let name = username.duplicate();
    request.fill_in(username, icon_id);
    let len = name.len();
    Ok(UserNameWithInfo { icon_id, username_len: len as i16, username: name, user_flags: flags, user_id: UserId(0) })
}

/// The answer to a keep-alive request.
pub fn keep_alive_reply(header: &TransactionHeader) -> (r: TransactionFrame)
    ensures
        r@ == reply_frame(GenericReply.frame_view(), *header),
{
    GenericReply.framed().reply_to(header)
}

/// Takes the next transaction number for a frame the server starts.
pub fn next_transaction_id(counter: &mut u32) -> (r: Id)
    requires
        *old(counter) < u32::MAX,
    ensures
        r.0 == *old(counter) as i32,
        *final(counter) == *old(counter) + 1,
{
    let id = Id(*counter as i32);
    *counter = *counter + 1;
    id
}

/// Whether `r` lists exactly the users of room `k` that are connected, each
/// once and as it is connected.
pub open spec fn lists_room(r: Seq<UserNameWithInfo>, chats: Chats, users: Users, k: i16) -> bool {
    &&& forall|i: int| 0 <= i < r.len() ==> {
        &&& chats@.rooms.dom().contains(k)
        &&& chats@.rooms[k].users.contains(#[trigger] r[i]@.user_id)
        &&& users@.users.dom().contains(r[i]@.user_id)
        &&& users@.users[r[i]@.user_id] == r[i]@
    }
    &&& forall|u: i16| chats@.rooms.dom().contains(k) && #[trigger] chats@.rooms[k].users.contains(u)
        && users@.users.dom().contains(u) ==> exists|i: int| 0 <= i < r.len() && #[trigger] r[i]@.user_id == u
    &&& forall|i: int, j: int| 0 <= i < j < r.len() ==> (#[trigger] r[i])@.user_id != (#[trigger] r[j])@.user_id
}

/// The connected users in chat room `chat_id`; none when there is no such
/// room.
pub fn chat_list(chats: &Chats, users: &Users, chat_id: ChatId) -> (r: Vec<UserNameWithInfo>)
    requires
        chats.wf(),
        users.wf(),
    ensures
        lists_room(r@, *chats, *users, chat_id.0),
{
    let mut out: Vec<UserNameWithInfo> = Vec::new();
    let room = match chats.room(chat_id) {
        Some(room) => room,
        None => {
            return out;
        },
    };
    let ids = room.users();
    let ghost k = chat_id.0;
    let mut i: usize = 0;
    while i < ids.len()
        invariant
            0 <= i <= ids@.len(),
            users.wf(),
            chats@.rooms.dom().contains(k),
            room@ == chats@.rooms[k],
            super::chat::ids_of(ids@) == room@.users,
            super::chat::distinct_ids(ids@),
            forall|a: int| 0 <= a < out@.len() ==> {
                &&& chats@.rooms[k].users.contains(#[trigger] out@[a]@.user_id)
                &&& users@.users.dom().contains(out@[a]@.user_id)
                &&& users@.users[out@[a]@.user_id] == out@[a]@
                &&& exists|b: int| 0 <= b < i && (#[trigger] ids@[b]).0 == out@[a]@.user_id
            },
            forall|b: int| 0 <= b < i && users@.users.dom().contains((#[trigger] ids@[b]).0)
                ==> exists|a: int| 0 <= a < out@.len() && #[trigger] out@[a]@.user_id == ids@[b].0,
            forall|a: int, c: int| 0 <= a < c < out@.len() ==> (#[trigger] out@[a])@.user_id != (#[trigger] out@[c])@.user_id,
        decreases ids@.len() - i,
    {
        let id = ids[i];
        assert(super::chat::ids_of(ids@).contains(id.0));
        let ghost before = out@;
        match users.find(id) {
            Some(u) => {
                proof {
                    assert forall|a: int| 0 <= a < before.len() implies before[a]@.user_id != id.0 by {
                        let b = choose|b: int| 0 <= b < i && (#[trigger] ids@[b]).0 == before[a]@.user_id;
                        assert(ids@[b].0 != ids@[i as int].0);
                    }
                }
                out.push(u.duplicate());
                assert(out@[before.len() as int]@.user_id == id.0);
            },
            None => {},
        }
        proof {
            assert forall|b: int| 0 <= b < i + 1 && users@.users.dom().contains((#[trigger] ids@[b]).0) implies exists|
                a: int,
            | 0 <= a < out@.len() && #[trigger] out@[a]@.user_id == ids@[b].0 by {
                if b < i {
                    let a = choose|a: int| 0 <= a < before.len() && #[trigger] before[a]@.user_id == ids@[b].0;
                    assert(out@[a] == before[a]);
                } else {
                    assert(out@[before.len() as int]@.user_id == ids@[b].0);
                }
            }
        }
        i = i + 1;
    }
    proof {
        assert forall|u: i16| chats@.rooms.dom().contains(k) && #[trigger] chats@.rooms[k].users.contains(u)
            && users@.users.dom().contains(u) implies exists|a: int| 0 <= a < out@.len() && #[trigger] out@[a]@.user_id == u by {
            let b = choose|b: int| 0 <= b < ids@.len() && (#[trigger] ids@[b]).0 == u;
        }
    }
    out
}

/// What a departing user's leaving of its chat rooms tells everyone: that
/// the user left each of them, in the order given.
pub fn departure_notices(rooms: Vec<ChatId>, user: UserId) -> (r: Vec<Notification>)
    ensures
        r@.len() == rooms@.len(),
        forall|i: int| 0 <= i < rooms@.len() ==> #[trigger] r@[i] == Notification::ChatRoomLeave(
            ChatRoomLeave(rooms@[i], user),
        ),
{
    let mut out: Vec<Notification> = Vec::new();
    let mut i: usize = 0;
    while i < rooms.len()
        invariant
            0 <= i <= rooms@.len(),
            out@.len() == i,
            forall|j: int| 0 <= j < i ==> #[trigger] out@[j] == Notification::ChatRoomLeave(
                ChatRoomLeave(rooms@[j], user),
            ),
        decreases rooms@.len() - i,
    {
        out.push(Notification::ChatRoomLeave(ChatRoomLeave(rooms[i], user)));
        i = i + 1;
    }
    out
}

} // verus!
