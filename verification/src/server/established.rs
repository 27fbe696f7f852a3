//! A logged-in connection of the full server: which notifications reach
//! the client, and as what frame; which requests are read and how a login
//! becomes a user. Reading, writing and waiting are the caller's part.

use vstd::prelude::*;

use crate::protocol::messages::{
    frame_view_of_chat_user, ChatMessage, ConnectionKeepAlive, InviteToChat, LoginRequest,
    NotifyChatSubject, NotifyChatUserChange, NotifyChatUserDelete, NotifyUserChange,
    NotifyUserDelete, ServerMessage,
};
use crate::protocol::parameters::{
    ChatSubject, IconId, Nickname, Password, UserFlags, UserId, UserLogin, UserNameWithInfo,
    UserNameWithInfoView, inverted,
};
use crate::protocol::transaction::{spec_transaction_type, TransactionFrame, TransactionFrameView};
use crate::protocol::TransactionType;
use super::bus::Notification;
use super::chat::Chats;
use super::connection::{chat_frame_view, server_message_view};
use super::users::Users;
use super::{reads_request, request_readable, unfinished_type, ChatRoomInvite, ChatRoomLeave, ChatRoomPresence, ChatRoomSubject, ClientRequest, InstantMessage, User};

verus! {

/// Whether the user `u` is in the chat room `k`: the room has the user's id
/// and the user is connected as `u` is.
pub open spec fn in_room(chats: Chats, users: Users, k: i16, u: UserNameWithInfoView) -> bool {
    &&& chats@.rooms.dom().contains(k)
    &&& chats@.rooms[k].users.contains(u.user_id)
    &&& users@.users.dom().contains(u.user_id)
    &&& users@.users[u.user_id] == u
}

/// The frame telling that a user came or changed.
pub open spec fn user_change_view(u: UserNameWithInfoView) -> TransactionFrameView {
    crate::protocol::transaction::frame_of(
        TransactionType::NotifyUserChange,
        seq![
            crate::protocol::messages::i16_param(crate::protocol::TransactionField::UserId, u.user_id),
            crate::protocol::messages::i16_param(crate::protocol::TransactionField::UserIconId, u.icon_id),
            crate::protocol::messages::i16_param(crate::protocol::TransactionField::UserFlags, u.user_flags),
            crate::protocol::messages::bytes_param(crate::protocol::TransactionField::UserName, u.username),
        ],
    )
}

/// What frame, if any, a notification is written to the client as, given
/// the client's own user.
pub open spec fn notification_view(
    n: Notification,
    me: Option<UserNameWithInfoView>,
    chats: Chats,
    users: Users,
) -> Option<TransactionFrameView> {
    match n {
        Notification::End => None,
        Notification::DownloadInfo(d) => Some(
            (crate::protocol::messages::DownloadInfo { reference: d.0, waiting_count: d.1 }).frame_view(),
        ),
        Notification::Chat(chat) => match chat.chat_id {
            None => Some(chat.frame_view()),
            Some(id) => match me {
                Some(u) => if in_room(chats, users, id.0, u) {
                    Some(chat.frame_view())
                } else {
                    None
                },
                None => None,
            },
        },
        Notification::InstantMessage(InstantMessage { from, to, message }) => match me {
            Some(u) => if u.user_id == to.0.user_id.0 {
                Some(server_message_view(Some((from.0.user_id.0, from.0.username@)), message@))
            } else {
                None
            },
            None => None,
        },
        Notification::Broadcast(b) => Some(server_message_view(None, b.0@)),
        Notification::News(a) => Some(
            crate::protocol::transaction::frame_of(
                TransactionType::NewMessage,
                seq![crate::protocol::messages::bytes_param(crate::protocol::TransactionField::Data, a.0@ + super::separator())],
            ),
        ),
        Notification::UserConnect(User(u)) => Some(user_change_view(u@)),
        Notification::UserUpdate(User(u)) => Some(user_change_view(u@)),
        Notification::UserDisconnect(User(u)) => Some(
            crate::protocol::transaction::frame_of(
                TransactionType::NotifyUserDelete,
                seq![crate::protocol::messages::i16_param(crate::protocol::TransactionField::UserId, u.user_id.0)],
            ),
        ),
        Notification::ChatRoomInvite(ChatRoomInvite(chat, user)) => match me {
            Some(u) => if u.user_id == user.0 {
                Some(InviteToChat { user_id: user, chat_id: chat }.frame_view())
            } else {
                None
            },
            None => None,
        },
        Notification::ChatRoomJoin(ChatRoomPresence(room, user)) => Some(
            frame_view_of_chat_user(TransactionType::NotifyChatUserChange, room.0, user.0@),
        ),
        Notification::ChatRoomLeave(ChatRoomLeave(room, user)) => Some(
            frame_view_of_chat_user(
                TransactionType::NotifyChatUserDelete,
                room.0,
                UserNameWithInfoView {
                    user_id: user.0,
                    icon_id: 0,
                    user_flags: 0,
                    username_len: 0,
                    username: Seq::empty(),
                },
            ),
        ),
        Notification::ChatRoomSubjectUpdate(ChatRoomSubject(room, subject)) => Some(
            crate::protocol::transaction::frame_of(
                TransactionType::NotifyChatSubject,
                seq![
                    crate::protocol::messages::i16_param(crate::protocol::TransactionField::ChatId, room.0),
                    crate::protocol::messages::bytes_param(crate::protocol::TransactionField::ChatSubject, subject@),
                ],
            ),
        ),
    }
}

/// Whether the client's user is in the chat room.
fn is_in_room(chats: &Chats, users: &Users, chat_id: i16, me: &UserNameWithInfo) -> (r: bool)
    requires
        chats.wf(),
        users.wf(),
    ensures
        r == in_room(*chats, *users, chat_id, me@),
{
    match chats.room(crate::protocol::parameters::ChatId(chat_id)) {
        None => false,
        Some(room) => {
            if !room.contains(&me.user_id) {
                return false;
            }
            match users.find(me.user_id) {
                None => false,
                Some(u) => same_user(u, me),
            }
        },
    }
}

/// Whether two user entries are the same.
fn same_user(a: &UserNameWithInfo, b: &UserNameWithInfo) -> (r: bool)
    ensures
        r == (a@ == b@),
{
    a.user_id.0 == b.user_id.0 && a.icon_id.0 == b.icon_id.0 && a.user_flags.0 == b.user_flags.0
        && a.username_len == b.username_len && crate::protocol::codec::bytes_eq(
        a.username.0.as_slice(),
        b.username.0.as_slice(),
    )
}

/// The frame, if any, that a notification is written to the client as.
pub fn notification_frame(
    n: Notification,
    me: Option<&UserNameWithInfo>,
    chats: &Chats,
    users: &Users,
) -> (r: Option<TransactionFrame>)
    requires
        chats.wf(),
        users.wf(),
    ensures
        match notification_view(
            n,
            match me {
                Some(u) => Some(u@),
                None => None,
            },
            *chats,
            *users,
        ) {
            Some(f) => r matches Some(g) && g@ == f,
            None => r is None,
        },
{
    match n {
        Notification::End => None,
        Notification::DownloadInfo(d) => Some(
            crate::protocol::messages::DownloadInfo { reference: d.0, waiting_count: d.1 }.framed(),
        ),
        Notification::Chat(chat) => match chat.chat_id {
            None => Some(chat.framed()),
            Some(id) => match me {
                Some(u) => if is_in_room(chats, users, id.0, u) {
                    Some(chat.framed())
                } else {
                    None
                },
                None => None,
            },
        },
        Notification::InstantMessage(InstantMessage { from, to, message }) => match me {
            Some(u) => if u.user_id.0 == to.0.user_id.0 {
                let m = ServerMessage {
                    user_id: Some(from.0.user_id),
                    user_name: Some(from.0.username),
                    message,
                };
                Some(m.framed())
            } else {
                None
            },
            None => None,
        },
        Notification::Broadcast(b) => Some(b.into_server_message().framed()),
        Notification::News(a) => Some(a.into_notification().framed()),
        Notification::UserConnect(User(u)) => Some(NotifyUserChange::from_user(&u).framed()),
        Notification::UserUpdate(User(u)) => Some(NotifyUserChange::from_user(&u).framed()),
        Notification::UserDisconnect(User(u)) => Some(NotifyUserDelete::from_user(&u).framed()),
        Notification::ChatRoomInvite(ChatRoomInvite(chat, user)) => match me {
            Some(u) => if u.user_id.0 == user.0 {
                Some(InviteToChat { user_id: user, chat_id: chat }.framed())
            } else {
                None
            },
            None => None,
        },
        Notification::ChatRoomJoin(ChatRoomPresence(room, user)) => Some(
            NotifyChatUserChange::from_user(room, &user.0).framed(),
        ),
        Notification::ChatRoomLeave(ChatRoomLeave(room, user)) => {
            let notice = NotifyChatUserDelete {
                chat_id: room,
                user_id: user,
                icon_id: IconId(0),
                user_flags: UserFlags(0),
                user_name: Nickname(Vec::new()),
            };
            Some(notice.framed())
        },
        Notification::ChatRoomSubjectUpdate(ChatRoomSubject(room, subject)) => Some(
            NotifyChatSubject { chat_id: room, subject: ChatSubject(subject) }.framed(),
        ),
    }
}

/// What a frame from a logged-in client is.
#[derive(Debug)]
pub enum Incoming {
    Request(ClientRequest),
    KeepAlive,
    Unhandled,
}

/// Sorts a frame from a logged-in client: a request the server reads, a
/// keep-alive, or something it does not handle.
pub fn classify(frame: TransactionFrame) -> (r: Incoming)
    ensures
        match spec_transaction_type(frame.header) {
            Ok(t) => if unfinished_type(t) {
                r is Unhandled
            } else if request_readable(frame) {
                r matches Incoming::Request(req) && reads_request(frame, Ok(req))
            } else if t == TransactionType::ConnectionKeepAlive {
                r is KeepAlive
            } else {
                r is Unhandled
            },
            Err(_) => r is Unhandled,
        },
{
    let t = match frame.transaction_type() {
        Ok(t) => t,
        Err(_) => {
            return Incoming::Unhandled;
        },
    };
    match t {
        TransactionType::Agreed | TransactionType::DownloadFolder | TransactionType::DownloadBanner
        | TransactionType::UploadFolder => {
            return Incoming::Unhandled;
        },
        _ => {},
    }
    let keep_alive = match t {
        TransactionType::ConnectionKeepAlive => true,
        _ => false,
    };
    match ClientRequest::try_from(frame) {
        Ok(req) => Incoming::Request(req),
        Err(_) => if keep_alive {
            Incoming::KeepAlive
        } else {
            Incoming::Unhandled
        },
    }
}

/// A login request, as read from a client of either protocol version.
#[derive(Debug)]
pub struct VersionedLoginRequest(pub LoginRequest);

/// The login a client without a login gets.
pub open spec fn guest_login() -> Seq<u8> {
    seq![103u8, 117u8, 101u8, 115u8, 116u8]
}

impl VersionedLoginRequest {
    /// The name and icon an old client sends with its login.
    pub fn old_style(&self) -> (r: Option<(Nickname, IconId)>)
        ensures
            match (self.0.nickname, self.0.icon_id) {
                (Some(n), Some(i)) => r matches Some((n2, i2)) && n2@ == n@ && i2 == i,
                _ => r is None,
            },
    {
        match (&self.0.nickname, self.0.icon_id) {
            (Some(n), Some(i)) => Some((n.duplicate(), i)),
            _ => None,
        }
    }

    /// Fills in the name and icon a new client sends after its login.
    pub fn fill_in(&mut self, nickname: Nickname, icon_id: IconId)
        ensures
            final(self).0.nickname matches Some(n) && n@ == nickname@,
            final(self).0.icon_id == Some(icon_id),
            final(self).0.login == old(self).0.login,
            final(self).0.password == old(self).0.password,
    {
        self.0.nickname = Some(nickname);
        self.0.icon_id = Some(icon_id);
    }

    /// The login as typed: the one sent, or the guest login, cleared of its
    /// obfuscation.
    pub fn login(&self) -> (r: UserLogin)
        ensures
            r@ == inverted(
                match self.0.login {
                    Some(l) => l@,
                    None => inverted(guest_login()),
                },
            ),
    {
        let l = match &self.0.login {
            Some(l) => l.duplicate(),
            None => UserLogin::guest(),
        };
        l.invert()
    }

    /// The password sent, or an empty one.
    pub fn password(&self) -> (r: Password)
        ensures
            r@ == match self.0.password {
                Some(p) => p@,
                None => Seq::<u8>::empty(),
            },
    {
        match &self.0.password {
            Some(p) => p.duplicate(),
            None => Password::default(),
        }
    }

    /// The user a login makes, when the client sent its name and icon with
    /// it; otherwise the client is yet to send them.
    pub fn user(&self, user_flags: UserFlags) -> (r: Option<UserNameWithInfo>)
        ensures
            match (self.0.nickname, self.0.icon_id) {
                (Some(n), Some(i)) => r matches Some(u) && u@ == (UserNameWithInfoView {
                    user_id: 0,
                    icon_id: i.0,
                    user_flags: user_flags.0,
                    username_len: n@.len() as i16,
                    username: n@,
                }),
                _ => r is None,
            },
    {
        match self.old_style() {
            Some((username, icon_id)) => Some(
                UserNameWithInfo {
                    icon_id,
                    username_len: username.len() as i16,
                    username,
                    user_flags,
                    user_id: UserId(0),
                },
            ),
            None => None,
        }
    }
}

/// A private message reaches a connection exactly when the connection's
/// user is the message's recipient, whoever sent it; it reaches the
/// recipient as a server message frame carrying the text, then the sender's
/// id and name.
pub proof fn law_instant_message_reaches_recipient(
    from: User,
    to: User,
    message: Vec<u8>,
    me: Option<UserNameWithInfoView>,
    chats: Chats,
    users: Users,
)
    ensures
        ({
            let n = Notification::InstantMessage(InstantMessage { from, to, message });
            &&& notification_view(n, me, chats, users) is Some <==> (me is Some && me->0.user_id
                == to.0.user_id.0)
            &&& me is Some && me->0.user_id == to.0.user_id.0 ==> notification_view(n, me, chats, users)
                == Some(
                crate::protocol::transaction::frame_of(
                    TransactionType::ServerMessage,
                    seq![
                        crate::protocol::messages::bytes_param(crate::protocol::TransactionField::Data, message@),
                        crate::protocol::messages::i16_param(
                            crate::protocol::TransactionField::UserId,
                            from.0.user_id.0,
                        ),
                        crate::protocol::messages::bytes_param(
                            crate::protocol::TransactionField::UserName,
                            from.0.username@,
                        ),
                    ],
                ),
            )
        }),
{
    let d = crate::protocol::messages::bytes_param(crate::protocol::TransactionField::Data, message@);
    let i = crate::protocol::messages::i16_param(crate::protocol::TransactionField::UserId, from.0.user_id.0);
    let u = crate::protocol::messages::bytes_param(
        crate::protocol::TransactionField::UserName,
        from.0.username@,
    );
    assert(seq![d] + seq![i] + seq![u] =~= seq![d, i, u]);
}

/// An invitation to a chat room reaches a connection exactly when the
/// connection's user is the one invited, as an invitation to that room.
pub proof fn law_invite_reaches_invited(
    chat: crate::protocol::parameters::ChatId,
    user: UserId,
    me: Option<UserNameWithInfoView>,
    chats: Chats,
    users: Users,
)
    ensures
        ({
            let n = Notification::ChatRoomInvite(ChatRoomInvite(chat, user));
            &&& notification_view(n, me, chats, users) is Some <==> (me is Some && me->0.user_id == user.0)
            &&& me is Some && me->0.user_id == user.0 ==> notification_view(n, me, chats, users) == Some(
                InviteToChat { user_id: user, chat_id: chat }.frame_view(),
            )
        }),
{
}

/// A line said in a chat room reaches a connection exactly when the
/// connection's user is connected as that user and is a member of the room;
/// a line said in the public chat reaches every connection.
pub proof fn law_chat_line_reaches_members(
    chat: ChatMessage,
    me: Option<UserNameWithInfoView>,
    chats: Chats,
    users: Users,
)
    ensures
        ({
            let n = Notification::Chat(chat);
            &&& chat.chat_id is None ==> notification_view(n, me, chats, users) == Some(chat.frame_view())
            &&& chat.chat_id matches Some(k) ==> (notification_view(n, me, chats, users) is Some <==> (
            me is Some && chats@.rooms.dom().contains(k.0) && chats@.rooms[k.0].users.contains(me->0.user_id)
                && users@.users.dom().contains(me->0.user_id) && users@.users[me->0.user_id] == me->0))
        }),
{
}

} // verus!
