//! What the full server does with a request of a logged-in user: the answer
//! it gives at once, or the one piece of outside work (a notification to
//! publish, a change to the chat rooms, users or news, a look at the files,
//! the accounts or the transfers) to do first, and how that work's outcome is
//! answered.

use vstd::prelude::*;

use crate::protocol::messages::{
    messages_view, DownloadFileReply, GetClientInfoTextReply, GetFileInfoReply, GetMessagesReply,
    GetUserNameListReply, InviteToNewChatReply, JoinChatReply, SendInstantMessage, SetClientUserInfo, UploadFileReply,
    FileNameWithInfo,
};
use crate::protocol::parameters::{
    ChatId, ChatSubject, FileComment, FileCreatedAt, FileCreatorString, FileModifiedAt, FileName, FilePath,
    FilePathView, FileSize, FileType as WireFileType, Message, UserId, UserLogin, UserNameWithInfo,
    UserNameWithInfoView,
};
use crate::protocol::text::{
    ascii_bytes, ascii_text, decode_mac_roman, encode_mac_roman, is_ascii_bytes, is_ascii_text, mac_roman_decode,
    mac_roman_encode,
};
use super::application::UserAccount;
use super::bus::Notification;
use super::chat::{ChatCommand, Chats};
use super::files::{DirEntry, EntryError, FileInfo};
use super::lifecycle::{chat_list, lists_room};
use super::news::{news_text, News};
use super::users::{distinct_users, users_map, Users};
use super::{
    chat_text, Broadcast, Chat, ChatRoomCreationRequest, ChatRoomInvite, ChatRoomPresence,
    ChatRoomSubject, ClientRequest, InstantMessage, ServerResponse, User,
};

verus! {

/// Why the server gives up on a request, and with it on the connection.
#[derive(Debug)]
pub enum ServerFailure {
    /// The requester is not a connected user.
    NoCurrentUser,
    /// The request names a user who is not connected.
    UnknownUser(UserId),
    /// A text has no Mac Roman form.
    Unencodable,
    /// A size does not fit the field it goes in.
    FileTooLarge,
    /// The transfers refused to start.
    TransferRefused,
}

/// What the server does with a request.
#[derive(Debug)]
pub enum ServerWork {
    /// Answer at once; `None` is no answer.
    Answer(Option<ServerResponse>),
    /// Publish a notification to every connection, then answer.
    Publish(Notification, Option<ServerResponse>),
    /// Apply a change to the chat rooms, then answer.
    ChangeChats(ChatCommand, Option<ServerResponse>),
    /// Create a chat room, then answer as `created_chat_reply` says.
    CreateChat(ChatRoomCreationRequest),
    /// Replace the requester's entry among the users; no answer.
    UpdateUser(UserNameWithInfo),
    /// Post a news article, then answer that it was posted.
    PostNews(Vec<u8>),
    /// List a folder, then answer as `listing_reply` says.
    ListFiles(FilePath),
    /// Look at a file, then answer as `file_info_reply` says.
    DescribeFile(FilePath, FileName),
    /// Describe a user in text, then answer as `client_info_reply` says.
    DescribeUser(UserNameWithInfo),
    /// Set up a download of the file at the path, given as its parts.
    Download(Vec<String>),
    /// Set up an upload to the file at the path, given as its parts.
    Upload(Vec<String>),
    /// Look up the account with this login, then answer as `account_reply`
    /// says.
    FindAccount(UserLogin),
    /// Make a folder at the path, then answer as `folder_reply` says.
    MakeFolder(Vec<String>),
    /// Give up on the request and the connection.
    Fail(ServerFailure),
}

/// The texts of a list of strings.
pub open spec fn strings_view(s: Seq<String>) -> Seq<Seq<char>> {
    s.map_values(|x: String| x@)
}

/// A path and a name within it, as text: each part of the path and then the
/// name, read as Mac Roman.
pub open spec fn joined_path(path: FilePathView, name: Seq<u8>) -> Seq<Seq<char>> {
    match path {
        FilePathView::Root => seq![mac_roman_decode(name)],
        FilePathView::Directory(parts) => parts.map_values(|p: Seq<u8>| mac_roman_decode(p)).push(
            mac_roman_decode(name),
        ),
    }
}

/// The parts of a path and a name within it, as text.
pub fn join_path(path: &FilePath, name: &FileName) -> (r: Vec<String>)
    ensures
        strings_view(r@) == joined_path(path@, name@),
        is_ascii_bytes(name@) ==> r@.last()@ == ascii_text(name@),
        path@ matches FilePathView::Directory(ps) ==> forall|j: int|
            0 <= j < ps.len() && is_ascii_bytes(ps[j]) ==> (#[trigger] r@[j])@ == ascii_text(ps[j]),
{
    let mut out: Vec<String> = Vec::new();
    match path {
        FilePath::Root => {},
        FilePath::Directory(parts) => {
            let mut i: usize = 0;
            while i < parts.len()
                invariant
                    0 <= i <= parts@.len(),
                    out@.len() == i,
                    forall|j: int| 0 <= j < i ==> (#[trigger] out@[j])@ == mac_roman_decode(parts@[j]@),
                    forall|j: int|
                        0 <= j < i && is_ascii_bytes(parts@[j]@) ==> (#[trigger] out@[j])@ == ascii_text(parts@[j]@),
                decreases parts@.len() - i,
            {
                out.push(decode_mac_roman(parts[i].as_slice()));
                i = i + 1;
            }
        },
    }
    let ghost before = out@;
    out.push(decode_mac_roman(name.0.as_slice()));
    proof {
        match path {
            FilePath::Root => {
                assert(strings_view(out@) =~= seq![mac_roman_decode(name@)]);
            },
            FilePath::Directory(parts) => {
                let cs = crate::protocol::parameters::components_view(parts@);
                assert(strings_view(out@) =~= cs.map_values(|p: Seq<u8>| mac_roman_decode(p)).push(
                    mac_roman_decode(name@),
                ));
            },
        }
    }
    out
}

/// A folder's path as text: each of its parts read as Mac Roman; none for the
/// root.
pub open spec fn folder_path(path: FilePathView) -> Seq<Seq<char>> {
    match path {
        FilePathView::Root => Seq::empty(),
        FilePathView::Directory(parts) => parts.map_values(|p: Seq<u8>| mac_roman_decode(p)),
    }
}

/// The parts of a folder's path, as text.
pub fn folder_parts(path: &FilePath) -> (r: Vec<String>)
    ensures
        strings_view(r@) == folder_path(path@),
        path@ matches FilePathView::Directory(ps) ==> forall|j: int|
            0 <= j < ps.len() && is_ascii_bytes(ps[j]) ==> (#[trigger] r@[j])@ == ascii_text(ps[j]),
{
    let mut out: Vec<String> = Vec::new();
    match path {
        FilePath::Root => {
            assert(strings_view(out@) =~= Seq::<Seq<char>>::empty());
        },
        FilePath::Directory(parts) => {
            let mut i: usize = 0;
            while i < parts.len()
                invariant
                    0 <= i <= parts@.len(),
                    out@.len() == i,
                    forall|j: int| 0 <= j < i ==> (#[trigger] out@[j])@ == mac_roman_decode(parts@[j]@),
                    forall|j: int|
                        0 <= j < i && is_ascii_bytes(parts@[j]@) ==> (#[trigger] out@[j])@ == ascii_text(parts@[j]@),
                decreases parts@.len() - i,
            {
                out.push(decode_mac_roman(parts[i].as_slice()));
                i = i + 1;
            }
            proof {
                let cs = crate::protocol::parameters::components_view(parts@);
                assert(strings_view(out@) =~= cs.map_values(|p: Seq<u8>| mac_roman_decode(p)));
            }
        },
    }
    out
}

/// The text of the refusal of a request the server does not do yet.
pub open spec fn unhandled_text() -> Seq<char> {
    seq!['t', 'o', 'd', 'o']
}

/// The text of the refusal of a request about a room that does not exist.
pub open spec fn invalid_chat_text() -> Seq<char> {
    seq!['i', 'n', 'v', 'a', 'l', 'i', 'd', ' ', 'c', 'h', 'a', 't']
}

/// The text of the refusal of a request about an account that does not
/// exist.
pub open spec fn no_account_text() -> Seq<char> {
    seq![
        'U', 's', 'e', 'r', ' ', 'a', 'c', 'c', 'o', 'u', 'n', 't', ' ', 'n', 'o', 't', ' ', 'f',
        'o', 'u', 'n', 'd',
    ]
}

/// A refusal with a reason.
fn rejected_invalid_chat() -> (r: ServerResponse)
    ensures
        r matches ServerResponse::Rejected(Some(m)) && m@ == invalid_chat_text(),
{
    let text = "invalid chat";
    proof {
        reveal_strlit("invalid chat");
        assert(text@ =~= invalid_chat_text());
    }
    ServerResponse::Rejected(Some(text.to_owned()))
}

/// Whether `r` is what the server does with `request` from the connected
/// user `u`, given the users, the chat rooms and the news.
pub open spec fn plans(r: ServerWork, u: UserNameWithInfoView, request: ClientRequest, users: Users, chats: Chats, news: News) -> bool {
    match request {
        ClientRequest::GetUserNameList(_) => r matches ServerWork::Answer(
            Some(ServerResponse::GetUserNameListReply(rep)),
        ) && distinct_users(rep.0@) && users_map(rep.0@) == users@.users,
        ClientRequest::GetMessages(_) => r matches ServerWork::Answer(Some(ServerResponse::GetMessagesReply(rep)))
            && messages_view(rep.0@) == seq![mac_roman_encode(news_text(news@)).0],
        ClientRequest::PostNews(p) => r matches ServerWork::PostNews(m) && m@ == p.0@,
        ClientRequest::GetFileNameList(g) => r matches ServerWork::ListFiles(path) && path@ == g.0@,
        ClientRequest::GetFileInfo(g) => r matches ServerWork::DescribeFile(path, name) && path@ == g.path@
            && name@ == g.filename@,
        ClientRequest::SetClientUserInfo(s) => r matches ServerWork::UpdateUser(v) && v@ == (
        UserNameWithInfoView { username: s.username@, icon_id: s.icon_id.0, ..u }),
        ClientRequest::GetClientInfoText(g) => if users@.users.dom().contains(g.user_id.0) {
            r matches ServerWork::DescribeUser(v) && v@ == users@.users[g.user_id.0]
        } else {
            r matches ServerWork::Fail(ServerFailure::UnknownUser(id)) && id == g.user_id
        },
        ClientRequest::SendChat(s) => r matches ServerWork::Publish(Notification::Chat(m), None)
            && m.chat_id == s.chat_id && m.message@ == chat_text(u.username, s.message@),
        ClientRequest::SendInstantMessage(s) => if users@.users.dom().contains(s.user_id.0) {
            r matches ServerWork::Publish(
                Notification::InstantMessage(im),
                Some(ServerResponse::SendInstantMessageReply),
            ) && im.from.0@ == u && im.to.0@ == users@.users[s.user_id.0] && im.message@ == s.message@
        } else {
            r matches ServerWork::Answer(Some(ServerResponse::SendInstantMessageReply))
        },
        ClientRequest::DownloadFile(d) => r matches ServerWork::Download(p) && strings_view(p@) == joined_path(
            d.file_path@,
            d.filename@,
        ),
        ClientRequest::UploadFile(d) => r matches ServerWork::Upload(p) && strings_view(p@) == joined_path(
            d.file_path@,
            d.filename@,
        ),
        ClientRequest::GetUser(g) => r matches ServerWork::FindAccount(l) && l@ == g.0@,
        ClientRequest::SetUser(_) => r matches ServerWork::Answer(Some(ServerResponse::SetUserReply)),
        ClientRequest::NewUser(_) => r matches ServerWork::Answer(Some(ServerResponse::NewUserReply)),
        ClientRequest::DeleteUser(_) => r matches ServerWork::Answer(Some(ServerResponse::DeleteUserReply)),
        ClientRequest::SendBroadcast(b) => r matches ServerWork::Publish(
            Notification::Broadcast(Broadcast(m)),
            Some(ServerResponse::SendBroadcastReply),
        ) && m@ == b.message@,
        ClientRequest::InviteToNewChat(i) => r matches ServerWork::CreateChat(ChatRoomCreationRequest(c, us))
            && c.0 == u.user_id && us@ == i.0@,
        ClientRequest::InviteToChat(i) => r matches ServerWork::Publish(
            Notification::ChatRoomInvite(ChatRoomInvite(c, who)),
            None,
        ) && c == i.chat_id && who == i.user_id,
        ClientRequest::JoinChat(j) => if chats@.rooms.dom().contains(j.0.0) {
            r matches ServerWork::ChangeChats(
                ChatCommand::UserJoin(ChatRoomPresence(c, User(v))),
                Some(ServerResponse::JoinChatReply(rep)),
            ) && c == j.0 && v@ == u && (match chats@.rooms[j.0.0].subject {
                Some(s) => rep.subject matches Some(t) && t@ == s,
                None => rep.subject is None,
            }) && lists_room(rep.users@, chats, users, j.0.0)
        } else {
            r matches ServerWork::Answer(Some(ServerResponse::Rejected(Some(m)))) && m@ == invalid_chat_text()
        },
        ClientRequest::LeaveChat(l) => if chats@.rooms.dom().contains(l.0.0) {
            r matches ServerWork::ChangeChats(ChatCommand::UserLeave(ChatRoomPresence(c, User(v))), None)
                && c == l.0 && v@ == u
        } else {
            r matches ServerWork::Answer(Some(ServerResponse::Rejected(Some(m)))) && m@ == invalid_chat_text()
        },
        ClientRequest::SetChatSubject(s) => r matches ServerWork::ChangeChats(
            ChatCommand::SubjectUpdate(ChatRoomSubject(c, subject)),
            None,
        ) && c == s.0 && subject@ == s.1@,
        ClientRequest::NewFolder(n) => r matches ServerWork::MakeFolder(p) && strings_view(p@) == joined_path(
            n.path@,
            n.filename@,
        ),
        _ => r matches ServerWork::Answer(Some(ServerResponse::Rejected(Some(m)))) && m@ == unhandled_text(),
    }
}

/// What the server does with a request of the user with id `me`: nothing
/// but give up when that user is not connected; otherwise as `plans` says.
pub fn plan_request(me: UserId, request: ClientRequest, users: &Users, chats: &Chats, news: &News) -> (r:
    ServerWork)
    requires
        users.wf(),
        chats.wf(),
    ensures
        if users@.users.dom().contains(me.0) {
            plans(r, users@.users[me.0], request, *users, *chats, *news)
        } else {
            r matches ServerWork::Fail(ServerFailure::NoCurrentUser)
        },
{
    let user = match users.find(me) {
        Some(u) => u.duplicate(),
        None => {
            return ServerWork::Fail(ServerFailure::NoCurrentUser);
        },
    };
    match request {
        ClientRequest::GetUserNameList(_) => ServerWork::Answer(
            Some(ServerResponse::GetUserNameListReply(GetUserNameListReply::with_users(users.to_vec()))),
        ),
        ClientRequest::GetMessages(_) => {
            let reply = GetMessagesReply::single(Message::new(news.all()));
            ServerWork::Answer(Some(ServerResponse::GetMessagesReply(reply)))
        },
        ClientRequest::PostNews(p) => ServerWork::PostNews(p.0.0),
        ClientRequest::GetFileNameList(g) => ServerWork::ListFiles(g.0),
        ClientRequest::GetFileInfo(g) => ServerWork::DescribeFile(g.path, g.filename),
        ClientRequest::SetClientUserInfo(s) => {
            let mut u = user;
            u.username = s.username;
            u.icon_id = s.icon_id;
            ServerWork::UpdateUser(u)
        },
        ClientRequest::GetClientInfoText(g) => match users.find(g.user_id) {
            Some(v) => ServerWork::DescribeUser(v.duplicate()),
            None => ServerWork::Fail(ServerFailure::UnknownUser(g.user_id)),
        },
        ClientRequest::SendChat(s) => {
            let chat = Chat(s.chat_id, User(user), s.message);
            ServerWork::Publish(Notification::Chat(chat.into_message()), None)
        },
        ClientRequest::SendInstantMessage(s) => match users.find(s.user_id) {
            Some(to) => {
                let message = InstantMessage { from: User(user), to: User(to.duplicate()), message: s.message };
                ServerWork::Publish(
                    Notification::InstantMessage(message),
                    Some(ServerResponse::SendInstantMessageReply),
                )
            },
            None => ServerWork::Answer(Some(ServerResponse::SendInstantMessageReply)),
        },
        ClientRequest::DownloadFile(d) => ServerWork::Download(join_path(&d.file_path, &d.filename)),
        ClientRequest::UploadFile(d) => ServerWork::Upload(join_path(&d.file_path, &d.filename)),
        ClientRequest::GetUser(g) => ServerWork::FindAccount(g.0),
        ClientRequest::SetUser(_) => ServerWork::Answer(Some(ServerResponse::SetUserReply)),
        ClientRequest::NewUser(_) => ServerWork::Answer(Some(ServerResponse::NewUserReply)),
        ClientRequest::DeleteUser(_) => ServerWork::Answer(Some(ServerResponse::DeleteUserReply)),
        ClientRequest::SendBroadcast(b) => ServerWork::Publish(
            Notification::Broadcast(Broadcast(b.message)),
            Some(ServerResponse::SendBroadcastReply),
        ),
        ClientRequest::InviteToNewChat(i) => ServerWork::CreateChat(ChatRoomCreationRequest(user.user_id, i.0)),
        ClientRequest::InviteToChat(i) => ServerWork::Publish(
            Notification::ChatRoomInvite(ChatRoomInvite(i.chat_id, i.user_id)),
            None,
        ),
        ClientRequest::JoinChat(j) => match chats.room(j.0) {
            Some(room) => {
                let subject = match room.subject() {
                    Some(s) => Some(ChatSubject(s)),
                    None => None,
                };
                let members = chat_list(chats, users, j.0);
                let reply = JoinChatReply { subject, users: members };
                ServerWork::ChangeChats(
                    ChatCommand::UserJoin(ChatRoomPresence(j.0, User(user))),
                    Some(ServerResponse::JoinChatReply(reply)),
                )
            },
            None => ServerWork::Answer(Some(rejected_invalid_chat())),
        },
        ClientRequest::LeaveChat(l) => match chats.room(l.0) {
            Some(_) => ServerWork::ChangeChats(ChatCommand::UserLeave(ChatRoomPresence(l.0, User(user))), None),
            None => ServerWork::Answer(Some(rejected_invalid_chat())),
        },
        ClientRequest::SetChatSubject(s) => ServerWork::ChangeChats(
            ChatCommand::SubjectUpdate(ChatRoomSubject(s.0, s.1.0)),
            None,
        ),
        ClientRequest::NewFolder(n) => ServerWork::MakeFolder(join_path(&n.path, &n.filename)),
        _ => {
            let text = "todo";
            proof {
                reveal_strlit("todo");
                assert(text@ =~= unhandled_text());
            }
            ServerWork::Answer(Some(ServerResponse::Rejected(Some(text.to_owned()))))
        },
    }
}

/// The answer to an invitation to a new room, once the room was made with
/// number `chat_id`: the room and the inviting user.
pub fn created_chat_reply(chat_id: ChatId, me: &UserNameWithInfo) -> (r: ServerResponse)
    ensures
        r matches ServerResponse::InviteToNewChatReply(rep) && rep.chat_id == chat_id && rep.user_id
            == me.user_id && rep.icon_id == me.icon_id && rep.flags == me.user_flags && rep.user_name@
            == me.username@,
{
    let reply = InviteToNewChatReply {
        chat_id,
        user_id: me.user_id,
        icon_id: me.icon_id,
        flags: me.user_flags,
        user_name: me.username.duplicate(),
    };
    ServerResponse::InviteToNewChatReply(reply)
}

/// Whether the total size of every entry fits in 64 bits.
pub open spec fn sizes_fit(entries: Seq<DirEntry>) -> bool {
    forall|i: int| 0 <= i < entries.len() ==> (#[trigger] entries[i]).data_len + entries[i].rsrc_len <= u64::MAX
}

/// Whether an entry can be listed.
pub open spec fn listable(e: DirEntry) -> bool {
    &&& e.data_len + e.rsrc_len <= 0x7fff_ffff
    &&& e.name matches Some(n) && !mac_roman_encode(n@).1
}

/// Whether `f` is how the entry `e` is listed.
pub open spec fn listed_as(f: FileNameWithInfo, e: DirEntry) -> bool {
    &&& e.name matches Some(n) && f.file_name@ == mac_roman_encode(n@).0
    &&& f.file_size.0 == e.data_len + e.rsrc_len
    &&& f.file_type.0@ == e.type_code.0@
    &&& f.creator.0@ == e.creator_code.0@
    &&& f.name_script.0 == 0
}

/// The listable entries of a folder, as a listing shows them, in order.
pub open spec fn listing_of(files: Seq<FileNameWithInfo>, entries: Seq<DirEntry>) -> bool
    decreases entries.len(),
{
    if entries.len() == 0 {
        files.len() == 0
    } else if listable(entries.last()) {
        files.len() > 0 && listed_as(files.last(), entries.last()) && listing_of(
            files.drop_last(),
            entries.drop_last(),
        )
    } else {
        listing_of(files, entries.drop_last())
    }
}

/// The answer to a folder listing: the entries that can be listed, in
/// order; an entry too large to list or whose name has no Mac Roman form is
/// left out.
pub fn listing_reply(entries: Vec<DirEntry>) -> (r: ServerResponse)
    requires
        sizes_fit(entries@),
    ensures
        r matches ServerResponse::GetFileNameListReply(rep) && listing_of(rep.0@, entries@),
{
    let ghost all = entries@;
    let mut files: Vec<FileNameWithInfo> = Vec::new();
    let mut rest = entries;
    proof {
        assert(all.take(0) =~= Seq::<DirEntry>::empty());
    }
    let mut i: usize = 0;
    let n = rest.len();
    while i < n
        invariant
            n == all.len(),
            0 <= i <= n,
            rest@ == all.subrange(i as int, n as int),
            sizes_fit(all),
            listing_of(files@, all.take(i as int)),
        decreases n - i,
    {
        let e = rest.remove(0);
        assert(e == all[i as int]);
        assert(rest@ =~= all.subrange(i as int + 1, n as int));
        assert(all.take(i as int + 1).drop_last() =~= all.take(i as int));
        assert(all.take(i as int + 1).last() == e);
        let ghost before = files@;
        match e.into_listing() {
            Ok(f) => {
                files.push(f);
                assert(files@.drop_last() =~= before);
            },
            Err(_) => {},
        }
        i = i + 1;
    }
    assert(all.take(n as int) =~= all);
    ServerResponse::GetFileNameListReply(crate::protocol::messages::GetFileNameListReply::with_files(files))
}

/// The answer to a request for a file's information, once the file was
/// found: the name asked for and what was found; fails when the size does
/// not fit the reply.
pub fn file_info_reply(name: FileName, info: FileInfo) -> (r: Result<ServerResponse, ServerFailure>)
    requires
        info.data_len + info.rsrc_len <= u64::MAX,
    ensures
        if info.data_len + info.rsrc_len > 0x7fff_ffff {
            r matches Err(ServerFailure::FileTooLarge)
        } else {
            r matches Ok(ServerResponse::GetFileInfoReply(rep)) && rep.filename@ == name@ && rep.size.0
                == info.data_len + info.rsrc_len && rep.type_code.0@ == info.file_type.0@
                && rep.creator@ == info.creator.0@ && rep.comment@ == info.comment@
                && rep.created_at.0 == info.created_at && rep.modified_at.0 == info.modified_at
        },
{
    let size = info.total_size();
    if size > 0x7fff_ffff {
        return Err(ServerFailure::FileTooLarge);
    }
    let c = info.creator.0;
    let creator = vec![c[0], c[1], c[2], c[3]];
    assert(creator@ =~= info.creator.0@);
    Ok(
        ServerResponse::GetFileInfoReply(
            GetFileInfoReply {
                filename: name,
                size: FileSize(size as i32),
                type_code: WireFileType(info.file_type.0),
                creator: FileCreatorString(creator),
                comment: FileComment(info.comment),
                created_at: FileCreatedAt(info.created_at),
                modified_at: FileModifiedAt(info.modified_at),
            },
        ),
    )
}

/// Bytes with every line feed turned into a carriage return.
pub open spec fn returns_for_line_feeds(b: Seq<u8>) -> Seq<u8> {
    b.map_values(|x: u8| if x == 10 { 13u8 } else { x })
}

/// The answer to a request for a user's description, given the description
/// as text: its Mac Roman bytes, with line feeds turned into carriage
/// returns; fails when the text has no Mac Roman form.
pub fn client_info_reply(user: &UserNameWithInfo, description: &str) -> (r: Result<ServerResponse, ServerFailure>)
    ensures
        if mac_roman_encode(description@).1 {
            r matches Err(ServerFailure::Unencodable)
        } else {
            r matches Ok(ServerResponse::GetClientInfoTextReply(rep)) && rep.user_name@ == user.username@
                && rep.text@ == returns_for_line_feeds(mac_roman_encode(description@).0)
        },
        is_ascii_text(description@) ==> (r matches Ok(ServerResponse::GetClientInfoTextReply(rep))
            && rep.text@ == returns_for_line_feeds(ascii_bytes(description@))),
{
    let (bytes, failed) = encode_mac_roman(description);
    if failed {
        return Err(ServerFailure::Unencodable);
    }
    let mut text: Vec<u8> = Vec::new();
    let mut i: usize = 0;
    while i < bytes.len()
        invariant
            0 <= i <= bytes@.len(),
            text@ == returns_for_line_feeds(bytes@.take(i as int)),
        decreases bytes@.len() - i,
    {
        let b = bytes[i];
        text.push(if b == 10 { 13 } else { b });
        i = i + 1;
        assert(text@ =~= returns_for_line_feeds(bytes@.take(i as int)));
    }
    assert(bytes@.take(bytes@.len() as int) =~= bytes@);
    Ok(ServerResponse::GetClientInfoTextReply(GetClientInfoTextReply { user_name: user.username.duplicate(), text }))
}

/// The answer to a download request, given what the transfers answered:
/// their reply, or a failure when they refused.
pub fn download_reply(reply: Option<DownloadFileReply>) -> (r: Result<ServerResponse, ServerFailure>)
    ensures
        match reply {
            Some(d) => r matches Ok(ServerResponse::DownloadFileReply(d2)) && d2 == d,
            None => r matches Err(ServerFailure::TransferRefused),
        },
{
    match reply {
        Some(d) => Ok(ServerResponse::DownloadFileReply(d)),
        None => Err(ServerFailure::TransferRefused),
    }
}

/// The answer to an upload request, given what the transfers answered:
/// their reply, or a failure when they refused.
pub fn upload_reply(reply: Option<UploadFileReply>) -> (r: Result<ServerResponse, ServerFailure>)
    ensures
        match reply {
            Some(u) => r matches Ok(ServerResponse::UploadFileReply(u2)) && u2 == u,
            None => r matches Err(ServerFailure::TransferRefused),
        },
{
    match reply {
        Some(u) => Ok(ServerResponse::UploadFileReply(u)),
        None => Err(ServerFailure::TransferRefused),
    }
}

/// The answer to a request for an account, given the account found, if any.
pub fn account_reply(account: Option<UserAccount>) -> (r: ServerResponse)
    ensures
        match account {
            Some(a) => r matches ServerResponse::GetUserReply(rep) && rep.username@ == vstd::utf8::encode_utf8(
                a.identity.name@,
            ) && rep.user_login@ == crate::protocol::parameters::inverted(
                vstd::utf8::encode_utf8(a.identity.login@),
            ) && rep.user_password@ == Seq::<u8>::empty() && rep.user_access.0 as u64 == a.permissions.wire(),
            None => r matches ServerResponse::Rejected(Some(m)) && m@ == no_account_text(),
        },
{
    match account {
        Some(a) => ServerResponse::GetUserReply(a.into_reply()),
        None => {
            let text = "User account not found";
            proof {
                reveal_strlit("User account not found");
                assert(text@ =~= no_account_text());
            }
            ServerResponse::Rejected(Some(text.to_owned()))
        },
    }
}

/// The answer to a request for a new folder, given whether making it
/// worked or the text of the error it failed with.
pub fn folder_reply(outcome: Result<(), String>) -> (r: ServerResponse)
    ensures
        match outcome {
            Ok(_) => r matches ServerResponse::NewFolderReply,
            Err(e) => r matches ServerResponse::Rejected(Some(m)) && m@ == e@,
        },
{
    match outcome {
        Ok(_) => ServerResponse::NewFolderReply,
        Err(e) => ServerResponse::Rejected(Some(e)),
    }
}

/// A user who sets their name and icon is updated to carry the requested
/// name and the requested icon, and keeps their id, flags and name length.
pub proof fn law_set_user_info_updates_name_and_icon(
    r: ServerWork,
    u: UserNameWithInfoView,
    s: SetClientUserInfo,
    users: Users,
    chats: Chats,
    news: News,
)
    requires
        plans(r, u, ClientRequest::SetClientUserInfo(s), users, chats, news),
    ensures
        r is UpdateUser,
        r matches ServerWork::UpdateUser(v) ==> {
            &&& v@.username == s.username@
            &&& v@.icon_id == s.icon_id.0
            &&& v@.user_id == u.user_id
            &&& v@.user_flags == u.user_flags
            &&& v@.username_len == u.username_len
        },
{
}

/// An entry a listing keeps: its data and resource forks together fit in
/// 31 bits, and it has a name with a Mac Roman spelling.
pub open spec fn listing_keeps(e: DirEntry) -> bool {
    &&& e.data_len + e.rsrc_len <= 0x7fff_ffff
    &&& e.name is Some
    &&& !mac_roman_encode(e.name->0@).1
}

/// The entries a listing keeps, in their order.
pub open spec fn kept_entries(entries: Seq<DirEntry>) -> Seq<DirEntry> {
    entries.filter(|e: DirEntry| listing_keeps(e))
}

/// How the entry `e` is shown: with its whole size (data fork and resource
/// fork together), its type, its creator and its name in Mac Roman.
pub open spec fn shows_entry(f: FileNameWithInfo, e: DirEntry) -> bool {
    &&& f.file_size.0 == e.data_len + e.rsrc_len
    &&& f.file_type.0@ == e.type_code.0@
    &&& f.creator.0@ == e.creator_code.0@
    &&& f.file_name@ == mac_roman_encode(e.name->0@).0
}

/// A listing shows exactly the entries it keeps, in their order, each with
/// its whole size, its type, its creator and its name in Mac Roman.
pub proof fn law_listing_shows_kept_entries(files: Seq<FileNameWithInfo>, entries: Seq<DirEntry>)
    requires
        listing_of(files, entries),
    ensures
        files.len() == kept_entries(entries).len(),
        forall|i: int| 0 <= i < files.len() ==> shows_entry(#[trigger] files[i], kept_entries(entries)[i]),
    decreases entries.len(),
{
    if entries.len() > 0 {
        let front = entries.drop_last();
        let last = entries.last();
        reveal(Seq::filter);
        let pr = |e: DirEntry| listing_keeps(e);
        assert(kept_entries(entries) == entries.filter(pr));
        assert(kept_entries(front) == front.filter(pr));
        assert(entries.filter(pr) == (if pr(entries.last()) {
            entries.drop_last().filter(pr).push(entries.last())
        } else {
            entries.drop_last().filter(pr)
        }));
        assert(pr(last) == listing_keeps(last));
        assert(kept_entries(entries) == (if listing_keeps(last) {
            kept_entries(front).push(last)
        } else {
            kept_entries(front)
        }));
        if listable(last) {
            law_listing_shows_kept_entries(files.drop_last(), front);
            assert forall|i: int| 0 <= i < files.len() implies shows_entry(#[trigger] files[i], kept_entries(entries)[i]) by {
                if i < files.len() - 1 {
                    assert(files[i] == files.drop_last()[i]);
                }
            }
        } else {
            law_listing_shows_kept_entries(files, front);
        }
    }
}

/// A private message is passed on from the user who sent it to the user
/// it names, with its text unchanged, and the sender is answered; to a user
/// who is not connected it is not passed on.
pub proof fn law_private_message_goes_to_named_user(
    r: ServerWork,
    u: UserNameWithInfoView,
    s: SendInstantMessage,
    users: Users,
    chats: Chats,
    news: News,
)
    requires
        plans(r, u, ClientRequest::SendInstantMessage(s), users, chats, news),
    ensures
        users@.users.dom().contains(s.user_id.0) ==> (r matches ServerWork::Publish(
            Notification::InstantMessage(im),
            Some(ServerResponse::SendInstantMessageReply),
        ) && im.from.0@ == u && im.to.0@ == users@.users[s.user_id.0] && im.message@ == s.message@),
        !users@.users.dom().contains(s.user_id.0) ==> r == ServerWork::Answer(
            Some(ServerResponse::SendInstantMessageReply),
        ),
{
}

} // verus!
