//! The server: the requests it reads, the answers it writes, and the state it
//! keeps about users, chat rooms, news and files.

pub mod application;
pub mod bus;
pub mod chat;
pub mod connection;
pub mod dispatch;
pub mod established;
pub mod files;
pub mod keyed;
pub mod lifecycle;
pub mod users;
pub mod news;
pub mod password;
pub mod session;
pub mod transaction_sink;
pub mod transaction_stream;
pub mod transfers;
pub mod user_editor;






use vstd::prelude::*;

use crate::protocol::messages::{
    ChatMessage, DeleteFile, DeleteFileReply, DisconnectUser, DownloadFile, DownloadFileReply,
    GetClientInfoText, GetClientInfoTextReply, GetFileInfo, GetFileInfoReply, GetFileNameList,
    GetFileNameListReply, GetMessages, GetMessagesReply, GetUser, GetUserNameList,
    GetUserNameListReply, GetUserReply, InviteToChat, InviteToNewChat, InviteToNewChatReply,
    JoinChat, JoinChatReply, LeaveChat, LoginRequest, MakeFileAlias, MoveFile, MoveFileReply,
    NewFolder, NewUser, NotifyNewsMessage, PostNews, RejectChatInvite, SendBroadcast, SendChat,
    SendInstantMessage, ServerMessage, SetChatSubject, SetClientUserInfo, SetFileInfo,
    SetFileInfoReply, SetUser, UploadFile, UploadFileReply, DeleteUser, GenericReply,
    opt_param,
};
use crate::protocol::parameters::{ChatId, Message, ReferenceNumber, UserId, UserNameWithInfo, WaitingCount};
use crate::protocol::text::{ascii_bytes, is_ascii_text, mac_roman_encode};
use crate::protocol::transaction::{
    body_of, empty_frame, header_of_type, param, params_view, spec_transaction_type, Parameter,
    ParameterView, TransactionBody, TransactionFrame, TransactionFrameView,
    TransactionHeader,
};
use crate::protocol::{ErrorCode, ProtocolError, TransactionField, TransactionType};

verus! {

/// Why the message bus failed.
#[derive(Debug, Clone, Copy, PartialEq, Eq, Structural)]
pub enum BusError {
    Lagged(u64),
    Closed,
}

/// The text a chat line is shown as: a new line, the speaker's name, a colon
/// and the line.
pub open spec fn chat_text(name: Seq<u8>, text: Seq<u8>) -> Seq<u8> {
    seq![13u8, 32u8] + name + seq![58u8, 32u8] + text
}

/// Writes a chat line as it is shown to everyone.
pub fn format_chat(name: &[u8], text: &[u8]) -> (r: Vec<u8>)
    ensures
        r@ == chat_text(name@, text@),
{
    let mut out: Vec<u8> = vec![13u8, 32u8];
    crate::protocol::codec::push_bytes(&mut out, name);
    out.push(58u8);
    out.push(32u8);
    crate::protocol::codec::push_bytes(&mut out, text);
    assert(out@ =~= chat_text(name@, text@));
    out
}

/// A connected user.
#[derive(Debug, Clone)]
pub struct User(pub UserNameWithInfo);

impl User {
    pub fn user_id(&self) -> (r: UserId)
        ensures
            r == self.0.user_id,
    {
        self.0.user_id
    }
}

/// A chat line said by a user, in the public chat or in a room.
#[derive(Debug, Clone)]
pub struct Chat(pub Option<ChatId>, pub User, pub Vec<u8>);

impl Chat {
    /// The line as clients are sent it, with the speaker's name in front.
    pub fn into_message(self) -> (r: ChatMessage)
        ensures
            r.chat_id == self.0,
            r.message@ == chat_text(self.1.0.username@, self.2@),
    {
        let Chat(chat_id, user, text) = self;
        let message = format_chat(user.0.username.0.as_slice(), text.as_slice());
        ChatMessage { chat_id, message }
    }
}

/// A new subject for a chat room.
#[derive(Debug, Clone)]
pub struct ChatRoomSubject(pub ChatId, pub Vec<u8>);

/// A user asking for a new chat room with other users.
#[derive(Debug, Clone)]
pub struct ChatRoomCreationRequest(pub UserId, pub Vec<UserId>);

/// A user in a chat room.
#[derive(Debug, Clone)]
pub struct ChatRoomPresence(pub ChatId, pub User);

/// A user leaving a chat room.
#[derive(Debug, Clone, Copy, PartialEq, Eq, Structural)]
pub struct ChatRoomLeave(pub ChatId, pub UserId);

/// A user invited to a chat room.
#[derive(Debug, Clone, Copy, PartialEq, Eq, Structural)]
pub struct ChatRoomInvite(pub ChatId, pub UserId);

/// A private message from one user to another.
#[derive(Debug, Clone)]
pub struct InstantMessage {
    pub from: User,
    pub to: User,
    pub message: Vec<u8>,
}

/// A message from the server to every user.
#[derive(Debug, Clone)]
pub struct Broadcast(pub Vec<u8>);

impl Broadcast {
    /// The message, from nobody in particular.
    pub fn into_server_message(self) -> (r: ServerMessage)
        ensures
            r.message@ == self.0@,
            r.user_id is None,
            r.user_name is None,
    {
        ServerMessage { message: self.0, user_id: None, user_name: None }
    }
}

/// Where a download can be fetched, and how many wait before it.
#[derive(Debug, Clone, Copy, PartialEq, Eq, Structural)]
pub struct DownloadInfo(pub ReferenceNumber, pub WaitingCount);

/// The text that ends a news article.
pub open spec fn separator() -> Seq<u8> {
    seq![13u8, 45u8, 45u8, 13u8]
}

/// A news article.
#[derive(Debug, Clone)]
pub struct Article(pub Vec<u8>);

impl Article {
    /// The article with the separator after it, as clients are told of it.
    pub fn into_notification(self) -> (r: NotifyNewsMessage)
        ensures
            r.0@ == self.0@ + separator(),
    {
        let Article(mut message) = self;
        message.push(13u8);
        message.push(45u8);
        message.push(45u8);
        message.push(13u8);
        assert(message@ =~= self.0@ + separator());
        NotifyNewsMessage(Message(message))
    }
}

/// A request a client makes, read from its frame.
#[derive(Debug)]
pub enum ClientRequest {
    Login(LoginRequest),
    GetMessages(GetMessages),
    PostNews(PostNews),
    GetFileNameList(GetFileNameList),
    GetFileInfo(GetFileInfo),
    SetFileInfo(SetFileInfo),
    GetUserNameList(GetUserNameList),
    GetClientInfoText(GetClientInfoText),
    SetClientUserInfo(SetClientUserInfo),
    DisconnectUser(DisconnectUser),
    SendChat(SendChat),
    SendInstantMessage(SendInstantMessage),
    InviteToNewChat(InviteToNewChat),
    InviteToChat(InviteToChat),
    JoinChat(JoinChat),
    LeaveChat(LeaveChat),
    RejectChatInvite(RejectChatInvite),
    SetChatSubject(SetChatSubject),
    DownloadFile(DownloadFile),
    UploadFile(UploadFile),
    DeleteFile(DeleteFile),
    MoveFile(MoveFile),
    NewFolder(NewFolder),
    MakeFileAlias(MakeFileAlias),
    NewUser(NewUser),
    DeleteUser(DeleteUser),
    GetUser(GetUser),
    SetUser(SetUser),
    UserAccess,
    SendBroadcast(SendBroadcast),
}

/// The transaction types that no request is read from yet.
pub open spec fn unfinished_type(t: TransactionType) -> bool {
    t == TransactionType::Agreed || t == TransactionType::DownloadFolder || t
        == TransactionType::DownloadBanner || t == TransactionType::UploadFolder
}

/// What reading a request from `frame` gives: for each type that names a
/// request, the request read by that message's own rules, or the error that
/// they refuse the frame with; for any other type, `UnsupportedTransaction`.
pub open spec fn reads_request(frame: TransactionFrame, r: Result<ClientRequest, ProtocolError>) -> bool {
    match spec_transaction_type(frame.header) {
        Err(e) => r matches Err(e2) && e2 == e,
        Ok(t) => match t {
            TransactionType::GetMessages => r matches Ok(ClientRequest::GetMessages(_)),
            TransactionType::GetUserNameList => r matches Ok(ClientRequest::GetUserNameList(_)),
            TransactionType::PostNewsArticle | TransactionType::OldPostNews => match PostNews::rejects(frame) {
                Some(e) => r matches Err(e2) && e2 == e,
                None => r matches Ok(ClientRequest::PostNews(v)) && PostNews::accepts(frame, v),
            },
            TransactionType::Login => match LoginRequest::rejects(frame) {
                Some(e) => r matches Err(e2) && e2 == e,
                None => r matches Ok(ClientRequest::Login(v)) && LoginRequest::accepts(frame, v),
            },
            TransactionType::GetFileNameList => match GetFileNameList::rejects(frame) {
                Some(e) => r matches Err(e2) && e2 == e,
                None => r matches Ok(ClientRequest::GetFileNameList(v)) && GetFileNameList::accepts(frame, v),
            },
            TransactionType::SendChat => match SendChat::rejects(frame) {
                Some(e) => r matches Err(e2) && e2 == e,
                None => r matches Ok(ClientRequest::SendChat(v)) && SendChat::accepts(frame, v),
            },
            TransactionType::SendInstantMessage => match SendInstantMessage::rejects(frame) {
                Some(e) => r matches Err(e2) && e2 == e,
                None => r matches Ok(ClientRequest::SendInstantMessage(v)) && SendInstantMessage::accepts(frame, v),
            },
            TransactionType::DisconnectUser => match DisconnectUser::rejects(frame) {
                Some(e) => r matches Err(e2) && e2 == e,
                None => r matches Ok(ClientRequest::DisconnectUser(v)) && DisconnectUser::accepts(frame, v),
            },
            TransactionType::InviteToNewChat => match InviteToNewChat::rejects(frame) {
                Some(e) => r matches Err(e2) && e2 == e,
                None => r matches Ok(ClientRequest::InviteToNewChat(v)) && InviteToNewChat::accepts(frame, v),
            },
            TransactionType::InviteToChat => match InviteToChat::rejects(frame) {
                Some(e) => r matches Err(e2) && e2 == e,
                None => r matches Ok(ClientRequest::InviteToChat(v)) && InviteToChat::accepts(frame, v),
            },
            TransactionType::RejectChatInvite => match RejectChatInvite::rejects(frame) {
                Some(e) => r matches Err(e2) && e2 == e,
                None => r matches Ok(ClientRequest::RejectChatInvite(v)) && RejectChatInvite::accepts(frame, v),
            },
            TransactionType::JoinChat => match JoinChat::rejects(frame) {
                Some(e) => r matches Err(e2) && e2 == e,
                None => r matches Ok(ClientRequest::JoinChat(v)) && JoinChat::accepts(frame, v),
            },
            TransactionType::LeaveChat => match LeaveChat::rejects(frame) {
                Some(e) => r matches Err(e2) && e2 == e,
                None => r matches Ok(ClientRequest::LeaveChat(v)) && LeaveChat::accepts(frame, v),
            },
            TransactionType::SetChatSubject => match SetChatSubject::rejects(frame) {
                Some(e) => r matches Err(e2) && e2 == e,
                None => r matches Ok(ClientRequest::SetChatSubject(v)) && SetChatSubject::accepts(frame, v),
            },
            TransactionType::DownloadFile => match DownloadFile::rejects(frame) {
                Some(e) => r matches Err(e2) && e2 == e,
                None => r matches Ok(ClientRequest::DownloadFile(v)) && DownloadFile::accepts(frame, v),
            },
            TransactionType::UploadFile => match UploadFile::rejects(frame) {
                Some(e) => r matches Err(e2) && e2 == e,
                None => r matches Ok(ClientRequest::UploadFile(v)) && UploadFile::accepts(frame, v),
            },
            TransactionType::DeleteFile => match DeleteFile::rejects(frame) {
                Some(e) => r matches Err(e2) && e2 == e,
                None => r matches Ok(ClientRequest::DeleteFile(v)) && DeleteFile::accepts(frame, v),
            },
            TransactionType::NewFolder => match NewFolder::rejects(frame) {
                Some(e) => r matches Err(e2) && e2 == e,
                None => r matches Ok(ClientRequest::NewFolder(v)) && NewFolder::accepts(frame, v),
            },
            TransactionType::GetFileInfo => match GetFileInfo::rejects(frame) {
                Some(e) => r matches Err(e2) && e2 == e,
                None => r matches Ok(ClientRequest::GetFileInfo(v)) && GetFileInfo::accepts(frame, v),
            },
            TransactionType::SetFileInfo => match SetFileInfo::rejects(frame) {
                Some(e) => r matches Err(e2) && e2 == e,
                None => r matches Ok(ClientRequest::SetFileInfo(v)) && SetFileInfo::accepts(frame, v),
            },
            TransactionType::MoveFile => match MoveFile::rejects(frame) {
                Some(e) => r matches Err(e2) && e2 == e,
                None => r matches Ok(ClientRequest::MoveFile(v)) && MoveFile::accepts(frame, v),
            },
            TransactionType::MakeFileAlias => match MakeFileAlias::rejects(frame) {
                Some(e) => r matches Err(e2) && e2 == e,
                None => r matches Ok(ClientRequest::MakeFileAlias(v)) && MakeFileAlias::accepts(frame, v),
            },
            TransactionType::GetClientInfoText => match GetClientInfoText::rejects(frame) {
                Some(e) => r matches Err(e2) && e2 == e,
                None => r matches Ok(ClientRequest::GetClientInfoText(v)) && GetClientInfoText::accepts(frame, v),
            },
            TransactionType::SetClientUserInfo => match SetClientUserInfo::rejects(frame) {
                Some(e) => r matches Err(e2) && e2 == e,
                None => r matches Ok(ClientRequest::SetClientUserInfo(v)) && SetClientUserInfo::accepts(frame, v),
            },
            TransactionType::NewUser => match NewUser::rejects(frame) {
                Some(e) => r matches Err(e2) && e2 == e,
                None => r matches Ok(ClientRequest::NewUser(v)) && NewUser::accepts(frame, v),
            },
            TransactionType::DeleteUser => match DeleteUser::rejects(frame) {
                Some(e) => r matches Err(e2) && e2 == e,
                None => r matches Ok(ClientRequest::DeleteUser(v)) && DeleteUser::accepts(frame, v),
            },
            TransactionType::GetUser => match GetUser::rejects(frame) {
                Some(e) => r matches Err(e2) && e2 == e,
                None => r matches Ok(ClientRequest::GetUser(v)) && GetUser::accepts(frame, v),
            },
            TransactionType::SetUser => match SetUser::rejects(frame) {
                Some(e) => r matches Err(e2) && e2 == e,
                None => r matches Ok(ClientRequest::SetUser(v)) && SetUser::accepts(frame, v),
            },
            TransactionType::UserBroadcast => match SendBroadcast::rejects(frame) {
                Some(e) => r matches Err(e2) && e2 == e,
                None => r matches Ok(ClientRequest::SendBroadcast(v)) && SendBroadcast::accepts(frame, v),
            },
            _ => r matches Err(ProtocolError::UnsupportedTransaction(c)) && c == frame.header.type_.0,
        },
    }
}

/// Whether a request can be read from `frame`.
pub open spec fn request_readable(frame: TransactionFrame) -> bool {
    match spec_transaction_type(frame.header) {
        Err(_) => false,
        Ok(t) => match t {
            TransactionType::GetMessages => true,
            TransactionType::GetUserNameList => true,
            TransactionType::PostNewsArticle | TransactionType::OldPostNews => PostNews::rejects(frame) is None,
            TransactionType::Login => LoginRequest::rejects(frame) is None,
            TransactionType::GetFileNameList => GetFileNameList::rejects(frame) is None,
            TransactionType::SendChat => SendChat::rejects(frame) is None,
            TransactionType::SendInstantMessage => SendInstantMessage::rejects(frame) is None,
            TransactionType::DisconnectUser => DisconnectUser::rejects(frame) is None,
            TransactionType::InviteToNewChat => InviteToNewChat::rejects(frame) is None,
            TransactionType::InviteToChat => InviteToChat::rejects(frame) is None,
            TransactionType::RejectChatInvite => RejectChatInvite::rejects(frame) is None,
            TransactionType::JoinChat => JoinChat::rejects(frame) is None,
            TransactionType::LeaveChat => LeaveChat::rejects(frame) is None,
            TransactionType::SetChatSubject => SetChatSubject::rejects(frame) is None,
            TransactionType::DownloadFile => DownloadFile::rejects(frame) is None,
            TransactionType::UploadFile => UploadFile::rejects(frame) is None,
            TransactionType::DeleteFile => DeleteFile::rejects(frame) is None,
            TransactionType::NewFolder => NewFolder::rejects(frame) is None,
            TransactionType::GetFileInfo => GetFileInfo::rejects(frame) is None,
            TransactionType::SetFileInfo => SetFileInfo::rejects(frame) is None,
            TransactionType::MoveFile => MoveFile::rejects(frame) is None,
            TransactionType::MakeFileAlias => MakeFileAlias::rejects(frame) is None,
            TransactionType::GetClientInfoText => GetClientInfoText::rejects(frame) is None,
            TransactionType::SetClientUserInfo => SetClientUserInfo::rejects(frame) is None,
            TransactionType::NewUser => NewUser::rejects(frame) is None,
            TransactionType::DeleteUser => DeleteUser::rejects(frame) is None,
            TransactionType::GetUser => GetUser::rejects(frame) is None,
            TransactionType::SetUser => SetUser::rejects(frame) is None,
            TransactionType::UserBroadcast => SendBroadcast::rejects(frame) is None,
            _ => false,
        },
    }
}

impl ClientRequest {
    /// Reads the request that the frame's type names. The types that are not
    /// read yet are left out; any other type is unsupported.
    pub fn try_from(frame: TransactionFrame) -> (r: Result<Self, ProtocolError>)
        requires
            !(spec_transaction_type(frame.header) matches Ok(t) && unfinished_type(t)),
        ensures
            reads_request(frame, r),
            r is Ok <==> request_readable(frame),
    {
        let t = frame.transaction_type()?;
        let code = frame.header.type_.0;
        match t {
            TransactionType::GetMessages => Ok(ClientRequest::GetMessages(GetMessages::try_from(frame)?)),
            TransactionType::PostNewsArticle => Ok(ClientRequest::PostNews(PostNews::try_from(frame)?)),
            TransactionType::GetFileNameList => Ok(ClientRequest::GetFileNameList(GetFileNameList::try_from(frame)?)),
            TransactionType::OldPostNews => Ok(ClientRequest::PostNews(PostNews::try_from(frame)?)),
            TransactionType::SendChat => Ok(ClientRequest::SendChat(SendChat::try_from(frame)?)),
            TransactionType::Login => Ok(ClientRequest::Login(LoginRequest::try_from(frame)?)),
            TransactionType::SendInstantMessage => Ok(
                ClientRequest::SendInstantMessage(SendInstantMessage::try_from(frame)?),
            ),
            TransactionType::DisconnectUser => Ok(ClientRequest::DisconnectUser(DisconnectUser::try_from(frame)?)),
            TransactionType::InviteToNewChat => Ok(ClientRequest::InviteToNewChat(InviteToNewChat::try_from(frame)?)),
            TransactionType::InviteToChat => Ok(ClientRequest::InviteToChat(InviteToChat::try_from(frame)?)),
            TransactionType::RejectChatInvite => Ok(
                ClientRequest::RejectChatInvite(RejectChatInvite::try_from(frame)?),
            ),
            TransactionType::JoinChat => Ok(ClientRequest::JoinChat(JoinChat::try_from(frame)?)),
            TransactionType::LeaveChat => Ok(ClientRequest::LeaveChat(LeaveChat::try_from(frame)?)),
            TransactionType::SetChatSubject => Ok(ClientRequest::SetChatSubject(SetChatSubject::try_from(frame)?)),
            TransactionType::DownloadFile => Ok(ClientRequest::DownloadFile(DownloadFile::try_from(frame)?)),
            TransactionType::UploadFile => Ok(ClientRequest::UploadFile(UploadFile::try_from(frame)?)),
            TransactionType::DeleteFile => Ok(ClientRequest::DeleteFile(DeleteFile::try_from(frame)?)),
            TransactionType::NewFolder => Ok(ClientRequest::NewFolder(NewFolder::try_from(frame)?)),
            TransactionType::GetFileInfo => Ok(ClientRequest::GetFileInfo(GetFileInfo::try_from(frame)?)),
            TransactionType::SetFileInfo => Ok(ClientRequest::SetFileInfo(SetFileInfo::try_from(frame)?)),
            TransactionType::MoveFile => Ok(ClientRequest::MoveFile(MoveFile::try_from(frame)?)),
            TransactionType::MakeFileAlias => Ok(ClientRequest::MakeFileAlias(MakeFileAlias::try_from(frame)?)),
            TransactionType::GetUserNameList => Ok(ClientRequest::GetUserNameList(GetUserNameList::try_from(frame)?)),
            TransactionType::GetClientInfoText => Ok(
                ClientRequest::GetClientInfoText(GetClientInfoText::try_from(frame)?),
            ),
            TransactionType::SetClientUserInfo => Ok(
                ClientRequest::SetClientUserInfo(SetClientUserInfo::try_from(frame)?),
            ),
            TransactionType::NewUser => Ok(ClientRequest::NewUser(NewUser::try_from(frame)?)),
            TransactionType::DeleteUser => Ok(ClientRequest::DeleteUser(DeleteUser::try_from(frame)?)),
            TransactionType::GetUser => Ok(ClientRequest::GetUser(GetUser::try_from(frame)?)),
            TransactionType::SetUser => Ok(ClientRequest::SetUser(SetUser::try_from(frame)?)),
            TransactionType::UserBroadcast => Ok(ClientRequest::SendBroadcast(SendBroadcast::try_from(frame)?)),
            _ => Err(ProtocolError::UnsupportedTransaction(code)),
        }
    }
}

/// An answer the server gives to a request.
#[derive(Debug)]
pub enum ServerResponse {
    LoginReply,
    GetUserNameListReply(GetUserNameListReply),
    GetClientInfoTextReply(GetClientInfoTextReply),
    GetMessagesReply(GetMessagesReply),
    PostNewsReply,
    GetFileNameListReply(GetFileNameListReply),
    GetFileInfoReply(GetFileInfoReply),
    SetFileInfoReply(SetFileInfoReply),
    DownloadFileReply(DownloadFileReply),
    UploadFileReply(UploadFileReply),
    DeleteFileReply(DeleteFileReply),
    MoveFileReply(MoveFileReply),
    GetUserReply(GetUserReply),
    SendInstantMessageReply,
    JoinChatReply(JoinChatReply),
    InviteToNewChatReply(InviteToNewChatReply),
    NewFolderReply,
    SendBroadcastReply,
    SetUserReply,
    NewUserReply,
    DeleteUserReply,
    Rejected(Option<String>),
}

/// The frame that refuses a request: an error frame with error code 1 and,
/// when a reason is given, the reason as error text, counted in the body.
pub open spec fn rejection_view(message: Option<Seq<char>>) -> TransactionFrameView {
    TransactionFrameView {
        header: TransactionHeader { error_code: ErrorCode(1), ..header_of_type(TransactionType::Error) },
        body: body_of(
            opt_param(
                match message {
                    Some(m) => Some(param(TransactionField::ErrorText.code(), mac_roman_encode(m).0)),
                    None => None,
                },
            ),
        ),
    }
}

impl ServerResponse {
    /// The frame that refuses a request, with the reason when there is one.
    pub fn reject(message: Option<String>) -> (r: TransactionFrame)
        ensures
            r@ == rejection_view(
                match message {
                    Some(m) => Some(m@),
                    None => None,
                },
            ),
            match message {
                Some(m) => is_ascii_text(m@) ==> r@.body.parameters == seq![
                    param(TransactionField::ErrorText.code(), ascii_bytes(m@)),
                ],
                None => r@.body.parameters.len() == 0,
            },
    {
        let mut frame = TransactionFrame::empty_of(TransactionType::Error);
        frame.header.error_code = ErrorCode(1);
        if let Some(reason) = message {
            let p = Parameter::new_error(reason.as_str());
            let ghost pv = p@;
            frame.body = TransactionBody::from_parameters(vec![p]);
            assert(params_view(frame.body.parameters@) =~= seq![pv]);
        } else {
            assert(frame.body@.parameters =~= Seq::<ParameterView>::empty());
        }
        frame
    }

    /// The frame this answer is written as.
    pub open spec fn frame_view(self) -> TransactionFrameView {
        match self {
            ServerResponse::GetUserNameListReply(x) => x.frame_view(),
            ServerResponse::GetMessagesReply(x) => x.frame_view(),
            ServerResponse::GetFileNameListReply(x) => x.frame_view(),
            ServerResponse::GetFileInfoReply(x) => x.frame_view(),
            ServerResponse::SetFileInfoReply(x) => x.frame_view(),
            ServerResponse::GetClientInfoTextReply(x) => x.frame_view(),
            ServerResponse::DownloadFileReply(x) => x.frame_view(),
            ServerResponse::UploadFileReply(x) => x.frame_view(),
            ServerResponse::DeleteFileReply(x) => x.frame_view(),
            ServerResponse::MoveFileReply(x) => x.frame_view(),
            ServerResponse::GetUserReply(x) => x.frame_view(),
            ServerResponse::JoinChatReply(x) => x.frame_view(),
            ServerResponse::InviteToNewChatReply(x) => x.frame_view(),
            ServerResponse::Rejected(m) => rejection_view(
                match m {
                    Some(s) => Some(s@),
                    None => None,
                },
            ),
            _ => empty_frame(TransactionType::Error),
        }
    }

    /// The frame this answer is written as; the answers that carry nothing
    /// are empty frames with the default header.
    pub fn into_frame(self) -> (r: TransactionFrame)
        ensures
            r@ == self.frame_view(),
    {
        match self {
            ServerResponse::LoginReply => GenericReply.framed(),
            ServerResponse::GetUserNameListReply(reply) => reply.framed(),
            ServerResponse::GetMessagesReply(reply) => reply.framed(),
            ServerResponse::PostNewsReply => GenericReply.framed(),
            ServerResponse::GetFileNameListReply(reply) => reply.framed(),
            ServerResponse::GetFileInfoReply(reply) => reply.framed(),
            ServerResponse::SetFileInfoReply(reply) => reply.framed(),
            ServerResponse::GetClientInfoTextReply(reply) => reply.framed(),
            ServerResponse::DownloadFileReply(reply) => reply.framed(),
            ServerResponse::UploadFileReply(reply) => reply.framed(),
            ServerResponse::DeleteFileReply(reply) => reply.framed(),
            ServerResponse::MoveFileReply(reply) => reply.framed(),
            ServerResponse::NewFolderReply => GenericReply.framed(),
            ServerResponse::GetUserReply(reply) => reply.framed(),
            ServerResponse::Rejected(message) => ServerResponse::reject(message),
            ServerResponse::SetUserReply => GenericReply.framed(),
            ServerResponse::NewUserReply => GenericReply.framed(),
            ServerResponse::DeleteUserReply => GenericReply.framed(),
            ServerResponse::SendBroadcastReply => GenericReply.framed(),
            ServerResponse::SendInstantMessageReply => GenericReply.framed(),
            ServerResponse::JoinChatReply(reply) => reply.framed(),
            ServerResponse::InviteToNewChatReply(reply) => reply.framed(),
        }
    }
}

/// Something the server tells a client without being asked.
#[derive(Debug)]
pub enum ServerRequest {
    Empty,
    Chat(ChatMessage),
    ChatRoomSubjectUpdate(ChatRoomSubject),
    ChatRoomInvite(ChatRoomInvite),
    ChatRoomJoin(ChatRoomPresence),
    ChatRoomLeave(ChatRoomLeave),
    Broadcast(Broadcast),
    News(Article),
    InstantMessage(InstantMessage),
    UserConnect(User),
    UserUpdate(User),
    UserDisconnect(User),
}

/// An answer a client gives to the server.
#[derive(Debug)]
pub enum ClientResponse {
    RejectChatInvite(RejectChatInvite),
}

} // verus!
