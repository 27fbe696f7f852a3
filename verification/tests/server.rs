use neolith::protocol::fork::{CompressionType, DataSource, ForkHeader, ForkType};
use neolith::protocol::messages::{
    ChatMessage, GetClientInfoText, InviteToChat, JoinChat, LeaveChat, LoginRequest, SendChat,
    SendInstantMessage, SetChatSubject,
};
use neolith::protocol::parameters::{
    ChatId, ChatOptions, ChatSubject, FileName, FilePath, IconId, Nickname, ReferenceNumber,
    UserFlags, UserId, UserLogin, UserNameWithInfo, WaitingCount,
};
use neolith::protocol::transaction::{Parameter, TransactionFrame};
use neolith::protocol::{FieldId, TransactionField, TransactionHeader, TransactionType};
use neolith::server::application::{
    ChatOperation, ChatPermissions, FileOperation, FilePermissions, MiscPermissions, NewsOperation,
    NewsPermissions, UserAccount, UserAccountIdentity, UserAccountPermissions, UserOperation,
    UserPermissions,
};
use neolith::server::bus::Notification;
use neolith::protocol::messages::GetMessages;
use neolith::protocol::ProtocolError;
use neolith::server::connection::{handle_request, Peers, Step};
use neolith::server::chat::{ChatCommand, ChatReply, ChatUpdateProcessor, Chats};
use neolith::server::dispatch::{
    account_reply, client_info_reply, created_chat_reply, folder_reply, join_path, listing_reply,
    plan_request, ServerFailure, ServerWork,
};
use neolith::server::established::{classify, notification_frame, Incoming, VersionedLoginRequest};
use neolith::server::files::{
    Creator, DirEntry, ExtendedMetadata, FileInfo, FileType, OsFiles, PathError, PathPart, plain_info_fork,
};
use neolith::server::lifecycle::{
    accept_login, chat_list, complete_login, departure_notices, handshake_version, keep_alive_reply,
    login_flags, next_transaction_id, Phase, PhaseWork,
};
use neolith::server::news::News;
use neolith::server::password::Password;
use neolith::server::transfers::{
    download_reply, download_start, fork_use, take_download_forks, ForkCursor, ForkUse, Requests,
};
use neolith::server::user_editor::{valid_nickname, valid_username};
use neolith::server::users::{UserCommand, UserReply, UserUpdateProcessor, Users};
use neolith::server::{
    format_chat, Broadcast, ChatRoomCreationRequest, ChatRoomInvite, ChatRoomLeave, ChatRoomPresence,
    ClientRequest, ServerResponse, User,
};

fn user(name: &str, icon: i16) -> UserNameWithInfo {
    UserNameWithInfo {
        user_id: UserId(0),
        icon_id: IconId(icon),
        user_flags: UserFlags(0),
        username_len: name.len() as i16,
        username: Nickname(name.as_bytes().to_vec()),
    }
}

#[test]
fn connection_phases_go_forward() {
    let mut p = Phase::New;
    let mut work = Vec::new();
    for _ in 0..5 {
        work.push(p.work());
        p = p.after(true);
    }
    assert_eq!(
        work,
        vec![PhaseWork::Handshake, PhaseWork::Login, PhaseWork::Serve, PhaseWork::Nothing, PhaseWork::Nothing]
    );
    assert_eq!(p, Phase::Closed);
    assert_eq!(Phase::Unauthenticated.after(false), Phase::Borrowed);
    assert_eq!(Phase::Closed.after(false), Phase::Closed);
}

#[test]
fn handshake_is_answered_with_version() {
    let hello = [0x54, 0x52, 0x54, 0x50, 0x48, 0x4f, 0x54, 0x4c, 0x00, 0x01, 0x00, 0x02];
    assert_eq!(handshake_version(&hello).map(|v| v.0), Some(123));
    assert!(handshake_version(&hello[..8]).is_none());
}

#[test]
fn users_get_ids_in_turn() {
    let mut users = Users::new();
    let mut a = user("alice", 1);
    let mut b = user("bob", 2);
    let ida = users.add(&mut a);
    let idb = users.add(&mut b);
    assert_eq!(ida, UserId(1));
    assert_eq!(idb, UserId(2));
    assert_eq!(users.find(idb).unwrap().username.0, b"bob".to_vec());
    users.remove(&a);
    assert!(users.find(ida).is_none());
    assert_eq!(users.to_vec().len(), 1);
}

#[test]
fn user_update_replaces_entry() {
    let mut users = Users::new();
    let mut a = user("alice", 1);
    users.add(&mut a);
    let mut renamed = a.clone();
    renamed.username = Nickname(b"al".to_vec());
    assert_eq!(users.update(&renamed), Some(a.user_id));
    assert_eq!(users.find(a.user_id).unwrap().username.0, b"al".to_vec());
    let stranger = UserNameWithInfo { user_id: UserId(99), ..user("x", 0) };
    assert_eq!(users.update(&stranger), None);
}

#[test]
fn user_processor_replies() {
    let mut p = UserUpdateProcessor::new();
    let r = p.handle(UserCommand::Connect(user("carol", 3)));
    assert_eq!(r, UserReply::Connected(UserId(1)));
    assert!(p.users().find(UserId(1)).is_some());
    let gone = UserNameWithInfo { user_id: UserId(1), ..user("carol", 3) };
    assert_eq!(p.handle(UserCommand::Disconnect(gone)), UserReply::Done);
    assert!(p.users().find(UserId(1)).is_none());
}

#[test]
fn chat_rooms_join_leave_and_leave_all() {
    let mut chats = Chats::new();
    let room = chats.create(vec![UserId(1), UserId(2)]);
    assert_eq!(room, ChatId(1));
    let second = chats.create(vec![UserId(1)]);
    assert_eq!(second, ChatId(2));
    chats.join(room, UserId(3));
    assert!(chats.room(room).unwrap().contains(&UserId(3)));
    chats.leave(room, UserId(3));
    assert!(!chats.room(room).unwrap().contains(&UserId(3)));
    chats.set_subject(room, b"topic".to_vec());
    assert_eq!(chats.room(room).unwrap().subject(), Some(b"topic".to_vec()));
    let mut left = chats.leave_all(UserId(1));
    left.sort();
    assert_eq!(left, vec![ChatId(1), ChatId(2)]);
    assert!(!chats.room(second).unwrap().contains(&UserId(1)));
    assert!(chats.leave_all(UserId(1)).is_empty());
}

#[test]
fn chat_processor_creates_with_creator_and_invitees() {
    let mut p = ChatUpdateProcessor::new();
    let reply = p.handle(ChatCommand::Create(ChatRoomCreationRequest(UserId(5), vec![UserId(6)])));
    let id = match reply {
        ChatReply::Created(id) => id,
        other => panic!("unexpected {other:?}"),
    };
    let room = p.chats().room(id).unwrap();
    assert!(room.contains(&UserId(5)));
    assert!(room.contains(&UserId(6)));
    assert_eq!(room.users().len(), 2);
}

#[test]
fn chat_list_shows_connected_members() {
    let mut users = Users::new();
    let mut a = user("alice", 1);
    users.add(&mut a);
    let mut chats = Chats::new();
    let room = chats.create(vec![a.user_id, UserId(42)]);
    let listed = chat_list(&chats, &users, room);
    assert_eq!(listed.len(), 1);
    assert_eq!(listed[0].username.0, b"alice".to_vec());
    assert!(chat_list(&chats, &users, ChatId(77)).is_empty());
}

#[test]
fn departing_user_leaves_every_room() {
    let notes = departure_notices(vec![ChatId(1), ChatId(4)], UserId(9));
    assert_eq!(notes.len(), 2);
    match &notes[1] {
        Notification::ChatRoomLeave(ChatRoomLeave(c, u)) => {
            assert_eq!(*c, ChatId(4));
            assert_eq!(*u, UserId(9));
        }
        other => panic!("unexpected {other:?}"),
    }
}

#[test]
fn news_reads_newest_first() {
    let mut news = News::new();
    assert!(news.all().is_empty());
    news.post(b"first".to_vec());
    news.post(b"second".to_vec());
    assert_eq!(news.all(), b"second\r--\rfirst".to_vec());
}

#[test]
fn news_keeps_mac_roman() {
    let mut news = News::new();
    news.post(vec![0x63, 0x61, 0x66, 0x8e]);
    assert_eq!(news.all(), vec![0x63, 0x61, 0x66, 0x8e]);
}

#[test]
fn chat_lines_carry_the_speaker() {
    assert_eq!(format_chat(b"bob", b"hi"), b"\r bob: hi".to_vec());
    let message = neolith::server::Chat(None, User(user("bob", 1)), b"hi".to_vec()).into_message();
    assert_eq!(message.message, b"\r bob: hi".to_vec());
    assert_eq!(message.chat_id, None);
    let b = Broadcast(b"all".to_vec()).into_server_message();
    assert_eq!(b.user_id, None);
    assert_eq!(b.message, b"all".to_vec());
}

#[test]
fn file_permission_bits() {
    let d = FilePermissions::default();
    assert!(d.can(FileOperation::Download));
    assert!(d.can(FileOperation::UploadToDropbox));
    assert!(!d.can(FileOperation::DeleteFile));
    assert_eq!(d.to_bits(), 0x6000_0000_0000_0000u64 as i64);
    let back = FilePermissions::from_bits(d.to_bits());
    assert!(back.can(FileOperation::Download));
    assert_eq!(back.to_bits(), d.to_bits());
    let ops = FilePermissions::from_ops(&vec![FileOperation::CreateAlias]);
    assert_eq!(ops.to_bits(), 1i64 << 32);
    assert_eq!(ops.ops(), vec![FileOperation::CreateAlias]);
}

#[test]
fn other_permission_kinds() {
    let news = NewsPermissions::from_ops(&vec![NewsOperation::PostNews]);
    assert!(news.can(NewsOperation::PostNews));
    assert!(!news.can(NewsOperation::ReadNews));
    let chat = ChatPermissions::from_ops(&vec![ChatOperation::ReadChat, ChatOperation::SendChat]);
    assert_eq!(chat.ops(), vec![ChatOperation::ReadChat, ChatOperation::SendChat]);
    let user = UserPermissions::from_ops(&vec![UserOperation::CanReadUsers]);
    assert!(user.can(UserOperation::CanReadUsers));
    let misc = MiscPermissions::empty();
    assert_eq!(misc.to_bits(), 0);
}

#[test]
fn account_access_roundtrip() {
    let p = UserAccountPermissions {
        file: FilePermissions::default(),
        user: UserPermissions::from_ops(&vec![UserOperation::CanGetUserInfo]),
        news: NewsPermissions::from_ops(&vec![NewsOperation::ReadNews]),
        chat: ChatPermissions::empty(),
        misc: MiscPermissions::empty(),
    };
    let bits = p.clone().to_bits();
    let back = UserAccountPermissions::from_bits(bits);
    assert_eq!(back.to_bits(), bits);
    assert!(back.user.can(UserOperation::CanGetUserInfo));
}

fn account() -> UserAccount {
    UserAccount {
        identity: UserAccountIdentity {
            name: "test account".to_string(),
            login: "test".to_string(),
            password: Password("$2y$05$bvIG6Nmid91Mu9RcmmWZfO5HJIMCT8riNW0hEp8f6/FuA2/mHZFpe".to_string()),
        },
        permissions: UserAccountPermissions::default(),
    }
}

#[test]
fn bcrypt_password_check() {
    let a = account();
    assert!(a.identity.password.verify("password"));
    assert!(!a.identity.password.verify("wrong"));
    let fresh = Password::try_from("secret").unwrap();
    assert!(fresh.verify("secret"));
    assert!(!fresh.verify("Secret"));
}

#[test]
fn account_reply_shows_account() {
    match account_reply(Some(account())) {
        ServerResponse::GetUserReply(r) => {
            assert_eq!(r.username.0, b"test account".to_vec());
            assert_eq!(r.user_login.0, b"test".iter().map(|b| !b).collect::<Vec<u8>>());
            assert!(r.user_password.0.is_empty());
        }
        other => panic!("unexpected {other:?}"),
    }
    match account_reply(None) {
        ServerResponse::Rejected(Some(m)) => assert_eq!(m, "User account not found"),
        other => panic!("unexpected {other:?}"),
    }
}

#[test]
fn username_and_nickname_checks() {
    assert_eq!(valid_username("jyelloz"), Some(true));
    assert_eq!(valid_username("j_y-2"), Some(true));
    assert_eq!(valid_username("Bad Name"), Some(false));
    assert_eq!(valid_username(""), Some(false));
    assert_eq!(valid_username(&"a".repeat(33)), Some(false));
    assert_eq!(valid_username(&"a".repeat(32)), Some(true));
    assert_eq!(valid_username("alice\n"), Some(false));
    assert_eq!(valid_username("é"), Some(false));
    assert!(valid_nickname("a"));
    assert!(!valid_nickname(""));
    assert!(valid_nickname(&"é".repeat(16)));
    assert!(!valid_nickname(&"é".repeat(17)));
}

fn login_frame() -> TransactionFrame {
    let bytes: &[u8] = &[
        0x00, 0x00, 0x00, 0x6b, 0x00, 0x00, 0x00, 0x01, 0x00, 0x00, 0x00, 0x00, 0x00, 0x00, 0x00, 0x28,
        0x00, 0x00, 0x00, 0x28, 0x00, 0x04, 0x00, 0x69, 0x00, 0x07, 0x95, 0x86, 0x9a, 0x93, 0x93, 0x90,
        0x85, 0x00, 0x6a, 0x00, 0x06, 0xce, 0xcd, 0xcc, 0xcb, 0xca, 0xc9, 0x00, 0x66, 0x00, 0x07, 0x6a,
        0x79, 0x65, 0x6c, 0x6c, 0x6f, 0x7a, 0x00, 0x68, 0x00, 0x02, 0x00, 0x91,
    ];
    TransactionFrame::from_bytes(bytes).unwrap().1
}

#[test]
fn login_frame_is_a_login_request() {
    match ClientRequest::try_from(login_frame()) {
        Ok(ClientRequest::Login(l)) => assert_eq!(l.icon_id, Some(IconId(145))),
        other => panic!("unexpected {other:?}"),
    }
}

#[test]
fn unsupported_type_is_refused() {
    let frame = TransactionFrame::empty_of(TransactionType::ShowAgreement);
    match ClientRequest::try_from(frame) {
        Err(neolith::protocol::ProtocolError::UnsupportedTransaction(c)) => {
            assert_eq!(c, TransactionType::ShowAgreement.to_i16())
        }
        other => panic!("unexpected {other:?}"),
    }
}

#[test]
fn keep_alive_is_answered() {
    let frame = TransactionFrame::empty_of(TransactionType::ConnectionKeepAlive);
    assert!(matches!(classify(frame.clone()), Incoming::KeepAlive));
    let reply = keep_alive_reply(&frame.header);
    assert_eq!(reply.header.is_reply.0, 1);
    assert_eq!(reply.header.id, frame.header.id);
    assert!(matches!(classify(login_frame()), Incoming::Request(ClientRequest::Login(_))));
    let agreed = TransactionFrame::empty_of(TransactionType::Agreed);
    assert!(matches!(classify(agreed), Incoming::Unhandled));
}

#[test]
fn login_accepted_with_name_and_icon() {
    let frame = login_frame();
    let header = frame.header;
    let request = VersionedLoginRequest(LoginRequest::try_from(frame).unwrap());
    assert_eq!(request.login().0, b"jyelloz".to_vec());
    assert_eq!(request.password().0, b"123456".iter().map(|b| !b).collect::<Vec<u8>>());
    assert!(accept_login(&request, &header, None).is_none());
    let accepted = accept_login(&request, &header, Some(true)).unwrap();
    assert_eq!(accepted.reply.header.id, header.id);
    assert_eq!(accepted.reply.header.is_reply.0, 1);
    let u = accepted.user.unwrap();
    assert_eq!(u.username.0, b"jyelloz".to_vec());
    assert_eq!(u.icon_id, IconId(145));
    assert_eq!(u.user_flags, UserFlags(2));
    assert_eq!(login_flags(false), UserFlags(0));
}

#[test]
fn login_completed_by_user_info() {
    let mut request = VersionedLoginRequest(LoginRequest {
        login: Some(UserLogin::from_cleartext(b"guest")),
        nickname: None,
        password: None,
        icon_id: None,
    });
    assert!(request.old_style().is_none());
    let name = Parameter::of_field(TransactionField::UserName, b"newbie".to_vec());
    let icon = Parameter::new_i16(FieldId::from_field(TransactionField::UserIconId), 7);
    let frame = TransactionFrame::with_parameters(TransactionType::SetClientUserInfo, vec![name, icon]);
    let u = complete_login(&mut request, frame, UserFlags(0)).unwrap();
    assert_eq!(u.username.0, b"newbie".to_vec());
    assert_eq!(u.username_len, 6);
    assert_eq!(request.0.icon_id, Some(IconId(7)));
    let bad = TransactionFrame::empty_of(TransactionType::SetClientUserInfo);
    assert!(complete_login(&mut request, bad, UserFlags(0)).is_err());
}

#[test]
fn guest_login_when_none_sent() {
    let request = VersionedLoginRequest(LoginRequest { login: None, nickname: None, password: None, icon_id: None });
    assert_eq!(request.login().0, b"guest".to_vec());
    assert!(request.password().0.is_empty());
}

#[test]
fn transaction_ids_count_up() {
    let mut n = 41u32;
    assert_eq!(next_transaction_id(&mut n).0, 41);
    assert_eq!(n, 42);
}

fn world() -> (Users, Chats, News, UserNameWithInfo, UserNameWithInfo) {
    let mut users = Users::new();
    let mut me = user("me", 1);
    let mut you = user("you", 2);
    users.add(&mut me);
    users.add(&mut you);
    (users, Chats::new(), News::new(), me, you)
}

#[test]
fn requests_of_unknown_users_fail() {
    let (users, chats, news, _, _) = world();
    let w = plan_request(UserId(50), ClientRequest::GetUserNameList(neolith::protocol::messages::GetUserNameList), &users, &chats, &news);
    assert!(matches!(w, ServerWork::Fail(ServerFailure::NoCurrentUser)));
}

#[test]
fn user_list_and_chat_plans() {
    let (users, chats, news, me, you) = world();
    match plan_request(me.user_id, ClientRequest::GetUserNameList(neolith::protocol::messages::GetUserNameList), &users, &chats, &news) {
        ServerWork::Answer(Some(ServerResponse::GetUserNameListReply(r))) => assert_eq!(r.0.len(), 2),
        other => panic!("unexpected {other:?}"),
    }
    let chat = SendChat { options: ChatOptions(0), chat_id: None, message: b"yo".to_vec() };
    match plan_request(me.user_id, ClientRequest::SendChat(chat), &users, &chats, &news) {
        ServerWork::Publish(Notification::Chat(ChatMessage { chat_id: None, message }), None) => {
            assert_eq!(message, b"\r me: yo".to_vec())
        }
        other => panic!("unexpected {other:?}"),
    }
    let im = SendInstantMessage { user_id: you.user_id, message: b"psst".to_vec() };
    match plan_request(me.user_id, ClientRequest::SendInstantMessage(im), &users, &chats, &news) {
        ServerWork::Publish(Notification::InstantMessage(m), Some(ServerResponse::SendInstantMessageReply)) => {
            assert_eq!(m.to.0.username.0, b"you".to_vec());
            assert_eq!(m.from.0.username.0, b"me".to_vec());
        }
        other => panic!("unexpected {other:?}"),
    }
    let nobody = SendInstantMessage { user_id: UserId(77), message: b"?".to_vec() };
    assert!(matches!(
        plan_request(me.user_id, ClientRequest::SendInstantMessage(nobody), &users, &chats, &news),
        ServerWork::Answer(Some(ServerResponse::SendInstantMessageReply))
    ));
    match plan_request(me.user_id, ClientRequest::GetClientInfoText(GetClientInfoText { user_id: UserId(77) }), &users, &chats, &news) {
        ServerWork::Fail(ServerFailure::UnknownUser(id)) => assert_eq!(id, UserId(77)),
        other => panic!("unexpected {other:?}"),
    }
    let invite = InviteToChat { user_id: you.user_id, chat_id: ChatId(3) };
    match plan_request(me.user_id, ClientRequest::InviteToChat(invite), &users, &chats, &news) {
        ServerWork::Publish(Notification::ChatRoomInvite(ChatRoomInvite(c, u)), None) => {
            assert_eq!(c, ChatId(3));
            assert_eq!(u, you.user_id);
        }
        other => panic!("unexpected {other:?}"),
    }
}

#[test]
fn joining_rooms_plans() {
    let (users, mut chats, news, me, you) = world();
    match plan_request(me.user_id, ClientRequest::JoinChat(JoinChat(ChatId(1))), &users, &chats, &news) {
        ServerWork::Answer(Some(ServerResponse::Rejected(Some(m)))) => assert_eq!(m, "invalid chat"),
        other => panic!("unexpected {other:?}"),
    }
    let room = chats.create(vec![you.user_id]);
    chats.set_subject(room, b"s".to_vec());
    match plan_request(me.user_id, ClientRequest::JoinChat(JoinChat(room)), &users, &chats, &news) {
        ServerWork::ChangeChats(ChatCommand::UserJoin(ChatRoomPresence(c, User(u))), Some(ServerResponse::JoinChatReply(r))) => {
            assert_eq!(c, room);
            assert_eq!(u.user_id, me.user_id);
            assert_eq!(r.subject, Some(ChatSubject(b"s".to_vec())));
            assert_eq!(r.users.len(), 1);
            assert_eq!(r.users[0].user_id, you.user_id);
        }
        other => panic!("unexpected {other:?}"),
    }
    assert!(matches!(
        plan_request(me.user_id, ClientRequest::LeaveChat(LeaveChat(room)), &users, &chats, &news),
        ServerWork::ChangeChats(ChatCommand::UserLeave(_), None)
    ));
    let subject = SetChatSubject(room, ChatSubject(b"new".to_vec()));
    match plan_request(me.user_id, ClientRequest::SetChatSubject(subject), &users, &chats, &news) {
        ServerWork::ChangeChats(ChatCommand::SubjectUpdate(s), None) => assert_eq!(s.1, b"new".to_vec()),
        other => panic!("unexpected {other:?}"),
    }
    match plan_request(me.user_id, ClientRequest::InviteToNewChat(neolith::protocol::messages::InviteToNewChat(vec![you.user_id])), &users, &chats, &news) {
        ServerWork::CreateChat(ChatRoomCreationRequest(c, us)) => {
            assert_eq!(c, me.user_id);
            assert_eq!(us, vec![you.user_id]);
        }
        other => panic!("unexpected {other:?}"),
    }
    match created_chat_reply(ChatId(9), &me) {
        ServerResponse::InviteToNewChatReply(r) => {
            assert_eq!(r.chat_id, ChatId(9));
            assert_eq!(r.user_name.0, b"me".to_vec());
        }
        other => panic!("unexpected {other:?}"),
    }
}

#[test]
fn paths_are_decoded_from_mac_roman() {
    let path = FilePath::Directory(vec![b"caf".iter().copied().chain([0x8e]).collect(), b"x".to_vec()]);
    let parts = join_path(&path, &FileName(b"f.txt".to_vec()));
    assert_eq!(parts, vec!["café".to_string(), "x".to_string(), "f.txt".to_string()]);
    assert_eq!(join_path(&FilePath::Root, &FileName(b"a".to_vec())), vec!["a".to_string()]);
}

#[test]
fn listing_keeps_listable_entries() {
    let entry = |name: Option<&str>, len: u64| DirEntry {
        name: name.map(|n| n.to_string()),
        data_len: len,
        rsrc_len: 0,
        type_code: FileType(*b"TEXT"),
        creator_code: Creator(*b"ttxt"),
    };
    let entries = vec![entry(Some("a"), 1), entry(None, 1), entry(Some("big"), 1 << 40), entry(Some("é"), 2)];
    match listing_reply(entries) {
        ServerResponse::GetFileNameListReply(r) => {
            assert_eq!(r.0.len(), 2);
            assert_eq!(r.0[0].file_name, b"a".to_vec());
            assert_eq!(r.0[1].file_name, vec![0x8e]);
            assert_eq!(r.0[1].file_size.0, 2);
        }
        other => panic!("unexpected {other:?}"),
    }
}

#[test]
fn client_info_uses_carriage_returns() {
    let u = user("me", 1);
    match client_info_reply(&u, "a\nb") {
        Ok(ServerResponse::GetClientInfoTextReply(r)) => {
            assert_eq!(r.text, b"a\rb".to_vec());
            assert_eq!(r.user_name.0, b"me".to_vec());
        }
        other => panic!("unexpected {other:?}"),
    }
    assert!(matches!(client_info_reply(&u, "日本"), Err(ServerFailure::Unencodable)));
}

#[test]
fn folder_outcomes() {
    assert!(matches!(folder_reply(Ok(())), ServerResponse::NewFolderReply));
    match folder_reply(Err("exists".to_string())) {
        ServerResponse::Rejected(Some(m)) => assert_eq!(m, "exists"),
        other => panic!("unexpected {other:?}"),
    }
}

#[test]
fn rejection_frame_has_error_code_one() {
    let frame = ServerResponse::reject(Some("no".to_string()));
    assert_eq!(frame.header.error_code.0, 1);
    assert_eq!(frame.header.type_.0, TransactionType::Error.to_i16());
    assert_eq!(frame.body.parameters[0].field_data, b"no".to_vec());
    assert_eq!(frame.body.parameter_count, 1);
    assert_eq!(ServerResponse::reject(None).body.parameter_count, 0);
}

#[test]
fn notifications_reach_the_right_clients() {
    let (users, mut chats, _, me, you) = world();
    let room = chats.create(vec![you.user_id]);
    let private = Notification::Chat(ChatMessage { chat_id: Some(room), message: b"x".to_vec() });
    assert!(notification_frame(private, Some(&me), &chats, &users).is_none());
    let private = Notification::Chat(ChatMessage { chat_id: Some(room), message: b"x".to_vec() });
    assert!(notification_frame(private, Some(&you), &chats, &users).is_some());
    let public = Notification::Chat(ChatMessage { chat_id: None, message: b"x".to_vec() });
    let f = notification_frame(public, Some(&me), &chats, &users).unwrap();
    assert_eq!(f.header.type_.0, TransactionType::ChatMessage.to_i16());
    let invite = Notification::ChatRoomInvite(ChatRoomInvite(room, you.user_id));
    assert!(notification_frame(invite, Some(&me), &chats, &users).is_none());
    let info = Notification::DownloadInfo(neolith::server::DownloadInfo(ReferenceNumber(9), WaitingCount(2)));
    let f = notification_frame(info, Some(&me), &chats, &users).unwrap();
    assert_eq!(f.header.type_.0, 211);
    assert_eq!(f.body.parameters[0].field_data, vec![0, 0, 0, 9]);
    assert_eq!(f.body.parameters[1].field_data, vec![0, 0, 0, 2]);
}

#[test]
fn transfers_wait_under_their_numbers() {
    let mut requests: Requests<&str> = Requests::new();
    let d = requests.add_download("conn-a");
    let u = requests.add_upload("conn-b");
    assert_eq!(d, ReferenceNumber(0));
    assert_eq!(u, ReferenceNumber(1));
    assert_eq!(requests.get_upload(d), None);
    assert_eq!(requests.get_download(d), Some("conn-a"));
    assert_eq!(requests.get_download(d), None);
    assert_eq!(requests.get_upload(u), Some("conn-b"));
}

#[test]
fn download_sizes_and_order() {
    let info = plain_info_fork(b"f".to_vec(), None, Some(0));
    assert!(matches!(info.platform, neolith::protocol::fork::PlatformType::MicrosoftWin));
    assert_eq!(info.type_code.0, *b"BINA");
    assert_eq!(info.modified_at.0.year, 1970);
    let mut file = neolith::server::files::flattened_file(
        info,
        DataSource { len: 100, source: 1 },
        Some(DataSource { len: 20, source: 2 }),
    );
    let reply = download_reply(&file, ReferenceNumber(5), 0).unwrap();
    assert_eq!(reply.file_size.0, 120);
    assert_eq!(reply.transfer_size.0, 75 + 120);
    assert_eq!(reply.reference, ReferenceNumber(5));
    let start = download_start(&file);
    assert_eq!(&start[..4], b"FILP");
    assert_eq!(&start[22..24], &[0, 3]);
    assert_eq!(&start[24..28], b"INFO");
    assert_eq!(start.len(), 24 + 16 + 46 + 1);
    let forks = take_download_forks(&mut file);
    assert_eq!(forks.len(), 2);
    assert!(matches!(forks[0].0.fork_type, ForkType::Resource));
    assert_eq!(forks[0].1.source, 2);
    assert!(matches!(forks[1].0.fork_type, ForkType::Data));
    assert_eq!(forks[1].0.data_size.0, 100);
}

#[test]
fn fork_cursor_counts_forks() {
    let mut c = ForkCursor::new();
    c.info_read();
    assert!(c.next_due(3));
    assert!(c.next_due(3));
    assert!(!c.next_due(3));
    assert_eq!(c.position, 3);
}

#[test]
fn file_information_from_metadata() {
    let meta = ExtendedMetadata::of_entry(false, 10, 5, None, Some(b"note".to_vec()));
    assert_eq!(meta.file_type.0, *b"BINA");
    let info = FileInfo::from_metadata(Some(b"n".to_vec()), meta, None, Some(1_546_300_800));
    assert_eq!(info.created_at.year, 2019);
    assert_eq!(info.modified_at.year, 2019);
    assert_eq!(info.total_size(), 15);
    let dir = ExtendedMetadata::of_entry(true, 10, 5, None, None);
    assert_eq!(dir.file_type.0, *b"fldr");
    assert_eq!(dir.data_len, 0);
}

#[test]
fn headers_of_frames_have_types() {
    let h = TransactionHeader::from_type(TransactionType::GetUser);
    assert_eq!(h.type_.0, TransactionType::GetUser.to_i16());
}

#[test]
fn chat_line_frames_read_back() {
    let sent = SendChat { options: ChatOptions(1), chat_id: Some(ChatId(7)), message: b"hi there".to_vec() };
    let read = SendChat::try_from(sent.framed()).unwrap();
    assert_eq!(read.options, ChatOptions(1));
    assert_eq!(read.chat_id, Some(ChatId(7)));
    assert_eq!(read.message, b"hi there".to_vec());

    let public = SendChat { options: ChatOptions(0), chat_id: None, message: b"all".to_vec() };
    let read = SendChat::try_from(public.framed()).unwrap();
    assert_eq!(read.chat_id, None);
    assert_eq!(read.message, b"all".to_vec());

    let line = ChatMessage { chat_id: Some(ChatId(-2)), message: b"x".to_vec() };
    let read = ChatMessage::try_from(line.framed()).unwrap();
    assert_eq!(read.chat_id, Some(ChatId(-2)));
    assert_eq!(read.message, b"x".to_vec());
}

#[test]
fn subpath_stays_under_the_root() {
    let n = |s: &str| PathPart::Normal(s.as_bytes().to_vec());
    let files = OsFiles::from_root(vec![PathPart::RootDir, n("srv")]);
    assert_eq!(
        files.subpath(&vec![PathPart::RootDir, n("etc")]).unwrap(),
        vec![PathPart::RootDir, n("srv"), n("etc")],
    );
    assert_eq!(
        files.subpath(&vec![n("a"), PathPart::CurDir, n("b")]).unwrap(),
        vec![PathPart::RootDir, n("srv"), n("a"), n("b")],
    );
    assert_eq!(files.subpath(&vec![n("a"), PathPart::ParentDir]), Err(PathError::InvalidInput));
}

#[test]
fn unreadable_hash_accepts_nothing() {
    let tab = Password("$2b$10$\tbvIG6Nmid91Mu9RcmmWZfO5HJIMCT8riNW0hEp8f6/FuA2/mHZFp".to_string());
    assert!(!tab.verify("password"));
    let high = Password("$2y$05$\u{80}vIG6Nmid91Mu9RcmmWZfO5HJIMCT8riNW0hEp8f6/FuA2/mHZFpe".to_string());
    assert!(!high.verify("password"));
}

#[test]
fn plain_server_needs_its_files_root() {
    let mut peers = Peers::new();
    match handle_request(&mut peers, 1, ClientRequest::GetMessages(GetMessages), false) {
        Err(ProtocolError::SystemError) => {},
        other => panic!("unexpected {other:?}"),
    }
    match handle_request(&mut peers, 1, ClientRequest::GetMessages(GetMessages), true) {
        Ok(o) => {
            assert!(matches!(o.step, Step::Respond(Some(ServerResponse::GetMessagesReply(_)))));
            assert!(o.deliveries.is_empty());
        },
        other => panic!("unexpected {other:?}"),
    }
}

#[test]
fn upload_forks_are_sorted() {
    let header = |fork_type| ForkHeader {
        fork_type,
        compression_type: CompressionType::Uncompressed,
        padding: [0; 4],
        data_size: neolith::protocol::DataSize(0),
    };
    let mut cursor = ForkCursor::new();
    assert!(cursor.first_fork(&header(ForkType::Data)).is_err());
    assert_eq!(cursor.position, 0);
    assert!(cursor.first_fork(&header(ForkType::Info)).is_ok());
    assert_eq!(cursor.position, 1);
    assert_eq!(fork_use(&header(ForkType::Data)), ForkUse::DataFile);
    assert_eq!(fork_use(&header(ForkType::Resource)), ForkUse::ResourceFork);
    assert_eq!(fork_use(&header(ForkType::Info)), ForkUse::Skip);
    assert_eq!(fork_use(&header(ForkType::Other(*b"MACR"))), ForkUse::Skip);
}

#[test]
fn ascii_error_text_passes_through() {
    let p = Parameter::new_error("no such file");
    assert_eq!(p.field_data, b"no such file".to_vec());
}
