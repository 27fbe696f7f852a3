//! What travels on the bus between connected clients and the server's state.

use vstd::prelude::*;

use crate::protocol::messages::ChatMessage;
use super::{
    Article, Broadcast, ChatRoomInvite, ChatRoomLeave, ChatRoomPresence, ChatRoomSubject,
    DownloadInfo, InstantMessage, User,
};

verus! {

/// A notification published to every connected client.
#[derive(Debug, Clone)]
pub enum Notification {
    End,
    Chat(ChatMessage),
    ChatRoomSubjectUpdate(ChatRoomSubject),
    ChatRoomInvite(ChatRoomInvite),
    ChatRoomJoin(ChatRoomPresence),
    ChatRoomLeave(ChatRoomLeave),
    Broadcast(Broadcast),
    DownloadInfo(DownloadInfo),
    News(Article),
    InstantMessage(InstantMessage),
    UserConnect(User),
    UserUpdate(User),
    UserDisconnect(User),
}

} // verus!
