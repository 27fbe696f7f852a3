use vstd::prelude::*;

verus! {

/// The kind of a transaction, carried in its header.
#[derive(Debug, Copy, Clone, PartialEq, Eq, Structural, PartialOrd, Ord, Hash)]
pub enum TransactionType {
    Reply,
    Error,
    GetMessages,
    NewMessage,
    OldPostNews,
    ServerMessage,
    SendChat,
    ChatMessage,
    Login,
    SendInstantMessage,
    ShowAgreement,
    DisconnectUser,
    DisconnectMessage,
    InviteToNewChat,
    InviteToChat,
    RejectChatInvite,
    JoinChat,
    LeaveChat,
    NotifyChatUserChange,
    NotifyChatUserDelete,
    NotifyChatSubject,
    SetChatSubject,
    Agreed,
    ServerBanner,
    GetFileNameList,
    DownloadFile,
    UploadFile,
    DeleteFile,
    NewFolder,
    GetFileInfo,
    SetFileInfo,
    MoveFile,
    MakeFileAlias,
    DownloadFolder,
    DownloadBanner,
    UploadFolder,
    GetUserNameList,
    NotifyUserChange,
    NotifyUserDelete,
    GetClientInfoText,
    SetClientUserInfo,
    NewUser,
    DeleteUser,
    GetUser,
    SetUser,
    UserAccess,
    UserBroadcast,
    GetNewsCategoryNameList,
    GetNewsArticleNameList,
    DeleteNewsItem,
    NewNewsFolder,
    NewNewsCategory,
    GetNewsArticleData,
    PostNewsArticle,
    DeleteNewsArticle,
    ConnectionKeepAlive,
}

impl TransactionType {
    /// The number that stands for this value on the wire.
    pub open spec fn code(self) -> i16 {
        match self {
            TransactionType::Reply => 0,
            TransactionType::Error => 100,
            TransactionType::GetMessages => 101,
            TransactionType::NewMessage => 102,
            TransactionType::OldPostNews => 103,
            TransactionType::ServerMessage => 104,
            TransactionType::SendChat => 105,
            TransactionType::ChatMessage => 106,
            TransactionType::Login => 107,
            TransactionType::SendInstantMessage => 108,
            TransactionType::ShowAgreement => 109,
            TransactionType::DisconnectUser => 110,
            TransactionType::DisconnectMessage => 111,
            TransactionType::InviteToNewChat => 112,
            TransactionType::InviteToChat => 113,
            TransactionType::RejectChatInvite => 114,
            TransactionType::JoinChat => 115,
            TransactionType::LeaveChat => 116,
            TransactionType::NotifyChatUserChange => 117,
            TransactionType::NotifyChatUserDelete => 118,
            TransactionType::NotifyChatSubject => 119,
            TransactionType::SetChatSubject => 120,
            TransactionType::Agreed => 121,
            TransactionType::ServerBanner => 122,
            TransactionType::GetFileNameList => 200,
            TransactionType::DownloadFile => 202,
            TransactionType::UploadFile => 203,
            TransactionType::DeleteFile => 204,
            TransactionType::NewFolder => 205,
            TransactionType::GetFileInfo => 206,
            TransactionType::SetFileInfo => 207,
            TransactionType::MoveFile => 208,
            TransactionType::MakeFileAlias => 209,
            TransactionType::DownloadFolder => 210,
            TransactionType::DownloadBanner => 211,
            TransactionType::UploadFolder => 212,
            TransactionType::GetUserNameList => 300,
            TransactionType::NotifyUserChange => 301,
            TransactionType::NotifyUserDelete => 302,
            TransactionType::GetClientInfoText => 303,
            TransactionType::SetClientUserInfo => 304,
            TransactionType::NewUser => 350,
            TransactionType::DeleteUser => 351,
            TransactionType::GetUser => 352,
            TransactionType::SetUser => 353,
            TransactionType::UserAccess => 354,
            TransactionType::UserBroadcast => 355,
            TransactionType::GetNewsCategoryNameList => 370,
            TransactionType::GetNewsArticleNameList => 371,
            TransactionType::DeleteNewsItem => 380,
            TransactionType::NewNewsFolder => 381,
            TransactionType::NewNewsCategory => 382,
            TransactionType::GetNewsArticleData => 400,
            TransactionType::PostNewsArticle => 410,
            TransactionType::DeleteNewsArticle => 411,
            TransactionType::ConnectionKeepAlive => 500,
        }
    }

    /// The value that a number on the wire stands for, if any.
    pub open spec fn from_code(v: i16) -> Option<TransactionType> {
        if v == 0 {
            Some(TransactionType::Reply)
        } else if v == 100 {
            Some(TransactionType::Error)
        } else if v == 101 {
            Some(TransactionType::GetMessages)
        } else if v == 102 {
            Some(TransactionType::NewMessage)
        } else if v == 103 {
            Some(TransactionType::OldPostNews)
        } else if v == 104 {
            Some(TransactionType::ServerMessage)
        } else if v == 105 {
            Some(TransactionType::SendChat)
        } else if v == 106 {
            Some(TransactionType::ChatMessage)
        } else if v == 107 {
            Some(TransactionType::Login)
        } else if v == 108 {
            Some(TransactionType::SendInstantMessage)
        } else if v == 109 {
            Some(TransactionType::ShowAgreement)
        } else if v == 110 {
            Some(TransactionType::DisconnectUser)
        } else if v == 111 {
            Some(TransactionType::DisconnectMessage)
        } else if v == 112 {
            Some(TransactionType::InviteToNewChat)
        } else if v == 113 {
            Some(TransactionType::InviteToChat)
        } else if v == 114 {
            Some(TransactionType::RejectChatInvite)
        } else if v == 115 {
            Some(TransactionType::JoinChat)
        } else if v == 116 {
            Some(TransactionType::LeaveChat)
        } else if v == 117 {
            Some(TransactionType::NotifyChatUserChange)
        } else if v == 118 {
            Some(TransactionType::NotifyChatUserDelete)
        } else if v == 119 {
            Some(TransactionType::NotifyChatSubject)
        } else if v == 120 {
            Some(TransactionType::SetChatSubject)
        } else if v == 121 {
            Some(TransactionType::Agreed)
        } else if v == 122 {
            Some(TransactionType::ServerBanner)
        } else if v == 200 {
            Some(TransactionType::GetFileNameList)
        } else if v == 202 {
            Some(TransactionType::DownloadFile)
        } else if v == 203 {
            Some(TransactionType::UploadFile)
        } else if v == 204 {
            Some(TransactionType::DeleteFile)
        } else if v == 205 {
            Some(TransactionType::NewFolder)
        } else if v == 206 {
            Some(TransactionType::GetFileInfo)
        } else if v == 207 {
            Some(TransactionType::SetFileInfo)
        } else if v == 208 {
            Some(TransactionType::MoveFile)
        } else if v == 209 {
            Some(TransactionType::MakeFileAlias)
        } else if v == 210 {
            Some(TransactionType::DownloadFolder)
        } else if v == 211 {
            Some(TransactionType::DownloadBanner)
        } else if v == 212 {
            Some(TransactionType::UploadFolder)
        } else if v == 300 {
            Some(TransactionType::GetUserNameList)
        } else if v == 301 {
            Some(TransactionType::NotifyUserChange)
        } else if v == 302 {
            Some(TransactionType::NotifyUserDelete)
        } else if v == 303 {
            Some(TransactionType::GetClientInfoText)
        } else if v == 304 {
            Some(TransactionType::SetClientUserInfo)
        } else if v == 350 {
            Some(TransactionType::NewUser)
        } else if v == 351 {
            Some(TransactionType::DeleteUser)
        } else if v == 352 {
            Some(TransactionType::GetUser)
        } else if v == 353 {
            Some(TransactionType::SetUser)
        } else if v == 354 {
            Some(TransactionType::UserAccess)
        } else if v == 355 {
            Some(TransactionType::UserBroadcast)
        } else if v == 370 {
            Some(TransactionType::GetNewsCategoryNameList)
        } else if v == 371 {
            Some(TransactionType::GetNewsArticleNameList)
        } else if v == 380 {
            Some(TransactionType::DeleteNewsItem)
        } else if v == 381 {
            Some(TransactionType::NewNewsFolder)
        } else if v == 382 {
            Some(TransactionType::NewNewsCategory)
        } else if v == 400 {
            Some(TransactionType::GetNewsArticleData)
        } else if v == 410 {
            Some(TransactionType::PostNewsArticle)
        } else if v == 411 {
            Some(TransactionType::DeleteNewsArticle)
        } else if v == 500 {
            Some(TransactionType::ConnectionKeepAlive)
        } else {
            None
        }
    }

    pub fn to_i16(self) -> (r: i16)
        ensures
            r == self.code(),
    {
        match self {
            TransactionType::Reply => 0,
            TransactionType::Error => 100,
            TransactionType::GetMessages => 101,
            TransactionType::NewMessage => 102,
            TransactionType::OldPostNews => 103,
            TransactionType::ServerMessage => 104,
            TransactionType::SendChat => 105,
            TransactionType::ChatMessage => 106,
            TransactionType::Login => 107,
            TransactionType::SendInstantMessage => 108,
            TransactionType::ShowAgreement => 109,
            TransactionType::DisconnectUser => 110,
            TransactionType::DisconnectMessage => 111,
            TransactionType::InviteToNewChat => 112,
            TransactionType::InviteToChat => 113,
            TransactionType::RejectChatInvite => 114,
            TransactionType::JoinChat => 115,
            TransactionType::LeaveChat => 116,
            TransactionType::NotifyChatUserChange => 117,
            TransactionType::NotifyChatUserDelete => 118,
            TransactionType::NotifyChatSubject => 119,
            TransactionType::SetChatSubject => 120,
            TransactionType::Agreed => 121,
            TransactionType::ServerBanner => 122,
            TransactionType::GetFileNameList => 200,
            TransactionType::DownloadFile => 202,
            TransactionType::UploadFile => 203,
            TransactionType::DeleteFile => 204,
            TransactionType::NewFolder => 205,
            TransactionType::GetFileInfo => 206,
            TransactionType::SetFileInfo => 207,
            TransactionType::MoveFile => 208,
            TransactionType::MakeFileAlias => 209,
            TransactionType::DownloadFolder => 210,
            TransactionType::DownloadBanner => 211,
            TransactionType::UploadFolder => 212,
            TransactionType::GetUserNameList => 300,
            TransactionType::NotifyUserChange => 301,
            TransactionType::NotifyUserDelete => 302,
            TransactionType::GetClientInfoText => 303,
            TransactionType::SetClientUserInfo => 304,
            TransactionType::NewUser => 350,
            TransactionType::DeleteUser => 351,
            TransactionType::GetUser => 352,
            TransactionType::SetUser => 353,
            TransactionType::UserAccess => 354,
            TransactionType::UserBroadcast => 355,
            TransactionType::GetNewsCategoryNameList => 370,
            TransactionType::GetNewsArticleNameList => 371,
            TransactionType::DeleteNewsItem => 380,
            TransactionType::NewNewsFolder => 381,
            TransactionType::NewNewsCategory => 382,
            TransactionType::GetNewsArticleData => 400,
            TransactionType::PostNewsArticle => 410,
            TransactionType::DeleteNewsArticle => 411,
            TransactionType::ConnectionKeepAlive => 500,
        }
    }

    /// The value for the number `v`, or `v` itself when no value has it.
    pub fn try_from(v: i16) -> (r: Result<TransactionType, i16>)
        ensures
            r == (match TransactionType::from_code(v) {
                Some(t) => Ok::<TransactionType, i16>(t),
                None => Err(v),
            }),
    {
        if v == 0 {
            Ok(TransactionType::Reply)
        } else if v == 100 {
            Ok(TransactionType::Error)
        } else if v == 101 {
            Ok(TransactionType::GetMessages)
        } else if v == 102 {
            Ok(TransactionType::NewMessage)
        } else if v == 103 {
            Ok(TransactionType::OldPostNews)
        } else if v == 104 {
            Ok(TransactionType::ServerMessage)
        } else if v == 105 {
            Ok(TransactionType::SendChat)
        } else if v == 106 {
            Ok(TransactionType::ChatMessage)
        } else if v == 107 {
            Ok(TransactionType::Login)
        } else if v == 108 {
            Ok(TransactionType::SendInstantMessage)
        } else if v == 109 {
            Ok(TransactionType::ShowAgreement)
        } else if v == 110 {
            Ok(TransactionType::DisconnectUser)
        } else if v == 111 {
            Ok(TransactionType::DisconnectMessage)
        } else if v == 112 {
            Ok(TransactionType::InviteToNewChat)
        } else if v == 113 {
            Ok(TransactionType::InviteToChat)
        } else if v == 114 {
            Ok(TransactionType::RejectChatInvite)
        } else if v == 115 {
            Ok(TransactionType::JoinChat)
        } else if v == 116 {
            Ok(TransactionType::LeaveChat)
        } else if v == 117 {
            Ok(TransactionType::NotifyChatUserChange)
        } else if v == 118 {
            Ok(TransactionType::NotifyChatUserDelete)
        } else if v == 119 {
            Ok(TransactionType::NotifyChatSubject)
        } else if v == 120 {
            Ok(TransactionType::SetChatSubject)
        } else if v == 121 {
            Ok(TransactionType::Agreed)
        } else if v == 122 {
            Ok(TransactionType::ServerBanner)
        } else if v == 200 {
            Ok(TransactionType::GetFileNameList)
        } else if v == 202 {
            Ok(TransactionType::DownloadFile)
        } else if v == 203 {
            Ok(TransactionType::UploadFile)
        } else if v == 204 {
            Ok(TransactionType::DeleteFile)
        } else if v == 205 {
            Ok(TransactionType::NewFolder)
        } else if v == 206 {
            Ok(TransactionType::GetFileInfo)
        } else if v == 207 {
            Ok(TransactionType::SetFileInfo)
        } else if v == 208 {
            Ok(TransactionType::MoveFile)
        } else if v == 209 {
            Ok(TransactionType::MakeFileAlias)
        } else if v == 210 {
            Ok(TransactionType::DownloadFolder)
        } else if v == 211 {
            Ok(TransactionType::DownloadBanner)
        } else if v == 212 {
            Ok(TransactionType::UploadFolder)
        } else if v == 300 {
            Ok(TransactionType::GetUserNameList)
        } else if v == 301 {
            Ok(TransactionType::NotifyUserChange)
        } else if v == 302 {
            Ok(TransactionType::NotifyUserDelete)
        } else if v == 303 {
            Ok(TransactionType::GetClientInfoText)
        } else if v == 304 {
            Ok(TransactionType::SetClientUserInfo)
        } else if v == 350 {
            Ok(TransactionType::NewUser)
        } else if v == 351 {
            Ok(TransactionType::DeleteUser)
        } else if v == 352 {
            Ok(TransactionType::GetUser)
        } else if v == 353 {
            Ok(TransactionType::SetUser)
        } else if v == 354 {
            Ok(TransactionType::UserAccess)
        } else if v == 355 {
            Ok(TransactionType::UserBroadcast)
        } else if v == 370 {
            Ok(TransactionType::GetNewsCategoryNameList)
        } else if v == 371 {
            Ok(TransactionType::GetNewsArticleNameList)
        } else if v == 380 {
            Ok(TransactionType::DeleteNewsItem)
        } else if v == 381 {
            Ok(TransactionType::NewNewsFolder)
        } else if v == 382 {
            Ok(TransactionType::NewNewsCategory)
        } else if v == 400 {
            Ok(TransactionType::GetNewsArticleData)
        } else if v == 410 {
            Ok(TransactionType::PostNewsArticle)
        } else if v == 411 {
            Ok(TransactionType::DeleteNewsArticle)
        } else if v == 500 {
            Ok(TransactionType::ConnectionKeepAlive)
        } else {
            Err(v)
        }
    }

    /// Every value is found again from its number.
    pub proof fn lemma_code_roundtrip(self)
        ensures
            TransactionType::from_code(self.code()) == Some(self),
    {
    }

    /// A number is only ever found to stand for a value that has that number.
    pub proof fn lemma_from_code_sound(v: i16)
        ensures
            TransactionType::from_code(v) matches Some(t) ==> t.code() == v,
    {
    }
}

} // verus!
