use vstd::prelude::*;

verus! {

/// The meaning of a parameter, carried in its field id.
#[derive(Debug, Copy, Clone, PartialEq, Eq, Structural, PartialOrd, Ord, Hash)]
pub enum TransactionField {
    ErrorText,
    Data,
    UserName,
    UserId,
    UserIconId,
    UserLogin,
    UserPassword,
    ReferenceNumber,
    TransferSize,
    ChatOptions,
    UserAccess,
    UserAlias,
    UserFlags,
    Options,
    ChatId,
    ChatSubject,
    WaitingCount,
    ServerAgreement,
    ServerBanner,
    ServerBannerType,
    ServerBannerUrl,
    NoServerAgreement,
    Version,
    CommunityBannerId,
    ServerName,
    FileNameWithInfo,
    FileName,
    FilePath,
    FileResumeData,
    FileTransferOptions,
    FileTypeString,
    FileCreatorString,
    FileSize,
    FileCreateDate,
    FileModifyDate,
    FileComment,
    FileNewName,
    FileNewPath,
    FileType,
    QuotingMessage,
    AutomaticResponse,
    FolderItemCount,
    UserNameWithInfo,
    NewsCategoryGuid,
    NewsCategoryListData,
    NewsArticleListData,
    NewsCategoryName,
    NewsCategoryListDataV1_5,
    NewsPath,
    NewsArticleId,
    NewsArticleDataFlavor,
    NewsArticleTitle,
    NewsArticlePoster,
    NewsArticleDate,
    NewsArticlePreviousArticle,
    NewsArticleNextArticle,
    NewsArticleData,
    NewsArticleFlags,
    NewsArticleParentArticle,
    NewsArticleFirstChildArticle,
    NewsArticleRecursiveDelete,
}

impl TransactionField {
    /// The number that stands for this value on the wire.
    pub open spec fn code(self) -> i16 {
        match self {
            TransactionField::ErrorText => 100,
            TransactionField::Data => 101,
            TransactionField::UserName => 102,
            TransactionField::UserId => 103,
            TransactionField::UserIconId => 104,
            TransactionField::UserLogin => 105,
            TransactionField::UserPassword => 106,
            TransactionField::ReferenceNumber => 107,
            TransactionField::TransferSize => 108,
            TransactionField::ChatOptions => 109,
            TransactionField::UserAccess => 110,
            TransactionField::UserAlias => 111,
            TransactionField::UserFlags => 112,
            TransactionField::Options => 113,
            TransactionField::ChatId => 114,
            TransactionField::ChatSubject => 115,
            TransactionField::WaitingCount => 116,
            TransactionField::ServerAgreement => 150,
            TransactionField::ServerBanner => 151,
            TransactionField::ServerBannerType => 152,
            TransactionField::ServerBannerUrl => 153,
            TransactionField::NoServerAgreement => 154,
            TransactionField::Version => 160,
            TransactionField::CommunityBannerId => 161,
            TransactionField::ServerName => 162,
            TransactionField::FileNameWithInfo => 200,
            TransactionField::FileName => 201,
            TransactionField::FilePath => 202,
            TransactionField::FileResumeData => 203,
            TransactionField::FileTransferOptions => 204,
            TransactionField::FileTypeString => 205,
            TransactionField::FileCreatorString => 206,
            TransactionField::FileSize => 207,
            TransactionField::FileCreateDate => 208,
            TransactionField::FileModifyDate => 209,
            TransactionField::FileComment => 210,
            TransactionField::FileNewName => 211,
            TransactionField::FileNewPath => 212,
            TransactionField::FileType => 213,
            TransactionField::QuotingMessage => 214,
            TransactionField::AutomaticResponse => 215,
            TransactionField::FolderItemCount => 220,
            TransactionField::UserNameWithInfo => 300,
            TransactionField::NewsCategoryGuid => 319,
            TransactionField::NewsCategoryListData => 320,
            TransactionField::NewsArticleListData => 321,
            TransactionField::NewsCategoryName => 322,
            TransactionField::NewsCategoryListDataV1_5 => 323,
            TransactionField::NewsPath => 325,
            TransactionField::NewsArticleId => 326,
            TransactionField::NewsArticleDataFlavor => 327,
            TransactionField::NewsArticleTitle => 328,
            TransactionField::NewsArticlePoster => 329,
            TransactionField::NewsArticleDate => 330,
            TransactionField::NewsArticlePreviousArticle => 331,
            TransactionField::NewsArticleNextArticle => 332,
            TransactionField::NewsArticleData => 333,
            TransactionField::NewsArticleFlags => 334,
            TransactionField::NewsArticleParentArticle => 335,
            TransactionField::NewsArticleFirstChildArticle => 336,
            TransactionField::NewsArticleRecursiveDelete => 337,
        }
    }

    /// The value that a number on the wire stands for, if any.
    pub open spec fn from_code(v: i16) -> Option<TransactionField> {
        if v == 100 {
            Some(TransactionField::ErrorText)
        } else if v == 101 {
            Some(TransactionField::Data)
        } else if v == 102 {
            Some(TransactionField::UserName)
        } else if v == 103 {
            Some(TransactionField::UserId)
        } else if v == 104 {
            Some(TransactionField::UserIconId)
        } else if v == 105 {
            Some(TransactionField::UserLogin)
        } else if v == 106 {
            Some(TransactionField::UserPassword)
        } else if v == 107 {
            Some(TransactionField::ReferenceNumber)
        } else if v == 108 {
            Some(TransactionField::TransferSize)
        } else if v == 109 {
            Some(TransactionField::ChatOptions)
        } else if v == 110 {
            Some(TransactionField::UserAccess)
        } else if v == 111 {
            Some(TransactionField::UserAlias)
        } else if v == 112 {
            Some(TransactionField::UserFlags)
        } else if v == 113 {
            Some(TransactionField::Options)
        } else if v == 114 {
            Some(TransactionField::ChatId)
        } else if v == 115 {
            Some(TransactionField::ChatSubject)
        } else if v == 116 {
            Some(TransactionField::WaitingCount)
        } else if v == 150 {
            Some(TransactionField::ServerAgreement)
        } else if v == 151 {
            Some(TransactionField::ServerBanner)
        } else if v == 152 {
            Some(TransactionField::ServerBannerType)
        } else if v == 153 {
            Some(TransactionField::ServerBannerUrl)
        } else if v == 154 {
            Some(TransactionField::NoServerAgreement)
        } else if v == 160 {
            Some(TransactionField::Version)
        } else if v == 161 {
            Some(TransactionField::CommunityBannerId)
        } else if v == 162 {
            Some(TransactionField::ServerName)
        } else if v == 200 {
            Some(TransactionField::FileNameWithInfo)
        } else if v == 201 {
            Some(TransactionField::FileName)
        } else if v == 202 {
            Some(TransactionField::FilePath)
        } else if v == 203 {
            Some(TransactionField::FileResumeData)
        } else if v == 204 {
            Some(TransactionField::FileTransferOptions)
        } else if v == 205 {
            Some(TransactionField::FileTypeString)
        } else if v == 206 {
            Some(TransactionField::FileCreatorString)
        } else if v == 207 {
            Some(TransactionField::FileSize)
        } else if v == 208 {
            Some(TransactionField::FileCreateDate)
        } else if v == 209 {
            Some(TransactionField::FileModifyDate)
        } else if v == 210 {
            Some(TransactionField::FileComment)
        } else if v == 211 {
            Some(TransactionField::FileNewName)
        } else if v == 212 {
            Some(TransactionField::FileNewPath)
        } else if v == 213 {
            Some(TransactionField::FileType)
        } else if v == 214 {
            Some(TransactionField::QuotingMessage)
        } else if v == 215 {
            Some(TransactionField::AutomaticResponse)
        } else if v == 220 {
            Some(TransactionField::FolderItemCount)
        } else if v == 300 {
            Some(TransactionField::UserNameWithInfo)
        } else if v == 319 {
            Some(TransactionField::NewsCategoryGuid)
        } else if v == 320 {
            Some(TransactionField::NewsCategoryListData)
        } else if v == 321 {
            Some(TransactionField::NewsArticleListData)
        } else if v == 322 {
            Some(TransactionField::NewsCategoryName)
        } else if v == 323 {
            Some(TransactionField::NewsCategoryListDataV1_5)
        } else if v == 325 {
            Some(TransactionField::NewsPath)
        } else if v == 326 {
            Some(TransactionField::NewsArticleId)
        } else if v == 327 {
            Some(TransactionField::NewsArticleDataFlavor)
        } else if v == 328 {
            Some(TransactionField::NewsArticleTitle)
        } else if v == 329 {
            Some(TransactionField::NewsArticlePoster)
        } else if v == 330 {
            Some(TransactionField::NewsArticleDate)
        } else if v == 331 {
            Some(TransactionField::NewsArticlePreviousArticle)
        } else if v == 332 {
            Some(TransactionField::NewsArticleNextArticle)
        } else if v == 333 {
            Some(TransactionField::NewsArticleData)
        } else if v == 334 {
            Some(TransactionField::NewsArticleFlags)
        } else if v == 335 {
            Some(TransactionField::NewsArticleParentArticle)
        } else if v == 336 {
            Some(TransactionField::NewsArticleFirstChildArticle)
        } else if v == 337 {
            Some(TransactionField::NewsArticleRecursiveDelete)
        } else {
            None
        }
    }

    pub fn to_i16(self) -> (r: i16)
        ensures
            r == self.code(),
    {
        match self {
            TransactionField::ErrorText => 100,
            TransactionField::Data => 101,
            TransactionField::UserName => 102,
            TransactionField::UserId => 103,
            TransactionField::UserIconId => 104,
            TransactionField::UserLogin => 105,
            TransactionField::UserPassword => 106,
            TransactionField::ReferenceNumber => 107,
            TransactionField::TransferSize => 108,
            TransactionField::ChatOptions => 109,
            TransactionField::UserAccess => 110,
            TransactionField::UserAlias => 111,
            TransactionField::UserFlags => 112,
            TransactionField::Options => 113,
            TransactionField::ChatId => 114,
            TransactionField::ChatSubject => 115,
            TransactionField::WaitingCount => 116,
            TransactionField::ServerAgreement => 150,
            TransactionField::ServerBanner => 151,
            TransactionField::ServerBannerType => 152,
            TransactionField::ServerBannerUrl => 153,
            TransactionField::NoServerAgreement => 154,
            TransactionField::Version => 160,
            TransactionField::CommunityBannerId => 161,
            TransactionField::ServerName => 162,
            TransactionField::FileNameWithInfo => 200,
            TransactionField::FileName => 201,
            TransactionField::FilePath => 202,
            TransactionField::FileResumeData => 203,
            TransactionField::FileTransferOptions => 204,
            TransactionField::FileTypeString => 205,
            TransactionField::FileCreatorString => 206,
            TransactionField::FileSize => 207,
            TransactionField::FileCreateDate => 208,
            TransactionField::FileModifyDate => 209,
            TransactionField::FileComment => 210,
            TransactionField::FileNewName => 211,
            TransactionField::FileNewPath => 212,
            TransactionField::FileType => 213,
            TransactionField::QuotingMessage => 214,
            TransactionField::AutomaticResponse => 215,
            TransactionField::FolderItemCount => 220,
            TransactionField::UserNameWithInfo => 300,
            TransactionField::NewsCategoryGuid => 319,
            TransactionField::NewsCategoryListData => 320,
            TransactionField::NewsArticleListData => 321,
            TransactionField::NewsCategoryName => 322,
            TransactionField::NewsCategoryListDataV1_5 => 323,
            TransactionField::NewsPath => 325,
            TransactionField::NewsArticleId => 326,
            TransactionField::NewsArticleDataFlavor => 327,
            TransactionField::NewsArticleTitle => 328,
            TransactionField::NewsArticlePoster => 329,
            TransactionField::NewsArticleDate => 330,
            TransactionField::NewsArticlePreviousArticle => 331,
            TransactionField::NewsArticleNextArticle => 332,
            TransactionField::NewsArticleData => 333,
            TransactionField::NewsArticleFlags => 334,
            TransactionField::NewsArticleParentArticle => 335,
            TransactionField::NewsArticleFirstChildArticle => 336,
            TransactionField::NewsArticleRecursiveDelete => 337,
        }
    }

    /// The value for the number `v`, or `v` itself when no value has it.
    pub fn try_from(v: i16) -> (r: Result<TransactionField, i16>)
        ensures
            r == (match TransactionField::from_code(v) {
                Some(t) => Ok::<TransactionField, i16>(t),
                None => Err(v),
            }),
    {
        if v == 100 {
            Ok(TransactionField::ErrorText)
        } else if v == 101 {
            Ok(TransactionField::Data)
        } else if v == 102 {
            Ok(TransactionField::UserName)
        } else if v == 103 {
            Ok(TransactionField::UserId)
        } else if v == 104 {
            Ok(TransactionField::UserIconId)
        } else if v == 105 {
            Ok(TransactionField::UserLogin)
        } else if v == 106 {
            Ok(TransactionField::UserPassword)
        } else if v == 107 {
            Ok(TransactionField::ReferenceNumber)
        } else if v == 108 {
            Ok(TransactionField::TransferSize)
        } else if v == 109 {
            Ok(TransactionField::ChatOptions)
        } else if v == 110 {
            Ok(TransactionField::UserAccess)
        } else if v == 111 {
            Ok(TransactionField::UserAlias)
        } else if v == 112 {
            Ok(TransactionField::UserFlags)
        } else if v == 113 {
            Ok(TransactionField::Options)
        } else if v == 114 {
            Ok(TransactionField::ChatId)
        } else if v == 115 {
            Ok(TransactionField::ChatSubject)
        } else if v == 116 {
            Ok(TransactionField::WaitingCount)
        } else if v == 150 {
            Ok(TransactionField::ServerAgreement)
        } else if v == 151 {
            Ok(TransactionField::ServerBanner)
        } else if v == 152 {
            Ok(TransactionField::ServerBannerType)
        } else if v == 153 {
            Ok(TransactionField::ServerBannerUrl)
        } else if v == 154 {
            Ok(TransactionField::NoServerAgreement)
        } else if v == 160 {
            Ok(TransactionField::Version)
        } else if v == 161 {
            Ok(TransactionField::CommunityBannerId)
        } else if v == 162 {
            Ok(TransactionField::ServerName)
        } else if v == 200 {
            Ok(TransactionField::FileNameWithInfo)
        } else if v == 201 {
            Ok(TransactionField::FileName)
        } else if v == 202 {
            Ok(TransactionField::FilePath)
        } else if v == 203 {
            Ok(TransactionField::FileResumeData)
        } else if v == 204 {
            Ok(TransactionField::FileTransferOptions)
        } else if v == 205 {
            Ok(TransactionField::FileTypeString)
        } else if v == 206 {
            Ok(TransactionField::FileCreatorString)
        } else if v == 207 {
            Ok(TransactionField::FileSize)
        } else if v == 208 {
            Ok(TransactionField::FileCreateDate)
        } else if v == 209 {
            Ok(TransactionField::FileModifyDate)
        } else if v == 210 {
            Ok(TransactionField::FileComment)
        } else if v == 211 {
            Ok(TransactionField::FileNewName)
        } else if v == 212 {
            Ok(TransactionField::FileNewPath)
        } else if v == 213 {
            Ok(TransactionField::FileType)
        } else if v == 214 {
            Ok(TransactionField::QuotingMessage)
        } else if v == 215 {
            Ok(TransactionField::AutomaticResponse)
        } else if v == 220 {
            Ok(TransactionField::FolderItemCount)
        } else if v == 300 {
            Ok(TransactionField::UserNameWithInfo)
        } else if v == 319 {
            Ok(TransactionField::NewsCategoryGuid)
        } else if v == 320 {
            Ok(TransactionField::NewsCategoryListData)
        } else if v == 321 {
            Ok(TransactionField::NewsArticleListData)
        } else if v == 322 {
            Ok(TransactionField::NewsCategoryName)
        } else if v == 323 {
            Ok(TransactionField::NewsCategoryListDataV1_5)
        } else if v == 325 {
            Ok(TransactionField::NewsPath)
        } else if v == 326 {
            Ok(TransactionField::NewsArticleId)
        } else if v == 327 {
            Ok(TransactionField::NewsArticleDataFlavor)
        } else if v == 328 {
            Ok(TransactionField::NewsArticleTitle)
        } else if v == 329 {
            Ok(TransactionField::NewsArticlePoster)
        } else if v == 330 {
            Ok(TransactionField::NewsArticleDate)
        } else if v == 331 {
            Ok(TransactionField::NewsArticlePreviousArticle)
        } else if v == 332 {
            Ok(TransactionField::NewsArticleNextArticle)
        } else if v == 333 {
            Ok(TransactionField::NewsArticleData)
        } else if v == 334 {
            Ok(TransactionField::NewsArticleFlags)
        } else if v == 335 {
            Ok(TransactionField::NewsArticleParentArticle)
        } else if v == 336 {
            Ok(TransactionField::NewsArticleFirstChildArticle)
        } else if v == 337 {
            Ok(TransactionField::NewsArticleRecursiveDelete)
        } else {
            Err(v)
        }
    }

    /// Every value is found again from its number.
    pub proof fn lemma_code_roundtrip(self)
        ensures
            TransactionField::from_code(self.code()) == Some(self),
    {
    }

    /// A number is only ever found to stand for a value that has that number.
    pub proof fn lemma_from_code_sound(v: i16)
        ensures
            TransactionField::from_code(v) matches Some(t) ==> t.code() == v,
    {
    }
}

} // verus!
