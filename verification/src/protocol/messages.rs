//! Typed transactions: what each kind of transaction carries, read from and
//! written to frames.

use vstd::prelude::*;

use super::codec::i16_bytes;
use super::date::date_bytes;
use super::parameters::{
    parse_path, path_bytes, Creator, FileComment, FileCreatedAt, FileCreatorString,
    FileModifiedAt, FileName, FilePath, FilePathView, FileSize, FileType, FileTypeString,
    ChatId, ChatOptions, ChatSubject, IconId, Nickname, Password, ReferenceNumber, TransferSize,
    UserAccess, UserFlags, UserId, WaitingCount,
    UserLogin, UserNameWithInfo, UserNameWithInfoView, i16_data, i32_data, i64_data,
    user_info_bytes, parse_user_info,
};
use super::transaction::{
    body_of, field_of, fields_of, first_of, frame_of, header_of_type, int_bytes, param, params_view,
    spec_require_type, FieldId, IntParameter, IsReply, Parameter, ParameterView,
    TransactionBody, TransactionBodyView, TransactionFrame, TransactionFrameView,
    TransactionHeader, Type,
};
use super::transaction_field::TransactionField;
use super::transaction_type::TransactionType;
use super::ProtocolError;

verus! {

/// The data of the first parameter of a field, if there is one.
pub open spec fn opt_bytes(ps: Seq<ParameterView>, f: TransactionField) -> Option<Seq<u8>> {
    match field_of(ps, f) {
        Some(p) => Some(p.field_data),
        None => None,
    }
}

/// The data of the first parameter of a field, which must be there.
pub open spec fn req_bytes(ps: Seq<ParameterView>, f: TransactionField) -> Result<Seq<u8>, ProtocolError> {
    match field_of(ps, f) {
        Some(p) => Ok(p.field_data),
        None => Err(ProtocolError::MissingField(f)),
    }
}

/// A two-byte integer parameter of the field `f`.
pub open spec fn int16_of(p: ParameterView, f: TransactionField) -> Result<i16, ProtocolError> {
    match i16_data(p.field_data) {
        Some(v) => Ok(v),
        None => Err(ProtocolError::MalformedData(f)),
    }
}

/// A four-byte integer parameter of the field `f`.
pub open spec fn int32_of(p: ParameterView, f: TransactionField) -> Result<i32, ProtocolError> {
    match i32_data(p.field_data) {
        Some(v) => Ok(v),
        None => Err(ProtocolError::MalformedData(f)),
    }
}

/// An eight-byte integer parameter of the field `f`.
pub open spec fn int64_of(p: ParameterView, f: TransactionField) -> Result<i64, ProtocolError> {
    match i64_data(p.field_data) {
        Some(v) => Ok(v),
        None => Err(ProtocolError::MalformedData(f)),
    }
}

pub open spec fn req_i16(ps: Seq<ParameterView>, f: TransactionField) -> Result<i16, ProtocolError> {
    match field_of(ps, f) {
        Some(p) => int16_of(p, f),
        None => Err(ProtocolError::MissingField(f)),
    }
}

pub open spec fn opt_i16(ps: Seq<ParameterView>, f: TransactionField) -> Result<Option<i16>, ProtocolError> {
    match field_of(ps, f) {
        Some(p) => match int16_of(p, f) {
            Ok(v) => Ok(Some(v)),
            Err(e) => Err(e),
        },
        None => Ok(None),
    }
}

pub open spec fn req_i32(ps: Seq<ParameterView>, f: TransactionField) -> Result<i32, ProtocolError> {
    match field_of(ps, f) {
        Some(p) => int32_of(p, f),
        None => Err(ProtocolError::MissingField(f)),
    }
}

pub open spec fn opt_i32(ps: Seq<ParameterView>, f: TransactionField) -> Result<Option<i32>, ProtocolError> {
    match field_of(ps, f) {
        Some(p) => match int32_of(p, f) {
            Ok(v) => Ok(Some(v)),
            Err(e) => Err(e),
        },
        None => Ok(None),
    }
}

pub open spec fn req_i64(ps: Seq<ParameterView>, f: TransactionField) -> Result<i64, ProtocolError> {
    match field_of(ps, f) {
        Some(p) => int64_of(p, f),
        None => Err(ProtocolError::MissingField(f)),
    }
}

/// The parameters that an optional parameter contributes.
pub open spec fn opt_param(o: Option<ParameterView>) -> Seq<ParameterView> {
    match o {
        Some(p) => seq![p],
        None => Seq::empty(),
    }
}

/// A byte-string parameter of the field `f`.
pub open spec fn bytes_param(f: TransactionField, d: Seq<u8>) -> ParameterView {
    param(f.code(), d)
}

/// A two-byte integer parameter of the field `f`.
pub open spec fn i16_param(f: TransactionField, v: i16) -> ParameterView {
    param(f.code(), i16_bytes(v))
}

/// A four-byte integer parameter of the field `f`.
pub open spec fn i32_param(f: TransactionField, v: i32) -> ParameterView {
    param(f.code(), super::codec::i32_bytes(v))
}

/// An eight-byte integer parameter of the field `f`.
pub open spec fn i64_param(f: TransactionField, v: i64) -> ParameterView {
    param(f.code(), super::codec::i64_bytes(v))
}

/// The views of optional values.
pub open spec fn opt_view<T: View>(o: Option<T>) -> Option<T::V> {
    match o {
        Some(v) => Some(v@),
        None => None,
    }
}

/// The header of a transaction of type `t` that answers a request.
pub open spec fn reply_header_of(t: TransactionType) -> TransactionHeader {
    TransactionHeader { is_reply: IsReply(1), ..header_of_type(t) }
}

/// A login request.
#[derive(Debug, PartialEq, Eq)]
pub struct LoginRequest {
    pub login: Option<UserLogin>,
    pub nickname: Option<Nickname>,
    pub password: Option<Password>,
    pub icon_id: Option<IconId>,
}

pub struct LoginRequestView {
    pub login: Option<Seq<u8>>,
    pub nickname: Option<Seq<u8>>,
    pub password: Option<Seq<u8>>,
    pub icon_id: Option<i16>,
}

impl View for LoginRequest {
    type V = LoginRequestView;

    open spec fn view(&self) -> LoginRequestView {
        LoginRequestView {
            login: opt_view(self.login),
            nickname: opt_view(self.nickname),
            password: opt_view(self.password),
            icon_id: match self.icon_id {
                Some(i) => Some(i.0),
                None => None,
            },
        }
    }
}

pub open spec fn spec_login_request(f: TransactionFrameView) -> Result<LoginRequestView, ProtocolError> {
    let ps = f.body.parameters;
    match spec_require_type(f.header, TransactionType::Login) {
        Err(e) => Err(e),
        Ok(_) => match opt_i16(ps, TransactionField::UserIconId) {
            Err(e) => Err(e),
            Ok(icon_id) => Ok(
                LoginRequestView {
                    login: opt_bytes(ps, TransactionField::UserLogin),
                    nickname: opt_bytes(ps, TransactionField::UserName),
                    password: opt_bytes(ps, TransactionField::UserPassword),
                    icon_id,
                },
            ),
        },
    }
}

pub open spec fn login_request_params(v: LoginRequestView) -> Seq<ParameterView> {
    opt_param(
        match v.login {
            Some(d) => Some(bytes_param(TransactionField::UserLogin, d)),
            None => None,
        },
    ) + opt_param(
        match v.nickname {
            Some(d) => Some(bytes_param(TransactionField::UserName, d)),
            None => None,
        },
    ) + opt_param(
        match v.password {
            Some(d) => Some(bytes_param(TransactionField::UserPassword, d)),
            None => None,
        },
    ) + opt_param(
        match v.icon_id {
            Some(i) => Some(i16_param(TransactionField::UserIconId, i)),
            None => None,
        },
    )
}

/// Appends the parameter when there is one.
fn push_opt(out: &mut Vec<Parameter>, p: Option<Parameter>)
    ensures
        params_view(final(out)@) == params_view(old(out)@) + opt_param(opt_view(p)),
{
    match p {
        Some(p) => {
            out.push(p);
            assert(params_view(out@) =~= params_view(old(out)@) + opt_param(opt_view(Some(p))));
        },
        None => {
            assert(params_view(out@) =~= params_view(old(out)@) + opt_param(None));
        },
    }
}

impl LoginRequest {
    /// The error a frame is refused with, if it is refused.
    pub open spec fn rejects(frame: TransactionFrame) -> Option<ProtocolError> {
        match spec_login_request(frame@) {
            Ok(_) => None,
            Err(e) => Some(e),
        }
    }

    /// Whether `v` is what an accepted frame is read as.
    pub open spec fn accepts(frame: TransactionFrame, v: Self) -> bool {
        match spec_login_request(frame@) {
            Ok(w) => v@ == w,
            Err(_) => false,
        }
    }

    pub fn try_from(frame: TransactionFrame) -> (r: Result<Self, ProtocolError>)
        ensures
            match Self::rejects(frame) {
                Some(e) => r matches Err(e2) && e2 == e,
                None => r matches Ok(v) && Self::accepts(frame, v),
            },
    {
        let frame = frame.require_transaction_type(TransactionType::Login)?;
        let body = &frame.body;
        let login = match body.borrow_field(TransactionField::UserLogin) {
            Some(p) => Some(UserLogin::try_from(p)?),
            None => None,
        };
        let nickname = match body.borrow_field(TransactionField::UserName) {
            Some(p) => Some(Nickname::try_from(p)?),
            None => None,
        };
        let password = match body.borrow_field(TransactionField::UserPassword) {
            Some(p) => Some(Password::try_from(p)?),
            None => None,
        };
        let icon_id = match body.borrow_field(TransactionField::UserIconId) {
            Some(p) => Some(IconId::try_from(p)?),
            None => None,
        };
        Ok(Self { login, nickname, password, icon_id })
    }

    /// The body carrying the fields that are there.
    pub fn into_body(self) -> (r: TransactionBody)
        ensures
            r@ == body_of(login_request_params(self@)),
    {
        let ghost v = self@;
        let LoginRequest { login, nickname, password, icon_id } = self;
        let mut parameters: Vec<Parameter> = Vec::new();
        push_opt(&mut parameters, match login {
            Some(l) => Some(l.into_parameter()),
            None => None,
        });
        push_opt(&mut parameters, match nickname {
            Some(n) => Some(n.into_parameter()),
            None => None,
        });
        push_opt(&mut parameters, match password {
            Some(p) => Some(p.into_parameter()),
            None => None,
        });
        push_opt(&mut parameters, match icon_id {
            Some(i) => Some(i.into_parameter()),
            None => None,
        });
        assert(params_view(parameters@) =~= login_request_params(v));
        TransactionBody::from_parameters(parameters)
    }
}

/// The first parameter of an id in two lists one after the other: the first
/// list's, when it has one, else the second's.
pub proof fn lemma_first_of_concat(a: Seq<ParameterView>, b: Seq<ParameterView>, id: i16)
    ensures
        first_of(a + b, id) == (match first_of(a, id) {
            Some(p) => Some(p),
            None => first_of(b, id),
        }),
    decreases a.len(),
{
    if a.len() > 0 {
        assert((a + b).drop_first() =~= a.drop_first() + b);
        lemma_first_of_concat(a.drop_first(), b, id);
    } else {
        assert(a + b =~= b);
    }
}

/// The first parameter of an id in a list of at most one parameter.
proof fn lemma_first_of_opt(o: Option<ParameterView>, id: i16)
    ensures
        first_of(opt_param(o), id) == (match o {
            Some(p) => if p.field_id == id {
                Some(p)
            } else {
                None
            },
            None => None,
        }),
{
    if o is Some {
        assert(opt_param(o).drop_first() =~= Seq::<ParameterView>::empty());
        assert(first_of(Seq::<ParameterView>::empty(), id) is None);
    }
}

/// A login request written as the body of a login frame reads back as the
/// same request.
pub proof fn law_login_request_roundtrip(v: LoginRequestView, header: TransactionHeader)
    requires
        spec_require_type(header, TransactionType::Login) is Ok,
    ensures
        spec_login_request(TransactionFrameView { header, body: body_of(login_request_params(v)) }) == Ok::<
            LoginRequestView,
            ProtocolError,
        >(v),
{
    let ol = match v.login {
        Some(d) => Some(bytes_param(TransactionField::UserLogin, d)),
        None => None,
    };
    let on = match v.nickname {
        Some(d) => Some(bytes_param(TransactionField::UserName, d)),
        None => None,
    };
    let op = match v.password {
        Some(d) => Some(bytes_param(TransactionField::UserPassword, d)),
        None => None,
    };
    let oi = match v.icon_id {
        Some(i) => Some(i16_param(TransactionField::UserIconId, i)),
        None => None,
    };
    let (pl, pn, pp, pi) = (opt_param(ol), opt_param(on), opt_param(op), opt_param(oi));
    let ps = login_request_params(v);
    assert(ps == pl + pn + pp + pi);
    assert forall|id: i16| #[trigger] first_of(ps, id) == (match first_of(pl, id) {
        Some(p) => Some(p),
        None => match first_of(pn, id) {
            Some(p) => Some(p),
            None => match first_of(pp, id) {
                Some(p) => Some(p),
                None => first_of(pi, id),
            },
        },
    }) by {
        lemma_first_of_concat(pl + pn + pp, pi, id);
        lemma_first_of_concat(pl + pn, pp, id);
        lemma_first_of_concat(pl, pn, id);
    }
    lemma_first_of_opt(ol, 105);
    lemma_first_of_opt(on, 105);
    lemma_first_of_opt(op, 105);
    lemma_first_of_opt(oi, 105);
    lemma_first_of_opt(ol, 102);
    lemma_first_of_opt(on, 102);
    lemma_first_of_opt(op, 102);
    lemma_first_of_opt(oi, 102);
    lemma_first_of_opt(ol, 106);
    lemma_first_of_opt(on, 106);
    lemma_first_of_opt(op, 106);
    lemma_first_of_opt(oi, 106);
    lemma_first_of_opt(ol, 104);
    lemma_first_of_opt(on, 104);
    lemma_first_of_opt(op, 104);
    lemma_first_of_opt(oi, 104);
    if v.icon_id is Some {
        super::codec::lemma_i16_roundtrip(v.icon_id->0, Seq::empty());
        assert(i16_bytes(v.icon_id->0) + Seq::<u8>::empty() =~= i16_bytes(v.icon_id->0));
    }
}

/// The protocol version a server answers a login with.
#[derive(Debug, Clone, Copy, PartialEq, Eq, Structural, PartialOrd, Ord)]
pub struct ProtocolVersion(pub i16);

impl ProtocolVersion {
    pub fn into_parameter(self) -> (r: Parameter)
        ensures
            r@ == param(TransactionField::Version.code(), int_bytes(self.0 as i64)),
    {
        Parameter::new_int(FieldId::from_field(TransactionField::Version), IntParameter(self.0 as i64))
    }
}

/// The answer to a login.
#[derive(Debug, Clone, Copy, PartialEq, Eq, Structural, PartialOrd, Ord)]
pub struct LoginReply(pub ProtocolVersion);

impl LoginReply {
    pub fn new(version: i16) -> (r: Self)
        ensures
            r.0.0 == version,
    {
        Self(ProtocolVersion(version))
    }

    /// The frame this is written as.
    pub open spec fn frame_view(self) -> TransactionFrameView {
        frame_of(
            TransactionType::Login,
            seq![param(TransactionField::Version.code(), int_bytes(self.0.0 as i64))],
        )
    }

    pub fn framed(self) -> (r: TransactionFrame)
        ensures
            r@ == self.frame_view(),
    {
        let p = self.0.into_parameter();
        let v = vec![p];
        assert(params_view(v@) =~= seq![p@]);
        TransactionFrame::with_parameters(TransactionType::Login, v)
    }
}

impl Default for LoginReply {
    fn default() -> (r: Self)
        ensures
            r.0.0 == 123,
    {
        Self::new(123)
    }
}

/// The terms a server shows before letting a user in.
#[derive(Debug)]
pub struct ServerAgreement(pub Vec<u8>);

impl View for ServerAgreement {
    type V = Seq<u8>;

    open spec fn view(&self) -> Seq<u8> {
        self.0@
    }
}

impl ServerAgreement {
    /// The agreement goes out as data.
    pub fn into_parameter(self) -> (r: Parameter)
        ensures
            r@ == bytes_param(TransactionField::Data, self@),
    {
        Parameter::new_data(self.0)
    }

    pub fn try_from(parameter: &Parameter) -> (r: Result<Self, ProtocolError>)
        ensures
            match super::parameters::spec_take_if_matches(
                parameter@,
                TransactionField::ServerAgreement,
            ) {
                Ok(d) => r matches Ok(v) && v@ == d,
                Err(e) => r matches Err(e2) && e2 == e,
            },
    {
        let data = super::parameters::take_if_matches(
            parameter.duplicate(),
            TransactionField::ServerAgreement,
        )?;
        Ok(Self(data))
    }
}

/// A banner a server shows: where to fetch it, or its data.
#[derive(Debug)]
pub enum ServerBanner {
    URL(Vec<u8>),
    Data(Vec<u8>),
}

pub enum ServerBannerView {
    URL(Seq<u8>),
    Data(Seq<u8>),
}

impl View for ServerBanner {
    type V = ServerBannerView;

    open spec fn view(&self) -> ServerBannerView {
        match self {
            ServerBanner::URL(d) => ServerBannerView::URL(d@),
            ServerBanner::Data(d) => ServerBannerView::Data(d@),
        }
    }
}

/// How a banner is given.
#[derive(Debug, Clone, Copy, PartialEq, Eq, Structural)]
pub enum ServerBannerType {
    Url,
    Data,
}

impl ServerBannerType {
    pub fn try_from(parameter: &Parameter) -> (r: Result<Self, ProtocolError>)
        ensures
            r == (if parameter.field_data@ == seq![1u8] {
                Ok::<Self, ProtocolError>(ServerBannerType::Url)
            } else if parameter.field_data@ == seq![0u8] {
                Ok(ServerBannerType::Data)
            } else {
                Err(ProtocolError::MalformedData(TransactionField::ServerBannerType))
            }),
    {
        let d = &parameter.field_data;
        if d.len() == 1 && d[0] == 1 {
            assert(d@ =~= seq![1u8]);
            Ok(ServerBannerType::Url)
        } else if d.len() == 1 && d[0] == 0 {
            assert(d@ =~= seq![0u8]);
            Ok(ServerBannerType::Data)
        } else {
            assert(d@ != seq![1u8] && d@ != seq![0u8]) by {
                if d@.len() == 1 {
                    assert(d@[0] == seq![1u8][0] || d@ != seq![1u8]);
                }
            }
            Err(ProtocolError::MalformedData(TransactionField::ServerBannerType))
        }
    }
}

/// The agreement and banner a server shows a new user.
#[derive(Debug)]
pub struct ShowAgreement {
    pub agreement: Option<ServerAgreement>,
    pub banner: Option<ServerBanner>,
}

pub struct ShowAgreementView {
    pub agreement: Option<Seq<u8>>,
    pub banner: Option<ServerBannerView>,
}

impl View for ShowAgreement {
    type V = ShowAgreementView;

    open spec fn view(&self) -> ShowAgreementView {
        ShowAgreementView { agreement: opt_view(self.agreement), banner: opt_view(self.banner) }
    }
}

impl Default for ShowAgreement {
    fn default() -> (r: Self)
        ensures
            r.agreement is None,
            r.banner is None,
    {
        Self { agreement: None, banner: None }
    }
}

impl ShowAgreement {
    /// The agreement of a body, unless the body says there is none; no banner
    /// is read.
    pub fn try_from(body: TransactionBody) -> (r: Result<Self, ProtocolError>)
        ensures
            r matches Ok(v) && v@ == (ShowAgreementView {
                agreement: if field_of(body@.parameters, TransactionField::NoServerAgreement) is Some {
                    None
                } else {
                    opt_bytes(body@.parameters, TransactionField::ServerAgreement)
                },
                banner: None,
            }),
    {
        let agreement = match body.borrow_field(TransactionField::ServerAgreement) {
            Some(p) => Some(ServerAgreement::try_from(p)?),
            None => None,
        };
        let no_agreement = body.borrow_field(TransactionField::NoServerAgreement).is_some();
        let agreement = if no_agreement {
            None
        } else {
            agreement
        };
        let banner = None;
        Ok(Self { agreement, banner })
    }

    /// The agreement as data, or the mark that there is none.
    pub fn into_body(self) -> (r: TransactionBody)
        ensures
            r@ == body_of(
                seq![
                    match self@.agreement {
                        Some(a) => bytes_param(TransactionField::Data, a),
                        None => param(TransactionField::NoServerAgreement.code(), int_bytes(1)),
                    },
                ],
            ),
    {
        let parameter = if let Some(agreement) = self.agreement {
            agreement.into_parameter()
        } else {
            Parameter::new_int(
                FieldId::from_field(TransactionField::NoServerAgreement),
                IntParameter(1),
            )
        };
        let ghost pv = parameter@;
        let v = vec![parameter];
        assert(params_view(v@) =~= seq![pv]);
        TransactionBody::from_parameters(v)
    }
}

/// A user setting their name and icon.
#[derive(Debug)]
pub struct SetClientUserInfo {
    pub username: Nickname,
    pub icon_id: IconId,
}

impl SetClientUserInfo {
    /// The error a frame is refused with, if it is refused.
    pub open spec fn rejects(frame: TransactionFrame) -> Option<ProtocolError> {
        match spec_require_type(frame.header, TransactionType::SetClientUserInfo) {
            Err(e) => Some(e),
            Ok(_) => match req_bytes(frame@.body.parameters, TransactionField::UserName) {
                Err(e) => Some(e),
                Ok(name) => match req_i16(frame@.body.parameters, TransactionField::UserIconId) {
                    Err(e) => Some(e),
                    Ok(_) => None,
                },
            },
        }
    }

    /// Whether `v` is what an accepted frame is read as.
    pub open spec fn accepts(frame: TransactionFrame, v: Self) -> bool {
        match spec_require_type(frame.header, TransactionType::SetClientUserInfo) {
            Err(_) => false,
            Ok(_) => match req_bytes(frame@.body.parameters, TransactionField::UserName) {
                Err(_) => false,
                Ok(name) => match req_i16(frame@.body.parameters, TransactionField::UserIconId) {
                    Err(_) => false,
                    Ok(icon) => v.username@ == name && v.icon_id.0 == icon,
                },
            },
        }
    }

    pub fn try_from(frame: TransactionFrame) -> (r: Result<Self, ProtocolError>)
        ensures
            match Self::rejects(frame) {
                Some(e) => r matches Err(e2) && e2 == e,
                None => r matches Ok(v) && Self::accepts(frame, v),
            },
    {
        let frame = frame.require_transaction_type(TransactionType::SetClientUserInfo)?;
        let body = &frame.body;
        let username = Nickname::try_from(body.require_field(TransactionField::UserName)?)?;
        let icon_id = IconId::try_from(body.require_field(TransactionField::UserIconId)?)?;
        Ok(Self { username, icon_id })
    }
}

/// Tells a client that a user came or changed.
#[derive(Debug)]
pub struct NotifyUserChange {
    pub user_id: UserId,
    pub user_flags: UserFlags,
    pub username: Nickname,
    pub icon_id: IconId,
}

impl NotifyUserChange {
    /// The frame this is written as.
    pub open spec fn frame_view(self) -> TransactionFrameView {
        frame_of(
            TransactionType::NotifyUserChange,
            seq![
                i16_param(TransactionField::UserId, self.user_id.0),
                i16_param(TransactionField::UserIconId, self.icon_id.0),
                i16_param(TransactionField::UserFlags, self.user_flags.0),
                bytes_param(TransactionField::UserName, self.username@),
            ],
        )
    }

    pub fn framed(self) -> (r: TransactionFrame)
        ensures
            r@ == self.frame_view(),
    {
        let NotifyUserChange { user_id, username, icon_id, user_flags } = self;
        let v = vec![
            user_id.into_parameter(),
            icon_id.into_parameter(),
            user_flags.into_parameter(),
            username.into_parameter(),
        ];
        assert(params_view(v@) =~= seq![v@[0]@, v@[1]@, v@[2]@, v@[3]@]);
        TransactionFrame::with_parameters(TransactionType::NotifyUserChange, v)
    }

    pub fn from_user(user: &UserNameWithInfo) -> (r: Self)
        ensures
            r.user_id == user.user_id,
            r.icon_id == user.icon_id,
            r.user_flags == user.user_flags,
            r.username@ == user.username@,
    {
        Self {
            icon_id: user.icon_id,
            user_flags: user.user_flags,
            user_id: user.user_id,
            username: user.username.duplicate(),
        }
    }
}

/// Tells a client that a user left.
#[derive(Debug, Clone, Copy, PartialEq, Eq, Structural)]
pub struct NotifyUserDelete {
    pub user_id: UserId,
}

impl NotifyUserDelete {
    /// The frame this is written as.
    pub open spec fn frame_view(self) -> TransactionFrameView {
        frame_of(
            TransactionType::NotifyUserDelete,
            seq![i16_param(TransactionField::UserId, self.user_id.0)],
        )
    }

    pub fn framed(self) -> (r: TransactionFrame)
        ensures
            r@ == self.frame_view(),
    {
        let v = vec![self.user_id.into_parameter()];
        assert(params_view(v@) =~= seq![v@[0]@]);
        TransactionFrame::with_parameters(TransactionType::NotifyUserDelete, v)
    }

    pub fn from_user_id(user_id: UserId) -> (r: Self)
        ensures
            r.user_id == user_id,
    {
        Self { user_id }
    }

    pub fn from_user(user: &UserNameWithInfo) -> (r: Self)
        ensures
            r.user_id == user.user_id,
    {
        Self::from_user_id(user.user_id)
    }
}

/// Tells a client that a user came into a chat room or changed there.
#[derive(Debug)]
pub struct NotifyChatUserChange {
    pub chat_id: ChatId,
    pub user_id: UserId,
    pub icon_id: IconId,
    pub user_flags: UserFlags,
    pub user_name: Nickname,
}

/// Tells a client that a user left a chat room.
#[derive(Debug)]
pub struct NotifyChatUserDelete {
    pub chat_id: ChatId,
    pub user_id: UserId,
    pub icon_id: IconId,
    pub user_flags: UserFlags,
    pub user_name: Nickname,
}

/// The parameters of a chat room presence notification.
pub open spec fn chat_user_params(chat_id: i16, user_id: i16, icon_id: i16, flags: i16, name: Seq<u8>) -> Seq<ParameterView> {
    seq![
        i16_param(TransactionField::ChatId, chat_id),
        i16_param(TransactionField::UserId, user_id),
        i16_param(TransactionField::UserIconId, icon_id),
        i16_param(TransactionField::UserFlags, flags),
        bytes_param(TransactionField::UserName, name),
    ]
}

/// The frame of type `t` telling of a user in a chat room.
pub open spec fn frame_view_of_chat_user(t: TransactionType, chat_id: i16, u: UserNameWithInfoView) -> TransactionFrameView {
    frame_of(t, chat_user_params(chat_id, u.user_id, u.icon_id, u.user_flags, u.username))
}

fn chat_user_parameters(
    chat_id: ChatId,
    user_id: UserId,
    icon_id: IconId,
    user_flags: UserFlags,
    user_name: Nickname,
) -> (r: Vec<Parameter>)
    ensures
        params_view(r@) == chat_user_params(chat_id.0, user_id.0, icon_id.0, user_flags.0, user_name@),
{
    let v = vec![
        chat_id.into_parameter(),
        user_id.into_parameter(),
        icon_id.into_parameter(),
        user_flags.into_parameter(),
        user_name.into_parameter(),
    ];
    assert(params_view(v@) =~= seq![v@[0]@, v@[1]@, v@[2]@, v@[3]@, v@[4]@]);
    v
}

impl NotifyChatUserChange {
    /// The frame this is written as.
    pub open spec fn frame_view(self) -> TransactionFrameView {
        frame_of(
            TransactionType::NotifyChatUserChange,
            chat_user_params(self.chat_id.0, self.user_id.0, self.icon_id.0, self.user_flags.0, self.user_name@),
        )
    }

    pub fn framed(self) -> (r: TransactionFrame)
        ensures
            r@ == self.frame_view(),
    {
        let NotifyChatUserChange { chat_id, user_id, icon_id, user_flags, user_name } = self;
        let v = chat_user_parameters(chat_id, user_id, icon_id, user_flags, user_name);
        TransactionFrame::with_parameters(TransactionType::NotifyChatUserChange, v)
    }

    pub fn from_user(chat_id: ChatId, user: &UserNameWithInfo) -> (r: Self)
        ensures
            r.chat_id == chat_id,
            r.user_id == user.user_id,
            r.icon_id == user.icon_id,
            r.user_flags == user.user_flags,
            r.user_name@ == user.username@,
    {
        Self {
            chat_id,
            user_id: user.user_id,
            icon_id: user.icon_id,
            user_flags: user.user_flags,
            user_name: user.username.duplicate(),
        }
    }
}

impl NotifyChatUserDelete {
    /// The frame this is written as.
    pub open spec fn frame_view(self) -> TransactionFrameView {
        frame_of(
            TransactionType::NotifyChatUserDelete,
            chat_user_params(self.chat_id.0, self.user_id.0, self.icon_id.0, self.user_flags.0, self.user_name@),
        )
    }

    pub fn framed(self) -> (r: TransactionFrame)
        ensures
            r@ == self.frame_view(),
    {
        let NotifyChatUserDelete { chat_id, user_id, icon_id, user_flags, user_name } = self;
        let v = chat_user_parameters(chat_id, user_id, icon_id, user_flags, user_name);
        TransactionFrame::with_parameters(TransactionType::NotifyChatUserDelete, v)
    }

    pub fn from_user(chat_id: ChatId, user: &UserNameWithInfo) -> (r: Self)
        ensures
            r.chat_id == chat_id,
            r.user_id == user.user_id,
            r.icon_id == user.icon_id,
            r.user_flags == user.user_flags,
            r.user_name@ == user.username@,
    {
        Self {
            chat_id,
            user_id: user.user_id,
            icon_id: user.icon_id,
            user_flags: user.user_flags,
            user_name: user.username.duplicate(),
        }
    }
}

/// Tells a client the subject of a chat room.
#[derive(Debug)]
pub struct NotifyChatSubject {
    pub chat_id: ChatId,
    pub subject: ChatSubject,
}

impl NotifyChatSubject {
    /// The frame this is written as.
    pub open spec fn frame_view(self) -> TransactionFrameView {
        frame_of(
            TransactionType::NotifyChatSubject,
            seq![
                i16_param(TransactionField::ChatId, self.chat_id.0),
                bytes_param(TransactionField::ChatSubject, self.subject@),
            ],
        )
    }

    pub fn framed(self) -> (r: TransactionFrame)
        ensures
            r@ == self.frame_view(),
    {
        let NotifyChatSubject { chat_id, subject } = self;
        let v = vec![chat_id.into_parameter(), subject.into_parameter()];
        assert(params_view(v@) =~= seq![v@[0]@, v@[1]@]);
        TransactionFrame::with_parameters(TransactionType::NotifyChatSubject, v)
    }

    /// Reads the chat and subject, whatever the frame's type.
    pub fn try_from(frame: TransactionFrame) -> (r: Result<Self, ProtocolError>)
        ensures
            match req_i16(frame@.body.parameters, TransactionField::ChatId) {
                Err(e) => r matches Err(e2) && e2 == e,
                Ok(chat) => match req_bytes(frame@.body.parameters, TransactionField::ChatSubject) {
                    Err(e) => r matches Err(e2) && e2 == e,
                    Ok(subject) => r matches Ok(v) && v.chat_id.0 == chat && v.subject@ == subject,
                },
            },
    {
        let body = &frame.body;
        let chat_id = ChatId::try_from(body.require_field(TransactionField::ChatId)?)?;
        let subject = ChatSubject::try_from(body.require_field(TransactionField::ChatSubject)?)?;
        Ok(Self { chat_id, subject })
    }
}

/// A request for the list of connected users.
#[derive(Debug, PartialEq, Eq, Structural)]
pub struct GetUserNameList;

impl GetUserNameList {
    pub fn try_from(frame: TransactionFrame) -> (r: Result<Self, ProtocolError>)
        ensures
            r == (match spec_require_type(frame.header, TransactionType::GetUserNameList) {
                Ok(_) => Ok::<Self, ProtocolError>(GetUserNameList),
                Err(e) => Err(e),
            }),
    {
        frame.require_transaction_type(TransactionType::GetUserNameList)?;
        Ok(Self)
    }

    pub fn into_body(self) -> (r: TransactionBody)
        ensures
            r@ == body_of(Seq::empty()),
    {
        TransactionBody::empty()
    }
}

/// The parameters listing users.
pub open spec fn users_params(us: Seq<UserNameWithInfoView>) -> Seq<ParameterView> {
    us.map_values(
        |u: UserNameWithInfoView| param(TransactionField::UserNameWithInfo.code(), user_info_bytes(u)),
    )
}

/// The views of a list of users.
pub open spec fn users_view(us: Seq<UserNameWithInfo>) -> Seq<UserNameWithInfoView> {
    us.map_values(|u: UserNameWithInfo| u@)
}

/// The parameters listing these users.
pub fn users_parameters(users: Vec<UserNameWithInfo>) -> (r: Vec<Parameter>)
    ensures
        params_view(r@) == users_params(users_view(users@)),
{
    let ghost us = users_view(users@);
    let mut out: Vec<Parameter> = Vec::new();
    let mut i: usize = 0;
    while i < users.len()
        invariant
            us == users_view(users@),
            0 <= i <= users@.len(),
            params_view(out@) == users_params(us.take(i as int)),
        decreases users@.len() - i,
    {
        let p = users[i].duplicate().into_parameter();
        let ghost before = out@;
        out.push(p);
        proof {
            assert(params_view(out@) =~= params_view(before).push(p@));
            assert(us.take(i + 1) =~= us.take(i as int).push(us[i as int]));
            assert(users_params(us.take(i + 1)) =~= users_params(us.take(i as int)).push(p@));
        }
        i = i + 1;
    }
    assert(us.take(users@.len() as int) =~= us);
    out
}

/// The list of connected users.
#[derive(Debug)]
pub struct GetUserNameListReply(pub Vec<UserNameWithInfo>);

impl GetUserNameListReply {
    pub fn empty() -> (r: Self)
        ensures
            r.0@.len() == 0,
    {
        Self(Vec::new())
    }

    pub fn single(user: UserNameWithInfo) -> (r: Self)
        ensures
            users_view(r.0@) == seq![user@],
    {
        let r = Self::with_users(vec![user]);
        assert(users_view(r.0@) =~= seq![user@]);
        r
    }

    pub fn with_users(users: Vec<UserNameWithInfo>) -> (r: Self)
        ensures
            r.0@ == users@,
    {
        Self(users)
    }

    /// The frame this is written as.
    pub open spec fn frame_view(self) -> TransactionFrameView {
        (TransactionFrameView {
            header: reply_header_of(TransactionType::GetUserNameList),
            body: body_of(users_params(users_view(self.0@))),
        })
    }

    pub fn framed(self) -> (r: TransactionFrame)
        ensures
            r@ == self.frame_view(),
    {
        let header = TransactionHeader {
            type_: Type(TransactionType::GetUserNameList.to_i16()),
            is_reply: IsReply::reply(),
            ..TransactionHeader::default()
        };
        let body = TransactionBody::from_parameters(users_parameters(self.0));
        TransactionFrame::new(header, body)
    }
}

/// A request that a user be disconnected.
#[derive(Debug)]
pub struct DisconnectUser {
    pub user_id: UserId,
    pub options: Option<super::parameters::TransactionOptions>,
    pub data: Option<Vec<u8>>,
}

/// The options of a disconnect request: an integer parameter that fits in
/// 32 bits; anything else is ignored.
pub open spec fn disconnect_options(ps: Seq<ParameterView>) -> Option<i32> {
    match field_of(ps, TransactionField::Options) {
        None => None,
        Some(p) => match super::transaction::int_of_bytes(p.field_data) {
            None => None,
            Some(v) => if -0x8000_0000 <= v <= 0x7fff_ffff {
                Some(v as i32)
            } else {
                None
            },
        },
    }
}

impl DisconnectUser {
    /// The error a frame is refused with, if it is refused.
    pub open spec fn rejects(frame: TransactionFrame) -> Option<ProtocolError> {
        match spec_require_type(frame.header, TransactionType::DisconnectUser) {
            Err(e) => Some(e),
            Ok(_) => match req_i16(frame@.body.parameters, TransactionField::UserId) {
                Err(e) => Some(e),
                Ok(_) => None,
            },
        }
    }

    /// Whether `v` is what an accepted frame is read as.
    pub open spec fn accepts(frame: TransactionFrame, v: Self) -> bool {
        match spec_require_type(frame.header, TransactionType::DisconnectUser) {
            Err(_) => false,
            Ok(_) => match req_i16(frame@.body.parameters, TransactionField::UserId) {
                Err(_) => false,
                Ok(user) => v.user_id.0 == user && (match v.options {
                    Some(o) => Some(o.0),
                    None => None,
                }) == disconnect_options(frame@.body.parameters) && opt_view(v.data)
                    == opt_bytes(frame@.body.parameters, TransactionField::Data),
            },
        }
    }

    pub fn try_from(frame: TransactionFrame) -> (r: Result<Self, ProtocolError>)
        ensures
            match Self::rejects(frame) {
                Some(e) => r matches Err(e2) && e2 == e,
                None => r matches Ok(v) && Self::accepts(frame, v),
            },
    {
        let frame = frame.require_transaction_type(TransactionType::DisconnectUser)?;
        let body = &frame.body;
        let user_id = UserId::try_from(body.require_field(TransactionField::UserId)?)?;
        let options = match body.borrow_field(TransactionField::Options) {
            Some(p) => match p.int_value() {
                Some(i) => match i.i32() {
                    Some(v) => Some(super::parameters::TransactionOptions(v)),
                    None => None,
                },
                None => None,
            },
            None => None,
        };
        let data = match body.borrow_field(TransactionField::Data) {
            Some(p) => Some(p.duplicate().take()),
            None => None,
        };
        Ok(Self { user_id, options, data })
    }

    /// The frame this is written as.
    pub open spec fn frame_view(self) -> TransactionFrameView {
        frame_of(
            TransactionType::DisconnectUser,
            seq![i16_param(TransactionField::UserId, self.user_id.0)] + opt_param(
                match self.options {
                    Some(o) => Some(i32_param(TransactionField::Options, o.0)),
                    None => None,
                },
            ) + opt_param(
                match self.data {
                    Some(d) => Some(bytes_param(TransactionField::Data, d@)),
                    None => None,
                },
            ),
        )
    }

    pub fn framed(self) -> (r: TransactionFrame)
        ensures
            r@ == self.frame_view(),
    {
        let DisconnectUser { user_id, options, data } = self;
        let mut v: Vec<Parameter> = Vec::new();
        v.push(user_id.into_parameter());
        assert(params_view(v@) =~= seq![v@[0]@]);
        push_opt(&mut v, match options {
            Some(o) => Some(o.into_parameter()),
            None => None,
        });
        push_opt(&mut v, match data {
            Some(d) => Some(Parameter::new_data(d)),
            None => None,
        });
        TransactionFrame::with_parameters(TransactionType::DisconnectUser, v)
    }
}

/// A request for the news.
#[derive(Debug, PartialEq, Eq, Structural)]
pub struct GetMessages;

impl GetMessages {
    pub fn try_from(frame: TransactionFrame) -> (r: Result<Self, ProtocolError>)
        ensures
            r == (match spec_require_type(frame.header, TransactionType::GetMessages) {
                Ok(_) => Ok::<Self, ProtocolError>(GetMessages),
                Err(e) => Err(e),
            }),
    {
        frame.require_transaction_type(TransactionType::GetMessages)?;
        Ok(Self)
    }

    /// The frame this is written as.
    pub open spec fn frame_view(self) -> TransactionFrameView {
        super::transaction::empty_frame(TransactionType::GetMessages)
    }

    pub fn framed(self) -> (r: TransactionFrame)
        ensures
            r@ == self.frame_view(),
    {
        TransactionFrame::empty_of(TransactionType::GetMessages)
    }
}

/// The views of a list of messages.
pub open spec fn messages_view(ms: Seq<super::parameters::Message>) -> Seq<Seq<u8>> {
    ms.map_values(|m: super::parameters::Message| m@)
}

/// Data parameters carrying these messages.
pub open spec fn data_params(ms: Seq<Seq<u8>>) -> Seq<ParameterView> {
    ms.map_values(|m: Seq<u8>| bytes_param(TransactionField::Data, m))
}

/// The news.
#[derive(Debug)]
pub struct GetMessagesReply(pub Vec<super::parameters::Message>);

impl GetMessagesReply {
    pub fn empty() -> (r: Self)
        ensures
            r.0@.len() == 0,
    {
        Self(Vec::new())
    }

    pub fn single(message: super::parameters::Message) -> (r: Self)
        ensures
            messages_view(r.0@) == seq![message@],
    {
        let r = Self::with_messages(vec![message]);
        assert(messages_view(r.0@) =~= seq![message@]);
        r
    }

    pub fn with_messages(messages: Vec<super::parameters::Message>) -> (r: Self)
        ensures
            r.0@ == messages@,
    {
        Self(messages)
    }

    /// The frame this is written as.
    pub open spec fn frame_view(self) -> TransactionFrameView {
        (TransactionFrameView {
            header: reply_header_of(TransactionType::GetMessages),
            body: body_of(data_params(messages_view(self.0@))),
        })
    }

    pub fn framed(self) -> (r: TransactionFrame)
        ensures
            r@ == self.frame_view(),
    {
        let ghost ms = messages_view(self.0@);
        let header = TransactionHeader {
            type_: Type(TransactionType::GetMessages.to_i16()),
            is_reply: IsReply::reply(),
            ..TransactionHeader::default()
        };
        let messages = self.0;
        let mut out: Vec<Parameter> = Vec::new();
        let mut i: usize = 0;
        while i < messages.len()
            invariant
                ms == messages_view(messages@),
                0 <= i <= messages@.len(),
                params_view(out@) == data_params(ms.take(i as int)),
            decreases messages@.len() - i,
        {
            let p = messages[i].duplicate().into_parameter();
            let ghost before = out@;
            out.push(p);
            proof {
                assert(params_view(out@) =~= params_view(before).push(p@));
                assert(ms.take(i + 1) =~= ms.take(i as int).push(ms[i as int]));
                assert(data_params(ms.take(i + 1)) =~= data_params(ms.take(i as int)).push(p@));
            }
            i = i + 1;
        }
        assert(ms.take(messages@.len() as int) =~= ms);
        TransactionFrame::new(header, TransactionBody::from_parameters(out))
    }
}

/// A news post, in the old style.
#[derive(Debug)]
pub struct PostNews(pub super::parameters::Message);

impl PostNews {
    /// The error a frame is refused with, if it is refused.
    pub open spec fn rejects(frame: TransactionFrame) -> Option<ProtocolError> {
        match spec_require_type(frame.header, TransactionType::OldPostNews) {
            Err(e) => Some(e),
            Ok(_) => match req_bytes(frame@.body.parameters, TransactionField::Data) {
                Err(e) => Some(e),
                Ok(_) => None,
            },
        }
    }

    /// Whether `v` is what an accepted frame is read as.
    pub open spec fn accepts(frame: TransactionFrame, v: Self) -> bool {
        match spec_require_type(frame.header, TransactionType::OldPostNews) {
            Err(_) => false,
            Ok(_) => match req_bytes(frame@.body.parameters, TransactionField::Data) {
                Err(_) => false,
                Ok(d) => v.0@ == d,
            },
        }
    }

    pub fn try_from(frame: TransactionFrame) -> (r: Result<Self, ProtocolError>)
        ensures
            match Self::rejects(frame) {
                Some(e) => r matches Err(e2) && e2 == e,
                None => r matches Ok(v) && Self::accepts(frame, v),
            },
    {
        let frame = frame.require_transaction_type(TransactionType::OldPostNews)?;
        let post = super::parameters::Message::from_parameter(
            frame.body.require_field(TransactionField::Data)?,
        );
        Ok(Self(post))
    }

    /// The frame this is written as.
    pub open spec fn frame_view(self) -> TransactionFrameView {
        frame_of(TransactionType::Reply, seq![bytes_param(TransactionField::Data, self.0@)])
    }

    pub fn framed(self) -> (r: TransactionFrame)
        ensures
            r@ == self.frame_view(),
    {
        let v = vec![self.0.into_parameter()];
        assert(params_view(v@) =~= seq![v@[0]@]);
        TransactionFrame::with_parameters(TransactionType::Reply, v)
    }
}

/// Tells a client of a news post.
#[derive(Debug, Clone)]
pub struct NotifyNewsMessage(pub super::parameters::Message);

impl NotifyNewsMessage {
    pub fn try_from(frame: TransactionFrame) -> (r: Result<Self, ProtocolError>)
        ensures
            match spec_require_type(frame.header, TransactionType::NewMessage) {
                Err(e) => r matches Err(e2) && e2 == e,
                Ok(_) => match req_bytes(frame@.body.parameters, TransactionField::Data) {
                    Err(e) => r matches Err(e2) && e2 == e,
                    Ok(d) => r matches Ok(v) && v.0@ == d,
                },
            },
    {
        let frame = frame.require_transaction_type(TransactionType::NewMessage)?;
        let post = super::parameters::Message::from_parameter(
            frame.body.require_field(TransactionField::Data)?,
        );
        Ok(Self(post))
    }

    /// The frame this is written as.
    pub open spec fn frame_view(self) -> TransactionFrameView {
        frame_of(
            TransactionType::NewMessage,
            seq![bytes_param(TransactionField::Data, self.0@)],
        )
    }

    pub fn framed(self) -> (r: TransactionFrame)
        ensures
            r@ == self.frame_view(),
    {
        let v = vec![self.0.into_parameter()];
        assert(params_view(v@) =~= seq![v@[0]@]);
        TransactionFrame::with_parameters(TransactionType::NewMessage, v)
    }
}

/// The path a body names in its file path parameter; the root when it has
/// none.
pub open spec fn path_field(ps: Seq<ParameterView>) -> Result<FilePathView, ProtocolError> {
    match field_of(ps, TransactionField::FilePath) {
        None => Ok(FilePathView::Root),
        Some(p) => match parse_path(p.field_data) {
            Some(cs) => Ok(FilePathView::Directory(cs)),
            None => Err(ProtocolError::MalformedData(TransactionField::FilePath)),
        },
    }
}

/// The path a body names, or the root when it names none or names it badly.
pub open spec fn path_or_root(ps: Seq<ParameterView>) -> FilePathView {
    match path_field(ps) {
        Ok(p) => p,
        Err(_) => FilePathView::Root,
    }
}

/// The path named by the data of a body's new-path parameter, or the root.
pub open spec fn new_path_or_root(ps: Seq<ParameterView>) -> FilePathView {
    match field_of(ps, TransactionField::FileNewPath) {
        None => FilePathView::Root,
        Some(p) => match parse_path(p.field_data) {
            Some(cs) => FilePathView::Directory(cs),
            None => FilePathView::Root,
        },
    }
}

/// The parameters that name a path: none for the root.
pub open spec fn path_params(p: FilePathView) -> Seq<ParameterView> {
    match p {
        FilePathView::Root => Seq::empty(),
        FilePathView::Directory(cs) => seq![param(TransactionField::FilePath.code(), path_bytes(cs))],
    }
}

fn path_parameter(body: &TransactionBody) -> (r: Result<FilePath, ProtocolError>)
    ensures
        match path_field(body@.parameters) {
            Ok(v) => r matches Ok(p) && p@ == v,
            Err(e) => r matches Err(e2) && e2 == e,
        },
{
    FilePath::try_from_opt(body.borrow_field(TransactionField::FilePath))
}

fn push_path(out: &mut Vec<Parameter>, path: FilePath)
    ensures
        params_view(final(out)@) == params_view(old(out)@) + path_params(path@),
{
    let ghost pv = path@;
    let p = path.into_parameter();
    push_opt(out, p);
    assert(opt_param(opt_view(p)) =~= path_params(pv));
}

/// A request for the files in a folder.
#[derive(Debug)]
pub struct GetFileNameList(pub FilePath);

impl GetFileNameList {
    /// The error a frame is refused with, if it is refused.
    pub open spec fn rejects(frame: TransactionFrame) -> Option<ProtocolError> {
        match spec_require_type(frame.header, TransactionType::GetFileNameList) {
            Err(e) => Some(e),
            Ok(_) => match path_field(frame@.body.parameters) {
                Err(e) => Some(e),
                Ok(_) => None,
            },
        }
    }

    /// Whether `v` is what an accepted frame is read as.
    pub open spec fn accepts(frame: TransactionFrame, v: Self) -> bool {
        match spec_require_type(frame.header, TransactionType::GetFileNameList) {
            Err(_) => false,
            Ok(_) => match path_field(frame@.body.parameters) {
                Err(_) => false,
                Ok(p) => v.0@ == p,
            },
        }
    }

    pub fn try_from(frame: TransactionFrame) -> (r: Result<Self, ProtocolError>)
        ensures
            match Self::rejects(frame) {
                Some(e) => r matches Err(e2) && e2 == e,
                None => r matches Ok(v) && Self::accepts(frame, v),
            },
    {
        let frame = frame.require_transaction_type(TransactionType::GetFileNameList)?;
        let path = path_parameter(&frame.body)?;
        Ok(Self(path))
    }

    /// The frame this is written as.
    pub open spec fn frame_view(self) -> TransactionFrameView {
        super::transaction::empty_frame(TransactionType::GetFileNameList)
    }

    /// An empty request of the type; the path is not written.
    pub fn framed(self) -> (r: TransactionFrame)
        ensures
            r@ == self.frame_view(),
    {
        TransactionFrame::empty_of(TransactionType::GetFileNameList)
    }
}

/// How a file name is written.
#[derive(Debug, Clone, Copy, PartialEq, Eq, Structural)]
pub struct NameScript(pub i16);

impl Default for NameScript {
    fn default() -> (r: Self)
        ensures
            r.0 == 0,
    {
        Self(0)
    }
}

/// A file as a folder listing shows it.
#[derive(Debug)]
pub struct FileNameWithInfo {
    pub file_type: FileType,
    pub creator: Creator,
    pub file_size: FileSize,
    pub name_script: NameScript,
    pub file_name: Vec<u8>,
}

pub open spec fn file_info_bytes(
    file_type: Seq<u8>,
    creator: Seq<u8>,
    size: i32,
    name_script: i16,
    name: Seq<u8>,
) -> Seq<u8> {
    file_type + creator + super::codec::i32_bytes(size) + seq![0u8, 0u8, 0u8, 0u8]
        + i16_bytes(name_script) + i16_bytes(name.len() as i16) + name
}

impl FileNameWithInfo {
    pub open spec fn spec_bytes(&self) -> Seq<u8> {
        file_info_bytes(
            self.file_type.0@,
            self.creator.0@,
            self.file_size.0,
            self.name_script.0,
            self.file_name@,
        )
    }

    /// The listing entry as a parameter.
    pub fn to_parameter(&self) -> (r: Parameter)
        ensures
            r@ == bytes_param(TransactionField::FileNameWithInfo, self.spec_bytes()),
    {
        let ghost want = self.spec_bytes();
        let mut data: Vec<u8> = Vec::new();
        let t = self.file_type.0;
        let c = self.creator.0;
        data.push(t[0]);
        data.push(t[1]);
        data.push(t[2]);
        data.push(t[3]);
        data.push(c[0]);
        data.push(c[1]);
        data.push(c[2]);
        data.push(c[3]);
        super::codec::push_i32(&mut data, self.file_size.0);
        data.push(0u8);
        data.push(0u8);
        data.push(0u8);
        data.push(0u8);
        super::codec::push_i16(&mut data, self.name_script.0);
        super::codec::push_i16(&mut data, self.file_name.len() as i16);
        super::codec::push_bytes(&mut data, self.file_name.as_slice());
        assert(data@ =~= want);
        Parameter::of_field(TransactionField::FileNameWithInfo, data)
    }
}

/// The files of a folder.
#[derive(Debug)]
pub struct GetFileNameListReply(pub Vec<FileNameWithInfo>);

impl GetFileNameListReply {
    pub fn empty() -> (r: Self)
        ensures
            r.0@.len() == 0,
    {
        Self(Vec::new())
    }

    pub fn single(file: FileNameWithInfo) -> (r: Self)
        ensures
            r.0@ == seq![file],
    {
        let r = Self::with_files(vec![file]);
        assert(r.0@ =~= seq![file]);
        r
    }

    pub fn with_files(files: Vec<FileNameWithInfo>) -> (r: Self)
        ensures
            r.0@ == files@,
    {
        Self(files)
    }

    /// The frame this is written as.
    pub open spec fn frame_view(self) -> TransactionFrameView {
        (TransactionFrameView {
            header: reply_header_of(TransactionType::GetFileNameList),
            body: body_of(
                self.0@.map_values(
                    |f: FileNameWithInfo|
                        bytes_param(TransactionField::FileNameWithInfo, f.spec_bytes()),
                ),
            ),
        })
    }

    pub fn framed(self) -> (r: TransactionFrame)
        ensures
            r@ == self.frame_view(),
    {
        let ghost fs = self.0@;
        let ghost want = fs.map_values(
            |f: FileNameWithInfo| bytes_param(TransactionField::FileNameWithInfo, f.spec_bytes()),
        );
        let header = TransactionHeader {
            type_: Type(TransactionType::GetFileNameList.to_i16()),
            is_reply: IsReply::reply(),
            ..TransactionHeader::default()
        };
        let files = &self.0;
        let mut out: Vec<Parameter> = Vec::new();
        let mut i: usize = 0;
        while i < files.len()
            invariant
                files@ == fs,
                i <= fs.len(),
                params_view(out@) == want.take(i as int),
                want == fs.map_values(
                    |f: FileNameWithInfo| bytes_param(TransactionField::FileNameWithInfo, f.spec_bytes()),
                ),
            decreases fs.len() - i,
        {
            let p = files[i].to_parameter();
            let ghost before = out@;
            out.push(p);
            proof {
                assert(params_view(out@) =~= params_view(before).push(p@));
                assert(want.take(i + 1) =~= want.take(i as int).push(want[i as int]));
            }
            i = i + 1;
        }
        assert(want.take(i as int) =~= want);
        TransactionFrame::new(header, TransactionBody::from_parameters(out))
    }
}


/// A request for what is known of a file.
#[derive(Debug)]
pub struct GetFileInfo {
    pub filename: FileName,
    pub path: FilePath,
}

impl GetFileInfo {
    /// The error a frame is refused with, if it is refused.
    pub open spec fn rejects(frame: TransactionFrame) -> Option<ProtocolError> {
        match spec_require_type(frame.header, TransactionType::GetFileInfo) {
            Err(e) => Some(e),
            Ok(_) => match req_bytes(frame@.body.parameters, TransactionField::FileName) {
                Err(e) => Some(e),
                Ok(name) => match path_field(frame@.body.parameters) {
                    Err(e) => Some(e),
                    Ok(_) => None,
                },
            },
        }
    }

    /// Whether `v` is what an accepted frame is read as.
    pub open spec fn accepts(frame: TransactionFrame, v: Self) -> bool {
        match spec_require_type(frame.header, TransactionType::GetFileInfo) {
            Err(_) => false,
            Ok(_) => match req_bytes(frame@.body.parameters, TransactionField::FileName) {
                Err(_) => false,
                Ok(name) => match path_field(frame@.body.parameters) {
                    Err(_) => false,
                    Ok(p) => v.filename@ == name && v.path@ == p,
                },
            },
        }
    }

    pub fn try_from(frame: TransactionFrame) -> (r: Result<Self, ProtocolError>)
        ensures
            match Self::rejects(frame) {
                Some(e) => r matches Err(e2) && e2 == e,
                None => r matches Ok(v) && Self::accepts(frame, v),
            },
    {
        let frame = frame.require_transaction_type(TransactionType::GetFileInfo)?;
        let body = &frame.body;
        let filename = FileName::from_parameter(body.require_field(TransactionField::FileName)?);
        let path = path_parameter(body)?;
        Ok(Self { filename, path })
    }

    /// The frame this is written as.
    pub open spec fn frame_view(self) -> TransactionFrameView {
        super::transaction::empty_frame(TransactionType::GetFileNameList)
    }

    /// An empty folder listing request; nothing of the request is written.
    pub fn framed(self) -> (r: TransactionFrame)
        ensures
            r@ == self.frame_view(),
    {
        TransactionFrame::empty_of(TransactionType::GetFileNameList)
    }
}

/// What is known of a file.
#[derive(Debug)]
pub struct GetFileInfoReply {
    pub filename: FileName,
    pub size: FileSize,
    pub type_code: FileType,
    pub creator: FileCreatorString,
    pub comment: FileComment,
    pub created_at: FileCreatedAt,
    pub modified_at: FileModifiedAt,
}

impl GetFileInfoReply {
    /// The frame this is written as.
    pub open spec fn frame_view(self) -> TransactionFrameView {
        frame_of(
            TransactionType::GetFileInfo,
            seq![
                bytes_param(TransactionField::FileName, self.filename@),
                bytes_param(TransactionField::FileType, self.type_code.0@),
                bytes_param(TransactionField::FileCreatorString, self.creator@),
                bytes_param(TransactionField::FileCreateDate, date_bytes(self.created_at.0)),
                bytes_param(TransactionField::FileModifyDate, date_bytes(self.modified_at.0)),
                bytes_param(TransactionField::FileComment, self.comment@),
                i32_param(TransactionField::FileSize, self.size.0),
                bytes_param(TransactionField::FileTypeString, self.type_code.0@),
            ],
        )
    }

    /// The file's name, type, creator, dates, comment, size and type as text.
    pub fn framed(self) -> (r: TransactionFrame)
        ensures
            r@ == self.frame_view(),
    {
        let type_string = FileTypeString::from_file_type(&self.type_code);
        let GetFileInfoReply { filename, size, type_code, creator, comment, created_at, modified_at } = self;
        let v = vec![
            filename.into_parameter(),
            type_code.into_parameter(),
            creator.into_parameter(),
            created_at.into_parameter(),
            modified_at.into_parameter(),
            comment.into_parameter(),
            size.into_parameter(),
            type_string.into_parameter(),
        ];
        assert(params_view(v@) =~= seq![v@[0]@, v@[1]@, v@[2]@, v@[3]@, v@[4]@, v@[5]@, v@[6]@, v@[7]@]);
        TransactionFrame::with_parameters(TransactionType::GetFileInfo, v)
    }
}

/// A request to rename a file or change its comment.
#[derive(Debug)]
pub struct SetFileInfo {
    pub filename: FileName,
    pub path: FilePath,
    pub new_name: Option<FileName>,
    pub new_comment: Option<FileComment>,
}

impl SetFileInfo {
    /// The error a frame is refused with, if it is refused.
    pub open spec fn rejects(frame: TransactionFrame) -> Option<ProtocolError> {
        match spec_require_type(frame.header, TransactionType::SetFileInfo) {
            Err(e) => Some(e),
            Ok(_) => match req_bytes(frame@.body.parameters, TransactionField::FileName) {
                Err(e) => Some(e),
                Ok(name) => match path_field(frame@.body.parameters) {
                    Err(e) => Some(e),
                    Ok(_) => None,
                },
            },
        }
    }

    /// Whether `v` is what an accepted frame is read as.
    pub open spec fn accepts(frame: TransactionFrame, v: Self) -> bool {
        match spec_require_type(frame.header, TransactionType::SetFileInfo) {
            Err(_) => false,
            Ok(_) => match req_bytes(frame@.body.parameters, TransactionField::FileName) {
                Err(_) => false,
                Ok(name) => match path_field(frame@.body.parameters) {
                    Err(_) => false,
                    Ok(p) => v.filename@ == name && v.path@ == p
                        && opt_view(v.new_name) == opt_bytes(frame@.body.parameters, TransactionField::FileNewName)
                        && opt_view(v.new_comment) == opt_bytes(frame@.body.parameters, TransactionField::FileComment),
                },
            },
        }
    }

    pub fn try_from(frame: TransactionFrame) -> (r: Result<Self, ProtocolError>)
        ensures
            match Self::rejects(frame) {
                Some(e) => r matches Err(e2) && e2 == e,
                None => r matches Ok(v) && Self::accepts(frame, v),
            },
    {
        let frame = frame.require_transaction_type(TransactionType::SetFileInfo)?;
        let body = &frame.body;
        let filename = FileName::from_parameter(body.require_field(TransactionField::FileName)?);
        let path = path_parameter(body)?;
        let new_name = match body.borrow_field(TransactionField::FileNewName) {
            Some(p) => Some(FileName::from_parameter(p)),
            None => None,
        };
        let new_comment = match body.borrow_field(TransactionField::FileComment) {
            Some(p) => match FileComment::try_from(p) {
                Ok(c) => Some(c),
                Err(_) => None,
            },
            None => None,
        };
        Ok(Self { filename, path, new_name, new_comment })
    }
}

/// The answer to a file information change.
#[derive(Debug, Clone, Copy, PartialEq, Eq, Structural)]
pub struct SetFileInfoReply;

impl SetFileInfoReply {
    /// Accepts a frame of the delete-file type.
    pub fn try_from(frame: TransactionFrame) -> (r: Result<Self, ProtocolError>)
        ensures
            r == (match spec_require_type(frame.header, TransactionType::DeleteFile) {
                Ok(_) => Ok::<Self, ProtocolError>(SetFileInfoReply),
                Err(e) => Err(e),
            }),
    {
        frame.require_transaction_type(TransactionType::DeleteFile)?;
        Ok(Self)
    }

    /// The frame this is written as.
    pub open spec fn frame_view(self) -> TransactionFrameView {
        super::transaction::empty_frame(TransactionType::SetFileInfo)
    }

    pub fn framed(self) -> (r: TransactionFrame)
        ensures
            r@ == self.frame_view(),
    {
        TransactionFrame::empty_of(TransactionType::SetFileInfo)
    }
}

/// A line said in the public chat or in a chat room.
#[derive(Debug)]
pub struct SendChat {
    pub options: ChatOptions,
    pub chat_id: Option<ChatId>,
    pub message: Vec<u8>,
}

impl SendChat {
    /// The error a frame is refused with, if it is refused.
    pub open spec fn rejects(frame: TransactionFrame) -> Option<ProtocolError> {
        match spec_require_type(frame.header, TransactionType::SendChat) {
            Err(e) => Some(e),
            Ok(_) => match opt_i32(frame@.body.parameters, TransactionField::ChatOptions) {
                Err(e) => Some(e),
                Ok(options) => match opt_i16(frame@.body.parameters, TransactionField::ChatId) {
                    Err(e) => Some(e),
                    Ok(chat) => match req_bytes(frame@.body.parameters, TransactionField::Data) {
                        Err(e) => Some(e),
                        Ok(_) => None,
                    },
                },
            },
        }
    }

    /// Whether `v` is what an accepted frame is read as.
    pub open spec fn accepts(frame: TransactionFrame, v: Self) -> bool {
        match spec_require_type(frame.header, TransactionType::SendChat) {
            Err(_) => false,
            Ok(_) => match opt_i32(frame@.body.parameters, TransactionField::ChatOptions) {
                Err(_) => false,
                Ok(options) => match opt_i16(frame@.body.parameters, TransactionField::ChatId) {
                    Err(_) => false,
                    Ok(chat) => match req_bytes(frame@.body.parameters, TransactionField::Data) {
                        Err(_) => false,
                        Ok(m) => v.message@ == m && v.options.0 == (match options {
                            Some(o) => o,
                            None => 0,
                        }) && (match v.chat_id {
                            Some(c) => Some(c.0),
                            None => None,
                        }) == chat,
                    },
                },
            },
        }
    }

    pub fn try_from(frame: TransactionFrame) -> (r: Result<Self, ProtocolError>)
        ensures
            match Self::rejects(frame) {
                Some(e) => r matches Err(e2) && e2 == e,
                None => r matches Ok(v) && Self::accepts(frame, v),
            },
    {
        let frame = frame.require_transaction_type(TransactionType::SendChat)?;
        let body = &frame.body;
        let options = match body.borrow_field(TransactionField::ChatOptions) {
            Some(p) => ChatOptions::try_from(p)?,
            None => ChatOptions::default(),
        };
        let chat_id = match body.borrow_field(TransactionField::ChatId) {
            Some(p) => Some(ChatId::try_from(p)?),
            None => None,
        };
        let message = body.require_field(TransactionField::Data)?.duplicate().take();
        Ok(Self { options, chat_id, message })
    }

    /// The frame this is written as.
    pub open spec fn frame_view(self) -> TransactionFrameView {
        frame_of(
            TransactionType::SendChat,
            seq![bytes_param(TransactionField::Data, self.message@)] + opt_param(
                match self.chat_id {
                    Some(c) => Some(i16_param(TransactionField::ChatId, c.0)),
                    None => None,
                },
            ) + seq![i32_param(TransactionField::ChatOptions, self.options.0)],
        )
    }

    /// The message, the chat room if there is one, and the options.
    pub fn framed(self) -> (r: TransactionFrame)
        ensures
            r@ == self.frame_view(),
    {
        let SendChat { options, chat_id, message } = self;
        let mut v: Vec<Parameter> = Vec::new();
        v.push(Parameter::new_data(message));
        assert(params_view(v@) =~= seq![v@[0]@]);
        push_opt(&mut v, match chat_id {
            Some(c) => Some(c.into_parameter()),
            None => None,
        });
        push_opt(&mut v, Some(options.into_parameter()));
        TransactionFrame::with_parameters(TransactionType::SendChat, v)
    }
}

/// A chat line as clients see it.
#[derive(Debug, Clone)]
pub struct ChatMessage {
    pub chat_id: Option<ChatId>,
    pub message: Vec<u8>,
}

impl ChatMessage {
    pub fn try_from(frame: TransactionFrame) -> (r: Result<Self, ProtocolError>)
        ensures
            match spec_require_type(frame.header, TransactionType::ChatMessage) {
                Err(e) => r matches Err(e2) && e2 == e,
                Ok(_) => match opt_i16(frame@.body.parameters, TransactionField::ChatId) {
                    Err(e) => r matches Err(e2) && e2 == e,
                    Ok(chat) => match req_bytes(frame@.body.parameters, TransactionField::Data) {
                        Err(e) => r matches Err(e2) && e2 == e,
                        Ok(m) => r matches Ok(v) && v.message@ == m && (match v.chat_id {
                            Some(c) => Some(c.0),
                            None => None,
                        }) == chat,
                    },
                },
            },
    {
        let frame = frame.require_transaction_type(TransactionType::ChatMessage)?;
        let body = &frame.body;
        let chat_id = match body.borrow_field(TransactionField::ChatId) {
            Some(p) => Some(ChatId::try_from(p)?),
            None => None,
        };
        let message = body.require_field(TransactionField::Data)?.duplicate().take();
        Ok(Self { chat_id, message })
    }

    /// The frame this is written as.
    pub open spec fn frame_view(self) -> TransactionFrameView {
        frame_of(
            TransactionType::ChatMessage,
            seq![bytes_param(TransactionField::Data, self.message@)] + opt_param(
                match self.chat_id {
                    Some(c) => Some(i16_param(TransactionField::ChatId, c.0)),
                    None => None,
                },
            ),
        )
    }

    /// The line, then the chat room if there is one.
    pub fn framed(self) -> (r: TransactionFrame)
        ensures
            r@ == self.frame_view(),
    {
        let ChatMessage { chat_id, message } = self;
        let mut v: Vec<Parameter> = Vec::new();
        v.push(Parameter::new_data(message));
        assert(params_view(v@) =~= seq![v@[0]@]);
        push_opt(&mut v, match chat_id {
            Some(c) => Some(c.into_parameter()),
            None => None,
        });
        TransactionFrame::with_parameters(TransactionType::ChatMessage, v)
    }
}

/// The first parameter of each id in a data parameter followed by at most
/// one chat room parameter and then the rest.
proof fn lemma_first_of_chat_line(m: Seq<u8>, oc: Option<ParameterView>, rest: Seq<ParameterView>, id: i16)
    ensures
        ({
            let d = bytes_param(TransactionField::Data, m);
            first_of(seq![d] + opt_param(oc) + rest, id) == (if id == 101 {
                Some(d)
            } else {
                match first_of(opt_param(oc), id) {
                    Some(p) => Some(p),
                    None => first_of(rest, id),
                }
            })
        }),
{
    let d = bytes_param(TransactionField::Data, m);
    lemma_first_of_concat(seq![d] + opt_param(oc), rest, id);
    lemma_first_of_concat(seq![d], opt_param(oc), id);
    lemma_first_of_opt(Some(d), id);
    assert(opt_param(Some(d)) == seq![d]);
}

/// A two-byte chat room parameter reads back as the same number.
proof fn lemma_chat_id_reads_back(c: Option<ChatId>)
    ensures
        ({
            let oc = match c {
                Some(c) => Some(i16_param(TransactionField::ChatId, c.0)),
                None => None,
            };
            &&& first_of(opt_param(oc), 114) == oc
            &&& first_of(opt_param(oc), 101) is None
            &&& first_of(opt_param(oc), 109) is None
            &&& match c {
                Some(c) => i16_data(i16_param(TransactionField::ChatId, c.0).field_data) == Some(c.0),
                None => true,
            }
        }),
{
    let oc = match c {
        Some(c) => Some(i16_param(TransactionField::ChatId, c.0)),
        None => None,
    };
    lemma_first_of_opt(oc, 114);
    lemma_first_of_opt(oc, 101);
    lemma_first_of_opt(oc, 109);
    if let Some(c) = c {
        super::codec::lemma_i16_roundtrip(c.0, Seq::empty());
        assert(i16_bytes(c.0) + Seq::<u8>::empty() =~= i16_bytes(c.0));
    }
}

/// A chat line written as a frame is read back as the same line, in the same
/// room, with the same options.
pub proof fn law_send_chat_roundtrip(s: SendChat, frame: TransactionFrame)
    requires
        frame@ == s.frame_view(),
    ensures
        SendChat::rejects(frame) is None,
        SendChat::accepts(frame, s),
{
    let oc = match s.chat_id {
        Some(c) => Some(i16_param(TransactionField::ChatId, c.0)),
        None => None,
    };
    let o = i32_param(TransactionField::ChatOptions, s.options.0);
    let rest = seq![o];
    let ps = frame@.body.parameters;
    assert(ps == seq![bytes_param(TransactionField::Data, s.message@)] + opt_param(oc) + rest);
    TransactionType::SendChat.lemma_code_roundtrip();
    lemma_chat_id_reads_back(s.chat_id);
    lemma_first_of_chat_line(s.message@, oc, rest, 101);
    lemma_first_of_chat_line(s.message@, oc, rest, 114);
    lemma_first_of_chat_line(s.message@, oc, rest, 109);
    lemma_first_of_opt(Some(o), 109);
    lemma_first_of_opt(Some(o), 114);
    assert(opt_param(Some(o)) == rest);
    super::codec::lemma_i32_roundtrip(s.options.0, Seq::empty());
    assert(super::codec::i32_bytes(s.options.0) + Seq::<u8>::empty() =~= super::codec::i32_bytes(
        s.options.0,
    ));
}

/// A chat line sent to clients as a frame is read back as the same line in
/// the same room.
pub proof fn law_chat_message_roundtrip(m: ChatMessage, frame: TransactionFrame)
    requires
        frame@ == m.frame_view(),
    ensures
        spec_require_type(frame.header, TransactionType::ChatMessage) is Ok,
        opt_i16(frame@.body.parameters, TransactionField::ChatId) == Ok::<Option<i16>, ProtocolError>(
            match m.chat_id {
                Some(c) => Some(c.0),
                None => None,
            },
        ),
        req_bytes(frame@.body.parameters, TransactionField::Data) == Ok::<Seq<u8>, ProtocolError>(
            m.message@,
        ),
{
    let oc = match m.chat_id {
        Some(c) => Some(i16_param(TransactionField::ChatId, c.0)),
        None => None,
    };
    let rest = Seq::<ParameterView>::empty();
    let ps = frame@.body.parameters;
    assert(ps == seq![bytes_param(TransactionField::Data, m.message@)] + opt_param(oc) + rest);
    TransactionType::ChatMessage.lemma_code_roundtrip();
    lemma_chat_id_reads_back(m.chat_id);
    lemma_first_of_chat_line(m.message@, oc, rest, 101);
    lemma_first_of_chat_line(m.message@, oc, rest, 114);
}

/// A message from the server or from another user.
#[derive(Debug)]
pub struct ServerMessage {
    pub user_id: Option<UserId>,
    pub user_name: Option<Nickname>,
    pub message: Vec<u8>,
}

impl ServerMessage {
    /// The frame this is written as.
    pub open spec fn frame_view(self) -> TransactionFrameView {
        frame_of(
            TransactionType::ServerMessage,
            seq![bytes_param(TransactionField::Data, self.message@)] + opt_param(
                match self.user_id {
                    Some(u) => Some(i16_param(TransactionField::UserId, u.0)),
                    None => None,
                },
            ) + opt_param(
                match self.user_name {
                    Some(n) => Some(bytes_param(TransactionField::UserName, n@)),
                    None => None,
                },
            ),
        )
    }

    /// The message, then the sender's id and name where they are known.
    pub fn framed(self) -> (r: TransactionFrame)
        ensures
            r@ == self.frame_view(),
    {
        let ServerMessage { user_id, user_name, message } = self;
        let mut v: Vec<Parameter> = Vec::new();
        v.push(Parameter::new_data(message));
        assert(params_view(v@) =~= seq![v@[0]@]);
        push_opt(&mut v, match user_id {
            Some(u) => Some(u.into_parameter()),
            None => None,
        });
        push_opt(&mut v, match user_name {
            Some(n) => Some(n.into_parameter()),
            None => None,
        });
        TransactionFrame::with_parameters(TransactionType::ServerMessage, v)
    }
}

/// The message a client is shown when it is disconnected.
#[derive(Debug)]
pub struct DisconnectMessage {
    pub message: Vec<u8>,
}

impl DisconnectMessage {
    /// Reads the message of a frame of the instant message type.
    pub fn try_from(frame: TransactionFrame) -> (r: Result<Self, ProtocolError>)
        ensures
            match spec_require_type(frame.header, TransactionType::SendInstantMessage) {
                Err(e) => r matches Err(e2) && e2 == e,
                Ok(_) => match req_bytes(frame@.body.parameters, TransactionField::Data) {
                    Err(e) => r matches Err(e2) && e2 == e,
                    Ok(m) => r matches Ok(v) && v.message@ == m,
                },
            },
    {
        let frame = frame.require_transaction_type(TransactionType::SendInstantMessage)?;
        let message = frame.body.require_field(TransactionField::Data)?.duplicate().take();
        Ok(Self { message })
    }

    /// The frame this is written as.
    pub open spec fn frame_view(self) -> TransactionFrameView {
        frame_of(
            TransactionType::DisconnectMessage,
            seq![bytes_param(TransactionField::Data, self.message@)],
        )
    }

    pub fn framed(self) -> (r: TransactionFrame)
        ensures
            r@ == self.frame_view(),
    {
        let v = vec![Parameter::new_data(self.message)];
        assert(params_view(v@) =~= seq![v@[0]@]);
        TransactionFrame::with_parameters(TransactionType::DisconnectMessage, v)
    }
}

/// A private message to one user.
#[derive(Debug)]
pub struct SendInstantMessage {
    pub user_id: UserId,
    pub message: Vec<u8>,
}

impl SendInstantMessage {
    /// The error a frame is refused with, if it is refused.
    pub open spec fn rejects(frame: TransactionFrame) -> Option<ProtocolError> {
        match spec_require_type(frame.header, TransactionType::SendInstantMessage) {
            Err(e) => Some(e),
            Ok(_) => match req_i16(frame@.body.parameters, TransactionField::UserId) {
                Err(e) => Some(e),
                Ok(u) => match req_bytes(frame@.body.parameters, TransactionField::Data) {
                    Err(e) => Some(e),
                    Ok(_) => None,
                },
            },
        }
    }

    /// Whether `v` is what an accepted frame is read as.
    pub open spec fn accepts(frame: TransactionFrame, v: Self) -> bool {
        match spec_require_type(frame.header, TransactionType::SendInstantMessage) {
            Err(_) => false,
            Ok(_) => match req_i16(frame@.body.parameters, TransactionField::UserId) {
                Err(_) => false,
                Ok(u) => match req_bytes(frame@.body.parameters, TransactionField::Data) {
                    Err(_) => false,
                    Ok(m) => v.user_id.0 == u && v.message@ == m,
                },
            },
        }
    }

    pub fn try_from(frame: TransactionFrame) -> (r: Result<Self, ProtocolError>)
        ensures
            match Self::rejects(frame) {
                Some(e) => r matches Err(e2) && e2 == e,
                None => r matches Ok(v) && Self::accepts(frame, v),
            },
    {
        let frame = frame.require_transaction_type(TransactionType::SendInstantMessage)?;
        let body = &frame.body;
        let user_id = UserId::try_from(body.require_field(TransactionField::UserId)?)?;
        let message = body.require_field(TransactionField::Data)?.duplicate().take();
        Ok(Self { user_id, message })
    }

    /// The frame this is written as.
    pub open spec fn frame_view(self) -> TransactionFrameView {
        frame_of(
            TransactionType::SendChat,
            seq![
                i16_param(TransactionField::UserId, self.user_id.0),
                bytes_param(TransactionField::Data, self.message@),
            ],
        )
    }

    /// The user and the message, in a frame of the chat type.
    pub fn framed(self) -> (r: TransactionFrame)
        ensures
            r@ == self.frame_view(),
    {
        let v = vec![self.user_id.into_parameter(), Parameter::new_data(self.message)];
        assert(params_view(v@) =~= seq![v@[0]@, v@[1]@]);
        TransactionFrame::with_parameters(TransactionType::SendChat, v)
    }
}

/// The answer to a private message.
pub struct SendInstantMessageReply;

impl SendInstantMessageReply {
    pub fn try_from(frame: TransactionFrame) -> (r: Result<Self, ProtocolError>)
        ensures
            match spec_require_type(frame.header, TransactionType::Reply) {
                Ok(_) => r is Ok,
                Err(e) => r matches Err(e2) && e2 == e,
            },
    {
        frame.require_transaction_type(TransactionType::Reply)?;
        Ok(Self)
    }

    /// The frame this is written as.
    pub open spec fn frame_view(self) -> TransactionFrameView {
        super::transaction::empty_frame(TransactionType::Error)
    }

    /// An empty frame with the default header.
    pub fn framed(self) -> (r: TransactionFrame)
        ensures
            r@ == self.frame_view(),
    {
        TransactionFrame::empty(TransactionHeader::default())
    }
}

/// The two-byte integers of parameters of the field `f`, if every one of
/// them holds one.
pub open spec fn all_i16(ps: Seq<ParameterView>, f: TransactionField) -> Result<Seq<i16>, ProtocolError> {
    if forall|i: int| 0 <= i < ps.len() ==> (#[trigger] i16_data(ps[i].field_data)) is Some {
        Ok(
            ps.map_values(
                |p: ParameterView|
                    match i16_data(p.field_data) {
                        Some(v) => v,
                        None => 0,
                    },
            ),
        )
    } else {
        Err(ProtocolError::MalformedData(f))
    }
}

/// The ids of a list of users.
pub open spec fn user_ids_view(us: Seq<UserId>) -> Seq<i16> {
    us.map_values(|u: UserId| u.0)
}

/// The users of a body's parameters of the user id field.
fn read_user_ids(body: &TransactionBody) -> (r: Result<Vec<UserId>, ProtocolError>)
    ensures
        match all_i16(fields_of(body@.parameters, TransactionField::UserId), TransactionField::UserId) {
            Ok(ids) => r matches Ok(v) && user_ids_view(v@) == ids,
            Err(e) => r matches Err(e2) && e2 == e,
        },
{
    let ghost fs = fields_of(body@.parameters, TransactionField::UserId);
    let ps = body.borrow_fields(TransactionField::UserId);
    let mut out: Vec<UserId> = Vec::new();
    let mut i: usize = 0;
    while i < ps.len()
        invariant
            fs == fields_of(body@.parameters, TransactionField::UserId),
            ps@.len() == fs.len(),
            forall|j: int| 0 <= j < ps@.len() ==> (#[trigger] ps@[j])@ == fs[j],
            0 <= i <= ps@.len(),
            out@.len() == i,
            forall|j: int| 0 <= j < i ==> i16_data(fs[j].field_data) == Some(#[trigger] out@[j].0),
        decreases ps@.len() - i,
    {
        match UserId::try_from(ps[i]) {
            Ok(u) => {
                out.push(u);
            },
            Err(e) => {
                assert(i16_data(fs[i as int].field_data) is None);
                return Err(e);
            },
        }
        i = i + 1;
    }
    proof {
        assert forall|j: int| 0 <= j < fs.len() implies (#[trigger] i16_data(fs[j].field_data)) is Some by {
            assert(i16_data(fs[j].field_data) == Some(out@[j].0));
        }
        let ids = fs.map_values(
            |p: ParameterView|
                match i16_data(p.field_data) {
                    Some(v) => v,
                    None => 0,
                },
        );
        assert(user_ids_view(out@) =~= ids);
    }
    Ok(out)
}

/// The parameters naming these users.
pub open spec fn user_id_params(ids: Seq<i16>) -> Seq<ParameterView> {
    ids.map_values(|u: i16| i16_param(TransactionField::UserId, u))
}

/// An invitation of users to a new chat room.
#[derive(Debug)]
pub struct InviteToNewChat(pub Vec<UserId>);

/// Every user id of an invitation; an error if one of them is not a
/// two-byte integer.
impl InviteToNewChat {
    /// The error a frame is refused with, if it is refused.
    pub open spec fn rejects(frame: TransactionFrame) -> Option<ProtocolError> {
        match spec_require_type(frame.header, TransactionType::InviteToNewChat) {
            Err(e) => Some(e),
            Ok(_) => match all_i16(
                fields_of(frame@.body.parameters, TransactionField::UserId),
                TransactionField::UserId,
            ) {
                Err(e) => Some(e),
                Ok(_) => None,
            },
        }
    }

    /// Whether `v` is what an accepted frame is read as.
    pub open spec fn accepts(frame: TransactionFrame, v: Self) -> bool {
        match spec_require_type(frame.header, TransactionType::InviteToNewChat) {
            Err(_) => false,
            Ok(_) => match all_i16(
                fields_of(frame@.body.parameters, TransactionField::UserId),
                TransactionField::UserId,
            ) {
                Err(_) => false,
                Ok(ids) => user_ids_view(v.0@) == ids,
            },
        }
    }

    pub fn try_from(frame: TransactionFrame) -> (r: Result<Self, ProtocolError>)
        ensures
            match Self::rejects(frame) {
                Some(e) => r matches Err(e2) && e2 == e,
                None => r matches Ok(v) && Self::accepts(frame, v),
            },
    {
        let frame = frame.require_transaction_type(TransactionType::InviteToNewChat)?;
        let ids = read_user_ids(&frame.body)?;
        Ok(Self(ids))
    }

    /// The frame this is written as.
    pub open spec fn frame_view(self) -> TransactionFrameView {
        frame_of(TransactionType::InviteToNewChat, user_id_params(user_ids_view(self.0@)))
    }

    pub fn framed(self) -> (r: TransactionFrame)
        ensures
            r@ == self.frame_view(),
    {
        let ghost ids = user_ids_view(self.0@);
        let users = self.0;
        let mut out: Vec<Parameter> = Vec::new();
        let mut i: usize = 0;
        while i < users.len()
            invariant
                ids == user_ids_view(users@),
                0 <= i <= users@.len(),
                params_view(out@) == user_id_params(ids.take(i as int)),
            decreases users@.len() - i,
        {
            let p = users[i].into_parameter();
            let ghost before = out@;
            out.push(p);
            proof {
                assert(params_view(out@) =~= params_view(before).push(p@));
                assert(ids.take(i + 1) =~= ids.take(i as int).push(ids[i as int]));
                assert(user_id_params(ids.take(i + 1)) =~= user_id_params(ids.take(i as int)).push(p@));
            }
            i = i + 1;
        }
        assert(ids.take(users@.len() as int) =~= ids);
        TransactionFrame::with_parameters(TransactionType::InviteToNewChat, out)
    }
}

/// The answer to an invitation to a new chat room.
#[derive(Debug)]
pub struct InviteToNewChatReply {
    pub chat_id: ChatId,
    pub user_id: UserId,
    pub icon_id: IconId,
    pub flags: UserFlags,
    pub user_name: Nickname,
}

impl InviteToNewChatReply {
    pub fn try_from(frame: TransactionFrame) -> (r: Result<Self, ProtocolError>)
        ensures
            match spec_require_type(frame.header, TransactionType::Reply) {
                Err(e) => r matches Err(e2) && e2 == e,
                Ok(_) => match req_i16(frame@.body.parameters, TransactionField::ChatId) {
                    Err(e) => r matches Err(e2) && e2 == e,
                    Ok(c) => match req_i16(frame@.body.parameters, TransactionField::UserId) {
                        Err(e) => r matches Err(e2) && e2 == e,
                        Ok(u) => match req_i16(frame@.body.parameters, TransactionField::UserIconId) {
                            Err(e) => r matches Err(e2) && e2 == e,
                            Ok(icon) => match req_i16(frame@.body.parameters, TransactionField::UserFlags) {
                                Err(e) => r matches Err(e2) && e2 == e,
                                Ok(fl) => match req_bytes(frame@.body.parameters, TransactionField::UserName) {
                                    Err(e) => r matches Err(e2) && e2 == e,
                                    Ok(name) => r matches Ok(v) && v.chat_id.0 == c && v.user_id.0 == u
                                        && v.icon_id.0 == icon && v.flags.0 == fl && v.user_name@ == name,
                                },
                            },
                        },
                    },
                },
            },
    {
        let frame = frame.require_transaction_type(TransactionType::Reply)?;
        let body = &frame.body;
        let chat_id = ChatId::try_from(body.require_field(TransactionField::ChatId)?)?;
        let user_id = UserId::try_from(body.require_field(TransactionField::UserId)?)?;
        let icon_id = IconId::try_from(body.require_field(TransactionField::UserIconId)?)?;
        let flags = UserFlags::try_from(body.require_field(TransactionField::UserFlags)?)?;
        let user_name = Nickname::try_from(body.require_field(TransactionField::UserName)?)?;
        Ok(Self { chat_id, user_id, icon_id, flags, user_name })
    }

    /// The frame this is written as.
    pub open spec fn frame_view(self) -> TransactionFrameView {
        frame_of(
            TransactionType::InviteToNewChat,
            seq![
                i16_param(TransactionField::ChatId, self.chat_id.0),
                i16_param(TransactionField::UserId, self.user_id.0),
                i16_param(TransactionField::UserIconId, self.icon_id.0),
                bytes_param(TransactionField::UserName, self.user_name@),
                i16_param(TransactionField::UserFlags, self.flags.0),
            ],
        )
    }

    /// The room, the user, the icon, the name and the flags, in a frame of
    /// the invitation type.
    pub fn framed(self) -> (r: TransactionFrame)
        ensures
            r@ == self.frame_view(),
    {
        let InviteToNewChatReply { chat_id, user_id, icon_id, flags, user_name } = self;
        let v = vec![
            chat_id.into_parameter(),
            user_id.into_parameter(),
            icon_id.into_parameter(),
            user_name.into_parameter(),
            flags.into_parameter(),
        ];
        assert(params_view(v@) =~= seq![v@[0]@, v@[1]@, v@[2]@, v@[3]@, v@[4]@]);
        TransactionFrame::with_parameters(TransactionType::InviteToNewChat, v)
    }
}

/// An invitation of a user to an existing chat room.
#[derive(Debug, Clone, Copy, PartialEq, Eq, Structural)]
pub struct InviteToChat {
    pub user_id: UserId,
    pub chat_id: ChatId,
}

impl InviteToChat {
    /// The error a frame is refused with, if it is refused.
    pub open spec fn rejects(frame: TransactionFrame) -> Option<ProtocolError> {
        match spec_require_type(frame.header, TransactionType::InviteToChat) {
            Err(e) => Some(e),
            Ok(_) => match req_i16(frame@.body.parameters, TransactionField::UserId) {
                Err(e) => Some(e),
                Ok(u) => match req_i16(frame@.body.parameters, TransactionField::ChatId) {
                    Err(e) => Some(e),
                    Ok(_) => None,
                },
            },
        }
    }

    /// Whether `v` is what an accepted frame is read as.
    pub open spec fn accepts(frame: TransactionFrame, v: Self) -> bool {
        match spec_require_type(frame.header, TransactionType::InviteToChat) {
            Err(_) => false,
            Ok(_) => match req_i16(frame@.body.parameters, TransactionField::UserId) {
                Err(_) => false,
                Ok(u) => match req_i16(frame@.body.parameters, TransactionField::ChatId) {
                    Err(_) => false,
                    Ok(c) => v.user_id.0 == u && v.chat_id.0 == c,
                },
            },
        }
    }

    pub fn try_from(frame: TransactionFrame) -> (r: Result<Self, ProtocolError>)
        ensures
            match Self::rejects(frame) {
                Some(e) => r matches Err(e2) && e2 == e,
                None => r matches Ok(v) && Self::accepts(frame, v),
            },
    {
        let frame = frame.require_transaction_type(TransactionType::InviteToChat)?;
        let body = &frame.body;
        let user_id = UserId::try_from(body.require_field(TransactionField::UserId)?)?;
        let chat_id = ChatId::try_from(body.require_field(TransactionField::ChatId)?)?;
        Ok(Self { user_id, chat_id })
    }

    /// The frame this is written as.
    pub open spec fn frame_view(self) -> TransactionFrameView {
        frame_of(
            TransactionType::InviteToChat,
            seq![
                i16_param(TransactionField::UserId, self.user_id.0),
                i16_param(TransactionField::ChatId, self.chat_id.0),
            ],
        )
    }

    pub fn framed(self) -> (r: TransactionFrame)
        ensures
            r@ == self.frame_view(),
    {
        let v = vec![self.user_id.into_parameter(), self.chat_id.into_parameter()];
        assert(params_view(v@) =~= seq![v@[0]@, v@[1]@]);
        TransactionFrame::with_parameters(TransactionType::InviteToChat, v)
    }
}

/// The chat room of a request that names exactly one, for the given type.
fn chat_of(frame: TransactionFrame, t: TransactionType) -> (r: Result<ChatId, ProtocolError>)
    ensures
        match spec_require_type(frame.header, t) {
            Err(e) => r matches Err(e2) && e2 == e,
            Ok(_) => match req_i16(frame@.body.parameters, TransactionField::ChatId) {
                Err(e) => r matches Err(e2) && e2 == e,
                Ok(c) => r matches Ok(v) && v.0 == c,
            },
        },
{
    let frame = frame.require_transaction_type(t)?;
    ChatId::try_from(frame.body.require_field(TransactionField::ChatId)?)
}

/// The frame of type `t` naming one chat room.
fn chat_frame(chat_id: ChatId, t: TransactionType) -> (r: TransactionFrame)
    ensures
        r@ == frame_of(t, seq![i16_param(TransactionField::ChatId, chat_id.0)]),
{
    let v = vec![chat_id.into_parameter()];
    assert(params_view(v@) =~= seq![v@[0]@]);
    TransactionFrame::with_parameters(t, v)
}

/// A request to join a chat room.
#[derive(Debug, Clone, Copy, PartialEq, Eq, Structural)]
pub struct JoinChat(pub ChatId);

impl JoinChat {
    /// The error a frame is refused with, if it is refused.
    pub open spec fn rejects(frame: TransactionFrame) -> Option<ProtocolError> {
        match spec_require_type(frame.header, TransactionType::JoinChat) {
            Err(e) => Some(e),
            Ok(_) => match req_i16(frame@.body.parameters, TransactionField::ChatId) {
                Err(e) => Some(e),
                Ok(_) => None,
            },
        }
    }

    /// Whether `v` is what an accepted frame is read as.
    pub open spec fn accepts(frame: TransactionFrame, v: Self) -> bool {
        match spec_require_type(frame.header, TransactionType::JoinChat) {
            Err(_) => false,
            Ok(_) => match req_i16(frame@.body.parameters, TransactionField::ChatId) {
                Err(_) => false,
                Ok(c) => v.0.0 == c,
            },
        }
    }

    pub fn try_from(frame: TransactionFrame) -> (r: Result<Self, ProtocolError>)
        ensures
            match Self::rejects(frame) {
                Some(e) => r matches Err(e2) && e2 == e,
                None => r matches Ok(v) && Self::accepts(frame, v),
            },
    {
        Ok(Self(chat_of(frame, TransactionType::JoinChat)?))
    }

    /// The frame this is written as.
    pub open spec fn frame_view(self) -> TransactionFrameView {
        frame_of(TransactionType::JoinChat, seq![i16_param(TransactionField::ChatId, self.0.0)])
    }

    pub fn framed(self) -> (r: TransactionFrame)
        ensures
            r@ == self.frame_view(),
    {
        chat_frame(self.0, TransactionType::JoinChat)
    }
}

/// A request to leave a chat room.
#[derive(Debug, Clone, Copy, PartialEq, Eq, Structural)]
pub struct LeaveChat(pub ChatId);

impl LeaveChat {
    /// The error a frame is refused with, if it is refused.
    pub open spec fn rejects(frame: TransactionFrame) -> Option<ProtocolError> {
        match spec_require_type(frame.header, TransactionType::LeaveChat) {
            Err(e) => Some(e),
            Ok(_) => match req_i16(frame@.body.parameters, TransactionField::ChatId) {
                Err(e) => Some(e),
                Ok(_) => None,
            },
        }
    }

    /// Whether `v` is what an accepted frame is read as.
    pub open spec fn accepts(frame: TransactionFrame, v: Self) -> bool {
        match spec_require_type(frame.header, TransactionType::LeaveChat) {
            Err(_) => false,
            Ok(_) => match req_i16(frame@.body.parameters, TransactionField::ChatId) {
                Err(_) => false,
                Ok(c) => v.0.0 == c,
            },
        }
    }

    pub fn try_from(frame: TransactionFrame) -> (r: Result<Self, ProtocolError>)
        ensures
            match Self::rejects(frame) {
                Some(e) => r matches Err(e2) && e2 == e,
                None => r matches Ok(v) && Self::accepts(frame, v),
            },
    {
        Ok(Self(chat_of(frame, TransactionType::LeaveChat)?))
    }

    /// The frame this is written as.
    pub open spec fn frame_view(self) -> TransactionFrameView {
        frame_of(TransactionType::LeaveChat, seq![i16_param(TransactionField::ChatId, self.0.0)])
    }

    pub fn framed(self) -> (r: TransactionFrame)
        ensures
            r@ == self.frame_view(),
    {
        chat_frame(self.0, TransactionType::LeaveChat)
    }
}

/// A refusal of an invitation to a chat room.
#[derive(Debug, Clone, Copy, PartialEq, Eq, Structural)]
pub struct RejectChatInvite(pub ChatId);

impl RejectChatInvite {
    /// The error a frame is refused with, if it is refused.
    pub open spec fn rejects(frame: TransactionFrame) -> Option<ProtocolError> {
        match spec_require_type(frame.header, TransactionType::RejectChatInvite) {
            Err(e) => Some(e),
            Ok(_) => match req_i16(frame@.body.parameters, TransactionField::ChatId) {
                Err(e) => Some(e),
                Ok(_) => None,
            },
        }
    }

    /// Whether `v` is what an accepted frame is read as.
    pub open spec fn accepts(frame: TransactionFrame, v: Self) -> bool {
        match spec_require_type(frame.header, TransactionType::RejectChatInvite) {
            Err(_) => false,
            Ok(_) => match req_i16(frame@.body.parameters, TransactionField::ChatId) {
                Err(_) => false,
                Ok(c) => v.0.0 == c,
            },
        }
    }

    pub fn try_from(frame: TransactionFrame) -> (r: Result<Self, ProtocolError>)
        ensures
            match Self::rejects(frame) {
                Some(e) => r matches Err(e2) && e2 == e,
                None => r matches Ok(v) && Self::accepts(frame, v),
            },
    {
        Ok(Self(chat_of(frame, TransactionType::RejectChatInvite)?))
    }

    /// The frame this is written as.
    pub open spec fn frame_view(self) -> TransactionFrameView {
        frame_of(
            TransactionType::RejectChatInvite,
            seq![i16_param(TransactionField::ChatId, self.0.0)],
        )
    }

    pub fn framed(self) -> (r: TransactionFrame)
        ensures
            r@ == self.frame_view(),
    {
        chat_frame(self.0, TransactionType::RejectChatInvite)
    }
}

/// The subject and members of a chat room just joined.
#[derive(Debug)]
pub struct JoinChatReply {
    pub subject: Option<ChatSubject>,
    pub users: Vec<UserNameWithInfo>,
}

/// The users of parameters, if every one of them holds one.
pub open spec fn all_users(ps: Seq<ParameterView>) -> Result<Seq<UserNameWithInfoView>, ProtocolError> {
    if forall|i: int| 0 <= i < ps.len() ==> (#[trigger] parse_user_info(ps[i].field_data)) is Some {
        Ok(
            ps.map_values(
                |p: ParameterView|
                    match parse_user_info(p.field_data) {
                        Some(u) => u,
                        None => arbitrary(),
                    },
            ),
        )
    } else {
        Err(ProtocolError::MalformedData(TransactionField::UserNameWithInfo))
    }
}

/// The users of a body's parameters of the user field.
fn read_users(body: &TransactionBody) -> (r: Result<Vec<UserNameWithInfo>, ProtocolError>)
    ensures
        match all_users(fields_of(body@.parameters, TransactionField::UserNameWithInfo)) {
            Ok(us) => r matches Ok(v) && users_view(v@) == us,
            Err(e) => r matches Err(e2) && e2 == e,
        },
{
    let ghost fs = fields_of(body@.parameters, TransactionField::UserNameWithInfo);
    let ps = body.borrow_fields(TransactionField::UserNameWithInfo);
    let mut users: Vec<UserNameWithInfo> = Vec::new();
    let mut i: usize = 0;
    while i < ps.len()
        invariant
            fs == fields_of(body@.parameters, TransactionField::UserNameWithInfo),
            ps@.len() == fs.len(),
            forall|j: int| 0 <= j < ps@.len() ==> (#[trigger] ps@[j])@ == fs[j],
            0 <= i <= ps@.len(),
            users@.len() == i,
            forall|j: int| 0 <= j < i ==> parse_user_info(fs[j].field_data) == Some((#[trigger] users@[j])@),
        decreases ps@.len() - i,
    {
        match UserNameWithInfo::try_from(ps[i]) {
            Ok(u) => {
                users.push(u);
            },
            Err(e) => {
                assert(parse_user_info(fs[i as int].field_data) is None);
                return Err(e);
            },
        }
        i = i + 1;
    }
    proof {
        assert forall|j: int| 0 <= j < fs.len() implies (#[trigger] parse_user_info(fs[j].field_data)) is Some by {
            assert(parse_user_info(fs[j].field_data) == Some(users@[j]@));
        }
        let us = fs.map_values(
            |p: ParameterView|
                match parse_user_info(p.field_data) {
                    Some(u) => u,
                    None => arbitrary(),
                },
        );
        assert(users_view(users@) =~= us);
    }
    Ok(users)
}

impl JoinChatReply {
    pub fn try_from(frame: TransactionFrame) -> (r: Result<Self, ProtocolError>)
        ensures
            match spec_require_type(frame.header, TransactionType::JoinChat) {
                Err(e) => r matches Err(e2) && e2 == e,
                Ok(_) => match all_users(fields_of(frame@.body.parameters, TransactionField::UserNameWithInfo)) {
                    Err(e) => r matches Err(e2) && e2 == e,
                    Ok(us) => r matches Ok(v) && opt_view(v.subject) == opt_bytes(
                        frame@.body.parameters,
                        TransactionField::ChatSubject,
                    ) && users_view(v.users@) == us,
                },
            },
    {
        let frame = frame.require_transaction_type(TransactionType::JoinChat)?;
        let body = &frame.body;
        let subject = match body.borrow_field(TransactionField::ChatSubject) {
            Some(p) => Some(ChatSubject::try_from(p)?),
            None => None,
        };
        let users = read_users(body)?;
        Ok(Self { subject, users })
    }

    /// The frame this is written as.
    pub open spec fn frame_view(self) -> TransactionFrameView {
        frame_of(
            TransactionType::Reply,
            opt_param(
                match self.subject {
                    Some(s) => Some(bytes_param(TransactionField::ChatSubject, s@)),
                    None => None,
                },
            ) + users_params(users_view(self.users@)),
        )
    }

    /// The subject if there is one, then the members, in a reply frame.
    pub fn framed(self) -> (r: TransactionFrame)
        ensures
            r@ == self.frame_view(),
    {
        let JoinChatReply { subject, users } = self;
        let mut v: Vec<Parameter> = Vec::new();
        push_opt(&mut v, match subject {
            Some(s) => Some(s.into_parameter()),
            None => None,
        });
        let ghost before = v@;
        let mut us = users_parameters(users);
        let ghost added = us@;
        v.append(&mut us);
        assert(params_view(v@) =~= params_view(before) + params_view(added));
        TransactionFrame::with_parameters(TransactionType::Reply, v)
    }
}

/// A new subject for a chat room.
#[derive(Debug)]
pub struct SetChatSubject(pub ChatId, pub ChatSubject);

impl SetChatSubject {
    /// The error a frame is refused with, if it is refused.
    pub open spec fn rejects(frame: TransactionFrame) -> Option<ProtocolError> {
        match spec_require_type(frame.header, TransactionType::SetChatSubject) {
            Err(e) => Some(e),
            Ok(_) => match req_i16(frame@.body.parameters, TransactionField::ChatId) {
                Err(e) => Some(e),
                Ok(c) => match req_bytes(frame@.body.parameters, TransactionField::ChatSubject) {
                    Err(e) => Some(e),
                    Ok(_) => None,
                },
            },
        }
    }

    /// Whether `v` is what an accepted frame is read as.
    pub open spec fn accepts(frame: TransactionFrame, v: Self) -> bool {
        match spec_require_type(frame.header, TransactionType::SetChatSubject) {
            Err(_) => false,
            Ok(_) => match req_i16(frame@.body.parameters, TransactionField::ChatId) {
                Err(_) => false,
                Ok(c) => match req_bytes(frame@.body.parameters, TransactionField::ChatSubject) {
                    Err(_) => false,
                    Ok(subject) => v.0.0 == c && v.1@ == subject,
                },
            },
        }
    }

    pub fn try_from(frame: TransactionFrame) -> (r: Result<Self, ProtocolError>)
        ensures
            match Self::rejects(frame) {
                Some(e) => r matches Err(e2) && e2 == e,
                None => r matches Ok(v) && Self::accepts(frame, v),
            },
    {
        let frame = frame.require_transaction_type(TransactionType::SetChatSubject)?;
        let body = &frame.body;
        let chat_id = ChatId::try_from(body.require_field(TransactionField::ChatId)?)?;
        let subject = ChatSubject::try_from(body.require_field(TransactionField::ChatSubject)?)?;
        Ok(Self(chat_id, subject))
    }

    /// The frame this is written as.
    pub open spec fn frame_view(self) -> TransactionFrameView {
        frame_of(
            TransactionType::SetChatSubject,
            seq![
                i16_param(TransactionField::ChatId, self.0.0),
                bytes_param(TransactionField::ChatSubject, self.1@),
            ],
        )
    }

    pub fn framed(self) -> (r: TransactionFrame)
        ensures
            r@ == self.frame_view(),
    {
        let SetChatSubject(chat_id, subject) = self;
        let v = vec![chat_id.into_parameter(), subject.into_parameter()];
        assert(params_view(v@) =~= seq![v@[0]@, v@[1]@]);
        TransactionFrame::with_parameters(TransactionType::SetChatSubject, v)
    }
}

/// A request for what a user says of themselves.
#[derive(Debug, Clone, Copy, PartialEq, Eq, Structural)]
pub struct GetClientInfoText {
    pub user_id: UserId,
}

impl GetClientInfoText {
    /// The error a frame is refused with, if it is refused.
    pub open spec fn rejects(frame: TransactionFrame) -> Option<ProtocolError> {
        match spec_require_type(frame.header, TransactionType::GetClientInfoText) {
            Err(e) => Some(e),
            Ok(_) => match req_i16(frame@.body.parameters, TransactionField::UserId) {
                Err(e) => Some(e),
                Ok(_) => None,
            },
        }
    }

    /// Whether `v` is what an accepted frame is read as.
    pub open spec fn accepts(frame: TransactionFrame, v: Self) -> bool {
        match spec_require_type(frame.header, TransactionType::GetClientInfoText) {
            Err(_) => false,
            Ok(_) => match req_i16(frame@.body.parameters, TransactionField::UserId) {
                Err(_) => false,
                Ok(u) => v.user_id.0 == u,
            },
        }
    }

    pub fn try_from(frame: TransactionFrame) -> (r: Result<Self, ProtocolError>)
        ensures
            match Self::rejects(frame) {
                Some(e) => r matches Err(e2) && e2 == e,
                None => r matches Ok(v) && Self::accepts(frame, v),
            },
    {
        let frame = frame.require_transaction_type(TransactionType::GetClientInfoText)?;
        let user_id = UserId::try_from(frame.body.require_field(TransactionField::UserId)?)?;
        Ok(Self { user_id })
    }

    /// The frame this is written as.
    pub open spec fn frame_view(self) -> TransactionFrameView {
        frame_of(
            TransactionType::GetClientInfoText,
            seq![i16_param(TransactionField::UserId, self.user_id.0)],
        )
    }

    pub fn framed(self) -> (r: TransactionFrame)
        ensures
            r@ == self.frame_view(),
    {
        let v = vec![self.user_id.into_parameter()];
        assert(params_view(v@) =~= seq![v@[0]@]);
        TransactionFrame::with_parameters(TransactionType::GetClientInfoText, v)
    }
}

/// A user's name and the text about them.
#[derive(Debug)]
pub struct GetClientInfoTextReply {
    pub user_name: Nickname,
    pub text: Vec<u8>,
}

impl GetClientInfoTextReply {
    pub fn try_from(frame: TransactionFrame) -> (r: Result<Self, ProtocolError>)
        ensures
            match spec_require_type(frame.header, TransactionType::GetClientInfoText) {
                Err(e) => r matches Err(e2) && e2 == e,
                Ok(_) => match req_bytes(frame@.body.parameters, TransactionField::UserName) {
                    Err(e) => r matches Err(e2) && e2 == e,
                    Ok(name) => match req_bytes(frame@.body.parameters, TransactionField::Data) {
                        Err(e) => r matches Err(e2) && e2 == e,
                        Ok(text) => r matches Ok(v) && v.user_name@ == name && v.text@ == text,
                    },
                },
            },
    {
        let frame = frame.require_transaction_type(TransactionType::GetClientInfoText)?;
        let body = &frame.body;
        let user_name = Nickname::try_from(body.require_field(TransactionField::UserName)?)?;
        let text = body.require_field(TransactionField::Data)?.duplicate().take();
        Ok(Self { user_name, text })
    }

    /// The frame this is written as.
    pub open spec fn frame_view(self) -> TransactionFrameView {
        frame_of(
            TransactionType::GetClientInfoText,
            seq![
                bytes_param(TransactionField::UserName, self.user_name@),
                bytes_param(TransactionField::Data, self.text@),
            ],
        )
    }

    pub fn framed(self) -> (r: TransactionFrame)
        ensures
            r@ == self.frame_view(),
    {
        let v = vec![self.user_name.into_parameter(), Parameter::new_data(self.text)];
        assert(params_view(v@) =~= seq![v@[0]@, v@[1]@]);
        TransactionFrame::with_parameters(TransactionType::GetClientInfoText, v)
    }
}

/// A message to every connected user.
#[derive(Debug)]
pub struct SendBroadcast {
    pub message: Vec<u8>,
}

impl SendBroadcast {
    /// The error a frame is refused with, if it is refused.
    pub open spec fn rejects(frame: TransactionFrame) -> Option<ProtocolError> {
        match spec_require_type(frame.header, TransactionType::UserBroadcast) {
            Err(e) => Some(e),
            Ok(_) => match req_bytes(frame@.body.parameters, TransactionField::Data) {
                Err(e) => Some(e),
                Ok(_) => None,
            },
        }
    }

    /// Whether `v` is what an accepted frame is read as.
    pub open spec fn accepts(frame: TransactionFrame, v: Self) -> bool {
        match spec_require_type(frame.header, TransactionType::UserBroadcast) {
            Err(_) => false,
            Ok(_) => match req_bytes(frame@.body.parameters, TransactionField::Data) {
                Err(_) => false,
                Ok(m) => v.message@ == m,
            },
        }
    }

    pub fn try_from(frame: TransactionFrame) -> (r: Result<Self, ProtocolError>)
        ensures
            match Self::rejects(frame) {
                Some(e) => r matches Err(e2) && e2 == e,
                None => r matches Ok(v) && Self::accepts(frame, v),
            },
    {
        let frame = frame.require_transaction_type(TransactionType::UserBroadcast)?;
        let message = frame.body.require_field(TransactionField::Data)?.duplicate().take();
        Ok(Self { message })
    }

    /// The frame this is written as.
    pub open spec fn frame_view(self) -> TransactionFrameView {
        frame_of(
            TransactionType::GetClientInfoText,
            seq![bytes_param(TransactionField::Data, self.message@)],
        )
    }

    /// The message, in a frame of the client-information type.
    pub fn framed(self) -> (r: TransactionFrame)
        ensures
            r@ == self.frame_view(),
    {
        let v = vec![Parameter::new_data(self.message)];
        assert(params_view(v@) =~= seq![v@[0]@]);
        TransactionFrame::with_parameters(TransactionType::GetClientInfoText, v)
    }
}

/// An answer that carries nothing.
pub struct GenericReply;

impl GenericReply {
    pub fn try_from(frame: TransactionFrame) -> (r: Result<Self, ProtocolError>)
        ensures
            match spec_require_type(frame.header, TransactionType::Reply) {
                Ok(_) => r is Ok,
                Err(e) => r matches Err(e2) && e2 == e,
            },
    {
        frame.require_transaction_type(TransactionType::Reply)?;
        Ok(Self)
    }

    /// The frame this is written as.
    pub open spec fn frame_view(self) -> TransactionFrameView {
        super::transaction::empty_frame(TransactionType::Error)
    }

    /// An empty frame with the default header.
    pub fn framed(self) -> (r: TransactionFrame)
        ensures
            r@ == self.frame_view(),
    {
        TransactionFrame::empty(TransactionHeader::default())
    }
}

/// The login, password, name and access of an account, as a request of type
/// `t` carries them.
pub open spec fn spec_account(
    f: TransactionFrameView,
    t: TransactionType,
) -> Result<(Seq<u8>, Seq<u8>, Seq<u8>, i64), ProtocolError> {
    let ps = f.body.parameters;
    match spec_require_type(f.header, t) {
        Err(e) => Err(e),
        Ok(_) => match req_bytes(ps, TransactionField::UserLogin) {
            Err(e) => Err(e),
            Ok(login) => match req_bytes(ps, TransactionField::UserPassword) {
                Err(e) => Err(e),
                Ok(password) => match req_bytes(ps, TransactionField::UserName) {
                    Err(e) => Err(e),
                    Ok(name) => match req_i64(ps, TransactionField::UserAccess) {
                        Err(e) => Err(e),
                        Ok(access) => Ok((login, password, name, access)),
                    },
                },
            },
        },
    }
}

/// The parameters of an account.
pub open spec fn account_params(login: Seq<u8>, password: Seq<u8>, name: Seq<u8>, access: i64) -> Seq<ParameterView> {
    seq![
        bytes_param(TransactionField::UserLogin, login),
        bytes_param(TransactionField::UserPassword, password),
        bytes_param(TransactionField::UserName, name),
        i64_param(TransactionField::UserAccess, access),
    ]
}

fn read_account(frame: TransactionFrame, t: TransactionType) -> (r: Result<(UserLogin, Password, Nickname, UserAccess), ProtocolError>)
    ensures
        match spec_account(frame@, t) {
            Err(e) => r matches Err(e2) && e2 == e,
            Ok((l, p, n, a)) => r matches Ok((l2, p2, n2, a2)) && l2@ == l && p2@ == p && n2@ == n && a2.0 == a,
        },
{
    let frame = frame.require_transaction_type(t)?;
    let body = &frame.body;
    let login = UserLogin::try_from(body.require_field(TransactionField::UserLogin)?)?;
    let password = Password::try_from(body.require_field(TransactionField::UserPassword)?)?;
    let name = Nickname::try_from(body.require_field(TransactionField::UserName)?)?;
    let access = UserAccess::try_from(body.require_field(TransactionField::UserAccess)?)?;
    Ok((login, password, name, access))
}

fn account_frame(t: TransactionType, login: UserLogin, password: Password, name: Nickname, access: UserAccess) -> (r: TransactionFrame)
    ensures
        r@ == frame_of(t, account_params(login@, password@, name@, access.0)),
{
    let v = vec![
        login.into_parameter(),
        password.into_parameter(),
        name.into_parameter(),
        access.into_parameter(),
    ];
    assert(params_view(v@) =~= seq![v@[0]@, v@[1]@, v@[2]@, v@[3]@]);
    TransactionFrame::with_parameters(t, v)
}

/// A request to create an account.
#[derive(Debug)]
pub struct NewUser {
    pub login: UserLogin,
    pub password: Password,
    pub name: Nickname,
    pub access: UserAccess,
}

impl NewUser {
    /// The error a frame is refused with, if it is refused.
    pub open spec fn rejects(frame: TransactionFrame) -> Option<ProtocolError> {
        match spec_account(frame@, TransactionType::NewUser) {
            Err(e) => Some(e),
            Ok((l, p, n, a)) => None,
        }
    }

    /// Whether `v` is what an accepted frame is read as.
    pub open spec fn accepts(frame: TransactionFrame, v: Self) -> bool {
        match spec_account(frame@, TransactionType::NewUser) {
            Err(_) => false,
            Ok((l, p, n, a)) => v.login@ == l && v.password@ == p && v.name@ == n
                && v.access.0 == a,
        }
    }

    pub fn try_from(frame: TransactionFrame) -> (r: Result<Self, ProtocolError>)
        ensures
            match Self::rejects(frame) {
                Some(e) => r matches Err(e2) && e2 == e,
                None => r matches Ok(v) && Self::accepts(frame, v),
            },
    {
        let (login, password, name, access) = read_account(frame, TransactionType::NewUser)?;
        Ok(Self { login, password, name, access })
    }

    /// The frame this is written as.
    pub open spec fn frame_view(self) -> TransactionFrameView {
        frame_of(
            TransactionType::NewUser,
            account_params(self.login@, self.password@, self.name@, self.access.0),
        )
    }

    pub fn framed(self) -> (r: TransactionFrame)
        ensures
            r@ == self.frame_view(),
    {
        account_frame(TransactionType::NewUser, self.login, self.password, self.name, self.access)
    }
}

/// A request to change an account.
#[derive(Debug)]
pub struct SetUser {
    pub login: UserLogin,
    pub password: Password,
    pub name: Nickname,
    pub access: UserAccess,
}

impl SetUser {
    /// The error a frame is refused with, if it is refused.
    pub open spec fn rejects(frame: TransactionFrame) -> Option<ProtocolError> {
        match spec_account(frame@, TransactionType::SetUser) {
            Err(e) => Some(e),
            Ok((l, p, n, a)) => None,
        }
    }

    /// Whether `v` is what an accepted frame is read as.
    pub open spec fn accepts(frame: TransactionFrame, v: Self) -> bool {
        match spec_account(frame@, TransactionType::SetUser) {
            Err(_) => false,
            Ok((l, p, n, a)) => v.login@ == l && v.password@ == p && v.name@ == n
                && v.access.0 == a,
        }
    }

    pub fn try_from(frame: TransactionFrame) -> (r: Result<Self, ProtocolError>)
        ensures
            match Self::rejects(frame) {
                Some(e) => r matches Err(e2) && e2 == e,
                None => r matches Ok(v) && Self::accepts(frame, v),
            },
    {
        let (login, password, name, access) = read_account(frame, TransactionType::SetUser)?;
        Ok(Self { login, password, name, access })
    }

    /// The frame this is written as.
    pub open spec fn frame_view(self) -> TransactionFrameView {
        frame_of(
            TransactionType::SetUser,
            account_params(self.login@, self.password@, self.name@, self.access.0),
        )
    }

    pub fn framed(self) -> (r: TransactionFrame)
        ensures
            r@ == self.frame_view(),
    {
        account_frame(TransactionType::SetUser, self.login, self.password, self.name, self.access)
    }
}

/// The login of a request of type `t` that names one account.
fn read_login(frame: TransactionFrame, t: TransactionType) -> (r: Result<UserLogin, ProtocolError>)
    ensures
        match spec_require_type(frame.header, t) {
            Err(e) => r matches Err(e2) && e2 == e,
            Ok(_) => match req_bytes(frame@.body.parameters, TransactionField::UserLogin) {
                Err(e) => r matches Err(e2) && e2 == e,
                Ok(l) => r matches Ok(v) && v@ == l,
            },
        },
{
    let frame = frame.require_transaction_type(t)?;
    let data = frame.body.require_field(TransactionField::UserLogin)?.duplicate().take();
    Ok(UserLogin::new(data))
}

/// A request to delete an account.
#[derive(Debug)]
pub struct DeleteUser(pub UserLogin);

impl DeleteUser {
    /// The error a frame is refused with, if it is refused.
    pub open spec fn rejects(frame: TransactionFrame) -> Option<ProtocolError> {
        match spec_require_type(frame.header, TransactionType::DeleteUser) {
            Err(e) => Some(e),
            Ok(_) => match req_bytes(frame@.body.parameters, TransactionField::UserLogin) {
                Err(e) => Some(e),
                Ok(_) => None,
            },
        }
    }

    /// Whether `v` is what an accepted frame is read as.
    pub open spec fn accepts(frame: TransactionFrame, v: Self) -> bool {
        match spec_require_type(frame.header, TransactionType::DeleteUser) {
            Err(_) => false,
            Ok(_) => match req_bytes(frame@.body.parameters, TransactionField::UserLogin) {
                Err(_) => false,
                Ok(l) => v.0@ == l,
            },
        }
    }

    pub fn try_from(frame: TransactionFrame) -> (r: Result<Self, ProtocolError>)
        ensures
            match Self::rejects(frame) {
                Some(e) => r matches Err(e2) && e2 == e,
                None => r matches Ok(v) && Self::accepts(frame, v),
            },
    {
        Ok(Self(read_login(frame, TransactionType::DeleteUser)?))
    }

    /// The frame this is written as.
    pub open spec fn frame_view(self) -> TransactionFrameView {
        frame_of(TransactionType::DeleteUser, seq![bytes_param(TransactionField::UserLogin, self.0@)])
    }

    pub fn framed(self) -> (r: TransactionFrame)
        ensures
            r@ == self.frame_view(),
    {
        let v = vec![self.0.into_parameter()];
        assert(params_view(v@) =~= seq![v@[0]@]);
        TransactionFrame::with_parameters(TransactionType::DeleteUser, v)
    }
}

/// A request for an account.
#[derive(Debug)]
pub struct GetUser(pub UserLogin);

impl GetUser {
    /// The error a frame is refused with, if it is refused.
    pub open spec fn rejects(frame: TransactionFrame) -> Option<ProtocolError> {
        match spec_require_type(frame.header, TransactionType::GetUser) {
            Err(e) => Some(e),
            Ok(_) => match req_bytes(frame@.body.parameters, TransactionField::UserLogin) {
                Err(e) => Some(e),
                Ok(_) => None,
            },
        }
    }

    /// Whether `v` is what an accepted frame is read as.
    pub open spec fn accepts(frame: TransactionFrame, v: Self) -> bool {
        match spec_require_type(frame.header, TransactionType::GetUser) {
            Err(_) => false,
            Ok(_) => match req_bytes(frame@.body.parameters, TransactionField::UserLogin) {
                Err(_) => false,
                Ok(l) => v.0@ == l,
            },
        }
    }

    pub fn try_from(frame: TransactionFrame) -> (r: Result<Self, ProtocolError>)
        ensures
            match Self::rejects(frame) {
                Some(e) => r matches Err(e2) && e2 == e,
                None => r matches Ok(v) && Self::accepts(frame, v),
            },
    {
        Ok(Self(read_login(frame, TransactionType::GetUser)?))
    }

    /// The frame this is written as.
    pub open spec fn frame_view(self) -> TransactionFrameView {
        frame_of(TransactionType::GetUser, seq![bytes_param(TransactionField::UserLogin, self.0@)])
    }

    pub fn framed(self) -> (r: TransactionFrame)
        ensures
            r@ == self.frame_view(),
    {
        let v = vec![self.0.into_parameter()];
        assert(params_view(v@) =~= seq![v@[0]@]);
        TransactionFrame::with_parameters(TransactionType::GetUser, v)
    }
}

/// An account as it is shown to an administrator.
#[derive(Debug)]
pub struct GetUserReply {
    pub username: Nickname,
    pub user_login: UserLogin,
    pub user_password: Password,
    pub user_access: UserAccess,
}

impl GetUserReply {
    pub fn try_from(frame: TransactionFrame) -> (r: Result<Self, ProtocolError>)
        ensures
            match spec_require_type(frame.header, TransactionType::GetUser) {
                Err(e) => r matches Err(e2) && e2 == e,
                Ok(_) => match req_bytes(frame@.body.parameters, TransactionField::UserName) {
                    Err(e) => r matches Err(e2) && e2 == e,
                    Ok(n) => match req_bytes(frame@.body.parameters, TransactionField::UserLogin) {
                        Err(e) => r matches Err(e2) && e2 == e,
                        Ok(l) => match req_bytes(frame@.body.parameters, TransactionField::UserPassword) {
                            Err(e) => r matches Err(e2) && e2 == e,
                            Ok(p) => match req_i64(frame@.body.parameters, TransactionField::UserAccess) {
                                Err(e) => r matches Err(e2) && e2 == e,
                                Ok(a) => r matches Ok(v) && v.username@ == n && v.user_login@ == l
                                    && v.user_password@ == p && v.user_access.0 == a,
                            },
                        },
                    },
                },
            },
    {
        let frame = frame.require_transaction_type(TransactionType::GetUser)?;
        let body = &frame.body;
        let username = Nickname::try_from(body.require_field(TransactionField::UserName)?)?;
        let user_login = UserLogin::try_from(body.require_field(TransactionField::UserLogin)?)?;
        let user_password = Password::try_from(body.require_field(TransactionField::UserPassword)?)?;
        let user_access = UserAccess::try_from(body.require_field(TransactionField::UserAccess)?)?;
        Ok(Self { username, user_login, user_password, user_access })
    }

    /// The frame this is written as.
    pub open spec fn frame_view(self) -> TransactionFrameView {
        frame_of(
            TransactionType::GetUser,
            seq![
                bytes_param(TransactionField::UserName, self.username@),
                bytes_param(TransactionField::UserLogin, self.user_login@),
                bytes_param(TransactionField::UserPassword, self.user_password@),
                i64_param(TransactionField::UserAccess, self.user_access.0),
            ],
        )
    }

    /// The name, login, password and access of the account.
    pub fn framed(self) -> (r: TransactionFrame)
        ensures
            r@ == self.frame_view(),
    {
        let v = vec![
            self.username.into_parameter(),
            self.user_login.into_parameter(),
            self.user_password.into_parameter(),
            self.user_access.into_parameter(),
        ];
        assert(params_view(v@) =~= seq![v@[0]@, v@[1]@, v@[2]@, v@[3]@]);
        TransactionFrame::with_parameters(TransactionType::GetUser, v)
    }
}

/// The file and folder a file request of type `t` names; the folder must be
/// readable when it is given.
pub open spec fn spec_file_request(f: TransactionFrameView, t: TransactionType) -> Result<(Seq<u8>, FilePathView), ProtocolError> {
    match spec_require_type(f.header, t) {
        Err(e) => Err(e),
        Ok(_) => match req_bytes(f.body.parameters, TransactionField::FileName) {
            Err(e) => Err(e),
            Ok(name) => match path_field(f.body.parameters) {
                Err(e) => Err(e),
                Ok(p) => Ok((name, p)),
            },
        },
    }
}

/// The file and folder a file request of type `t` names; an unreadable or
/// missing folder is the root.
pub open spec fn spec_lenient_file_request(f: TransactionFrameView, t: TransactionType) -> Result<(Seq<u8>, FilePathView), ProtocolError> {
    match spec_require_type(f.header, t) {
        Err(e) => Err(e),
        Ok(_) => match req_bytes(f.body.parameters, TransactionField::FileName) {
            Err(e) => Err(e),
            Ok(name) => Ok((name, path_or_root(f.body.parameters))),
        },
    }
}

fn read_file_request(frame: TransactionFrame, t: TransactionType) -> (r: Result<(FileName, FilePath, TransactionBody), ProtocolError>)
    ensures
        match spec_file_request(frame@, t) {
            Err(e) => r matches Err(e2) && e2 == e,
            Ok((n, p)) => r matches Ok((n2, p2, b)) && n2@ == n && p2@ == p && b@ == frame@.body,
        },
{
    let frame = frame.require_transaction_type(t)?;
    let body = frame.body;
    let filename = FileName::from_parameter(body.require_field(TransactionField::FileName)?);
    let path = path_parameter(&body)?;
    Ok((filename, path, body))
}

fn read_lenient_file_request(frame: TransactionFrame, t: TransactionType) -> (r: Result<(FileName, FilePath, TransactionBody), ProtocolError>)
    ensures
        match spec_lenient_file_request(frame@, t) {
            Err(e) => r matches Err(e2) && e2 == e,
            Ok((n, p)) => r matches Ok((n2, p2, b)) && n2@ == n && p2@ == p && b@ == frame@.body,
        },
{
    let frame = frame.require_transaction_type(t)?;
    let body = frame.body;
    let filename = FileName::from_parameter(body.require_field(TransactionField::FileName)?);
    let path = match path_parameter(&body) {
        Ok(p) => p,
        Err(_) => FilePath::Root,
    };
    Ok((filename, path, body))
}

/// The path in a body's new-path parameter, or the root when it is missing
/// or unreadable.
fn new_path_parameter(body: &TransactionBody) -> (r: FilePath)
    ensures
        r@ == new_path_or_root(body@.parameters),
{
    match body.borrow_field(TransactionField::FileNewPath) {
        Some(p) => match FilePath::try_from_bytes(p.field_data.as_slice()) {
            Ok(path) => path,
            Err(_) => FilePath::Root,
        },
        None => FilePath::Root,
    }
}

/// The frame of type `t` naming a file and then each folder that is not the
/// root.
fn file_frame(t: TransactionType, filename: FileName, path: FilePath, other: FilePath) -> (r: TransactionFrame)
    ensures
        r@ == frame_of(
            t,
            seq![bytes_param(TransactionField::FileName, filename@)] + path_params(path@) + path_params(
                other@,
            ),
        ),
{
    let mut v: Vec<Parameter> = Vec::new();
    v.push(filename.into_parameter());
    assert(params_view(v@) =~= seq![v@[0]@]);
    push_path(&mut v, path);
    push_path(&mut v, other);
    TransactionFrame::with_parameters(t, v)
}

/// A request to download a file.
#[derive(Debug)]
pub struct DownloadFile {
    pub filename: FileName,
    pub file_path: FilePath,
}

impl DownloadFile {
    /// The error a frame is refused with, if it is refused.
    pub open spec fn rejects(frame: TransactionFrame) -> Option<ProtocolError> {
        match spec_file_request(frame@, TransactionType::DownloadFile) {
            Err(e) => Some(e),
            Ok((n, p)) => None,
        }
    }

    /// Whether `v` is what an accepted frame is read as.
    pub open spec fn accepts(frame: TransactionFrame, v: Self) -> bool {
        match spec_file_request(frame@, TransactionType::DownloadFile) {
            Err(_) => false,
            Ok((n, p)) => v.filename@ == n && v.file_path@ == p,
        }
    }

    pub fn try_from(frame: TransactionFrame) -> (r: Result<Self, ProtocolError>)
        ensures
            match Self::rejects(frame) {
                Some(e) => r matches Err(e2) && e2 == e,
                None => r matches Ok(v) && Self::accepts(frame, v),
            },
    {
        let (filename, file_path, _) = read_file_request(frame, TransactionType::DownloadFile)?;
        Ok(Self { filename, file_path })
    }

    /// The frame this is written as.
    pub open spec fn frame_view(self) -> TransactionFrameView {
        frame_of(
            TransactionType::DownloadFile,
            seq![bytes_param(TransactionField::FileName, self.filename@)] + path_params(self.file_path@),
        )
    }

    pub fn framed(self) -> (r: TransactionFrame)
        ensures
            r@ == self.frame_view(),
    {
        let r = file_frame(TransactionType::DownloadFile, self.filename, self.file_path, FilePath::Root);
        assert(r@.body.parameters =~= seq![bytes_param(TransactionField::FileName, self.filename@)] + path_params(self.file_path@));
        r
    }
}

/// The answer to a download request: how much will be sent and how to ask
/// for it.
#[derive(Debug, Clone, Copy, PartialEq, Eq, Structural)]
pub struct DownloadFileReply {
    pub transfer_size: TransferSize,
    pub file_size: FileSize,
    pub reference: ReferenceNumber,
    pub waiting_count: Option<WaitingCount>,
}

/// The waiting count, zero when unknown.
pub open spec fn waiting_or_zero(w: Option<WaitingCount>) -> i32 {
    match w {
        Some(c) => c.0,
        None => 0,
    }
}

impl DownloadFileReply {
    /// Reads any frame: the transfer size and reference must be there, a
    /// missing or unreadable file size is zero.
    pub fn try_from(frame: TransactionFrame) -> (r: Result<Self, ProtocolError>)
        ensures
            match req_i32(frame@.body.parameters, TransactionField::TransferSize) {
                Err(e) => r matches Err(e2) && e2 == e,
                Ok(t) => match req_i32(frame@.body.parameters, TransactionField::ReferenceNumber) {
                    Err(e) => r matches Err(e2) && e2 == e,
                    Ok(reference) => match opt_i32(frame@.body.parameters, TransactionField::WaitingCount) {
                        Err(e) => r matches Err(e2) && e2 == e,
                        Ok(w) => r matches Ok(v) && v.transfer_size.0 == t && v.reference.0 == reference
                            && v.file_size.0 == (match req_i32(frame@.body.parameters, TransactionField::FileSize) {
                                Ok(s) => s,
                                Err(_) => 0,
                            }) && (match v.waiting_count {
                                Some(c) => Some(c.0),
                                None => None,
                            }) == w,
                    },
                },
            },
    {
        let body = &frame.body;
        let transfer_size = TransferSize::try_from(body.require_field(TransactionField::TransferSize)?)?;
        let file_size = match body.require_field(TransactionField::FileSize) {
            Ok(p) => match FileSize::try_from(p) {
                Ok(s) => s,
                Err(_) => FileSize::default(),
            },
            Err(_) => FileSize::default(),
        };
        let reference = ReferenceNumber::try_from(body.require_field(TransactionField::ReferenceNumber)?)?;
        let waiting_count = match body.borrow_field(TransactionField::WaitingCount) {
            Some(p) => Some(WaitingCount::try_from(p)?),
            None => None,
        };
        Ok(Self { transfer_size, file_size, reference, waiting_count })
    }

    /// The frame this is written as.
    pub open spec fn frame_view(self) -> TransactionFrameView {
        frame_of(
            TransactionType::DownloadFile,
            seq![
                i32_param(TransactionField::TransferSize, self.transfer_size.0),
                i32_param(TransactionField::FileSize, self.file_size.0),
                i32_param(TransactionField::ReferenceNumber, self.reference.0),
                i32_param(TransactionField::WaitingCount, waiting_or_zero(self.waiting_count)),
            ],
        )
    }

    /// The sizes, the reference and the waiting count, zero when unknown.
    pub fn framed(self) -> (r: TransactionFrame)
        ensures
            r@ == self.frame_view(),
    {
        let waiting = match self.waiting_count {
            Some(c) => c,
            None => WaitingCount(0),
        };
        let v = vec![
            self.transfer_size.into_parameter(),
            self.file_size.into_parameter(),
            self.reference.into_parameter(),
            waiting.into_parameter(),
        ];
        assert(params_view(v@) =~= seq![v@[0]@, v@[1]@, v@[2]@, v@[3]@]);
        TransactionFrame::with_parameters(TransactionType::DownloadFile, v)
    }
}

/// The server's note of a queued download: the reference to fetch it with
/// and how many transfers wait before it, sent as transaction number 211.
#[derive(Debug, Clone, Copy, PartialEq, Eq, Structural)]
pub struct DownloadInfo {
    pub reference: ReferenceNumber,
    pub waiting_count: WaitingCount,
}

impl DownloadInfo {
    /// The frame this is written as.
    pub open spec fn frame_view(self) -> TransactionFrameView {
        frame_of(
            TransactionType::DownloadBanner,
            seq![
                i32_param(TransactionField::ReferenceNumber, self.reference.0),
                i32_param(TransactionField::WaitingCount, self.waiting_count.0),
            ],
        )
    }

    /// The reference, then the waiting count.
    pub fn framed(self) -> (r: TransactionFrame)
        ensures
            r@ == self.frame_view(),
    {
        let v = vec![self.reference.into_parameter(), self.waiting_count.into_parameter()];
        assert(params_view(v@) =~= seq![v@[0]@, v@[1]@]);
        TransactionFrame::with_parameters(TransactionType::DownloadBanner, v)
    }
}

/// A request to upload a file.
#[derive(Debug)]
pub struct UploadFile {
    pub filename: FileName,
    pub file_path: FilePath,
}

impl UploadFile {
    /// The error a frame is refused with, if it is refused.
    pub open spec fn rejects(frame: TransactionFrame) -> Option<ProtocolError> {
        match spec_file_request(frame@, TransactionType::UploadFile) {
            Err(e) => Some(e),
            Ok((n, p)) => None,
        }
    }

    /// Whether `v` is what an accepted frame is read as.
    pub open spec fn accepts(frame: TransactionFrame, v: Self) -> bool {
        match spec_file_request(frame@, TransactionType::UploadFile) {
            Err(_) => false,
            Ok((n, p)) => v.filename@ == n && v.file_path@ == p,
        }
    }

    pub fn try_from(frame: TransactionFrame) -> (r: Result<Self, ProtocolError>)
        ensures
            match Self::rejects(frame) {
                Some(e) => r matches Err(e2) && e2 == e,
                None => r matches Ok(v) && Self::accepts(frame, v),
            },
    {
        let (filename, file_path, _) = read_file_request(frame, TransactionType::UploadFile)?;
        Ok(Self { filename, file_path })
    }

    /// The frame this is written as.
    pub open spec fn frame_view(self) -> TransactionFrameView {
        frame_of(
            TransactionType::UploadFile,
            seq![bytes_param(TransactionField::FileName, self.filename@)] + path_params(self.file_path@),
        )
    }

    pub fn framed(self) -> (r: TransactionFrame)
        ensures
            r@ == self.frame_view(),
    {
        let r = file_frame(TransactionType::UploadFile, self.filename, self.file_path, FilePath::Root);
        assert(r@.body.parameters =~= seq![bytes_param(TransactionField::FileName, self.filename@)] + path_params(self.file_path@));
        r
    }
}

/// The answer to an upload request.
#[derive(Debug, Clone, Copy, PartialEq, Eq, Structural)]
pub struct UploadFileReply {
    pub reference: ReferenceNumber,
}

impl UploadFileReply {
    /// Reads the reference of any frame.
    pub fn try_from(frame: TransactionFrame) -> (r: Result<Self, ProtocolError>)
        ensures
            match req_i32(frame@.body.parameters, TransactionField::ReferenceNumber) {
                Err(e) => r matches Err(e2) && e2 == e,
                Ok(reference) => r matches Ok(v) && v.reference.0 == reference,
            },
    {
        let reference = ReferenceNumber::try_from(frame.body.require_field(TransactionField::ReferenceNumber)?)?;
        Ok(Self { reference })
    }

    /// The frame this is written as.
    pub open spec fn frame_view(self) -> TransactionFrameView {
        frame_of(
            TransactionType::UploadFile,
            seq![i32_param(TransactionField::ReferenceNumber, self.reference.0)],
        )
    }

    pub fn framed(self) -> (r: TransactionFrame)
        ensures
            r@ == self.frame_view(),
    {
        let v = vec![self.reference.into_parameter()];
        assert(params_view(v@) =~= seq![v@[0]@]);
        TransactionFrame::with_parameters(TransactionType::UploadFile, v)
    }
}

/// A message that keeps a connection open.
#[derive(Debug, PartialEq, Eq, Structural)]
pub struct ConnectionKeepAlive;

impl ConnectionKeepAlive {
    pub fn try_from(frame: TransactionFrame) -> (r: Result<Self, ProtocolError>)
        ensures
            r == (match spec_require_type(frame.header, TransactionType::ConnectionKeepAlive) {
                Ok(_) => Ok::<Self, ProtocolError>(ConnectionKeepAlive),
                Err(e) => Err(e),
            }),
    {
        frame.require_transaction_type(TransactionType::ConnectionKeepAlive)?;
        Ok(Self)
    }

    pub fn into_body(self) -> (r: TransactionBody)
        ensures
            r@ == body_of(Seq::empty()),
    {
        TransactionBody::empty()
    }
}

/// A request to move a file to another folder.
#[derive(Debug)]
pub struct MoveFile {
    pub filename: FileName,
    pub path: FilePath,
    pub new_path: FilePath,
}

impl MoveFile {
    /// The error a frame is refused with, if it is refused.
    pub open spec fn rejects(frame: TransactionFrame) -> Option<ProtocolError> {
        match spec_lenient_file_request(frame@, TransactionType::MoveFile) {
            Err(e) => Some(e),
            Ok((n, p)) => None,
        }
    }

    /// Whether `v` is what an accepted frame is read as.
    pub open spec fn accepts(frame: TransactionFrame, v: Self) -> bool {
        match spec_lenient_file_request(frame@, TransactionType::MoveFile) {
            Err(_) => false,
            Ok((n, p)) => v.filename@ == n && v.path@ == p && v.new_path@
                == new_path_or_root(frame@.body.parameters),
        }
    }

    pub fn try_from(frame: TransactionFrame) -> (r: Result<Self, ProtocolError>)
        ensures
            match Self::rejects(frame) {
                Some(e) => r matches Err(e2) && e2 == e,
                None => r matches Ok(v) && Self::accepts(frame, v),
            },
    {
        let (filename, path, body) = read_lenient_file_request(frame, TransactionType::MoveFile)?;
        let new_path = new_path_parameter(&body);
        Ok(Self { filename, path, new_path })
    }

    /// The frame this is written as.
    pub open spec fn frame_view(self) -> TransactionFrameView {
        frame_of(
            TransactionType::UploadFile,
            seq![bytes_param(TransactionField::FileName, self.filename@)] + path_params(self.path@)
                + path_params(self.new_path@),
        )
    }

    /// The file, then both folders as paths, in a frame of the upload type.
    pub fn framed(self) -> (r: TransactionFrame)
        ensures
            r@ == self.frame_view(),
    {
        file_frame(TransactionType::UploadFile, self.filename, self.path, self.new_path)
    }
}

/// The answer to a move.
#[derive(Debug, Clone, Copy, PartialEq, Eq, Structural)]
pub struct MoveFileReply;

impl MoveFileReply {
    pub fn try_from(frame: TransactionFrame) -> (r: Result<Self, ProtocolError>)
        ensures
            r == (match spec_require_type(frame.header, TransactionType::MoveFile) {
                Ok(_) => Ok::<Self, ProtocolError>(MoveFileReply),
                Err(e) => Err(e),
            }),
    {
        frame.require_transaction_type(TransactionType::MoveFile)?;
        Ok(Self)
    }

    /// The frame this is written as.
    pub open spec fn frame_view(self) -> TransactionFrameView {
        super::transaction::empty_frame(TransactionType::MoveFile)
    }

    pub fn framed(self) -> (r: TransactionFrame)
        ensures
            r@ == self.frame_view(),
    {
        TransactionFrame::empty_of(TransactionType::MoveFile)
    }
}

/// A request to delete a file.
#[derive(Debug)]
pub struct DeleteFile {
    pub filename: FileName,
    pub path: FilePath,
}

impl DeleteFile {
    /// The error a frame is refused with, if it is refused.
    pub open spec fn rejects(frame: TransactionFrame) -> Option<ProtocolError> {
        match spec_lenient_file_request(frame@, TransactionType::DeleteFile) {
            Err(e) => Some(e),
            Ok((n, p)) => None,
        }
    }

    /// Whether `v` is what an accepted frame is read as.
    pub open spec fn accepts(frame: TransactionFrame, v: Self) -> bool {
        match spec_lenient_file_request(frame@, TransactionType::DeleteFile) {
            Err(_) => false,
            Ok((n, p)) => v.filename@ == n && v.path@ == p,
        }
    }

    pub fn try_from(frame: TransactionFrame) -> (r: Result<Self, ProtocolError>)
        ensures
            match Self::rejects(frame) {
                Some(e) => r matches Err(e2) && e2 == e,
                None => r matches Ok(v) && Self::accepts(frame, v),
            },
    {
        let (filename, path, _) = read_lenient_file_request(frame, TransactionType::DeleteFile)?;
        Ok(Self { filename, path })
    }

    /// The frame this is written as.
    pub open spec fn frame_view(self) -> TransactionFrameView {
        frame_of(
            TransactionType::DeleteFile,
            seq![bytes_param(TransactionField::FileName, self.filename@)] + path_params(self.path@),
        )
    }

    pub fn framed(self) -> (r: TransactionFrame)
        ensures
            r@ == self.frame_view(),
    {
        let r = file_frame(TransactionType::DeleteFile, self.filename, self.path, FilePath::Root);
        assert(r@.body.parameters =~= seq![bytes_param(TransactionField::FileName, self.filename@)] + path_params(self.path@));
        r
    }
}

/// The answer to a deletion.
#[derive(Debug, Clone, Copy, PartialEq, Eq, Structural)]
pub struct DeleteFileReply;

impl DeleteFileReply {
    pub fn try_from(frame: TransactionFrame) -> (r: Result<Self, ProtocolError>)
        ensures
            r == (match spec_require_type(frame.header, TransactionType::DeleteFile) {
                Ok(_) => Ok::<Self, ProtocolError>(DeleteFileReply),
                Err(e) => Err(e),
            }),
    {
        frame.require_transaction_type(TransactionType::DeleteFile)?;
        Ok(Self)
    }

    /// The frame this is written as.
    pub open spec fn frame_view(self) -> TransactionFrameView {
        super::transaction::empty_frame(TransactionType::DeleteFile)
    }

    pub fn framed(self) -> (r: TransactionFrame)
        ensures
            r@ == self.frame_view(),
    {
        TransactionFrame::empty_of(TransactionType::DeleteFile)
    }
}

/// A request to create a folder.
#[derive(Debug)]
pub struct NewFolder {
    pub filename: FileName,
    pub path: FilePath,
}

impl NewFolder {
    /// The error a frame is refused with, if it is refused.
    pub open spec fn rejects(frame: TransactionFrame) -> Option<ProtocolError> {
        match spec_lenient_file_request(frame@, TransactionType::NewFolder) {
            Err(e) => Some(e),
            Ok((n, p)) => None,
        }
    }

    /// Whether `v` is what an accepted frame is read as.
    pub open spec fn accepts(frame: TransactionFrame, v: Self) -> bool {
        match spec_lenient_file_request(frame@, TransactionType::NewFolder) {
            Err(_) => false,
            Ok((n, p)) => v.filename@ == n && v.path@ == p,
        }
    }

    pub fn try_from(frame: TransactionFrame) -> (r: Result<Self, ProtocolError>)
        ensures
            match Self::rejects(frame) {
                Some(e) => r matches Err(e2) && e2 == e,
                None => r matches Ok(v) && Self::accepts(frame, v),
            },
    {
        let (filename, path, _) = read_lenient_file_request(frame, TransactionType::NewFolder)?;
        Ok(Self { filename, path })
    }

    /// The frame this is written as.
    pub open spec fn frame_view(self) -> TransactionFrameView {
        frame_of(
            TransactionType::NewFolder,
            seq![bytes_param(TransactionField::FileName, self.filename@)] + path_params(self.path@),
        )
    }

    pub fn framed(self) -> (r: TransactionFrame)
        ensures
            r@ == self.frame_view(),
    {
        let r = file_frame(TransactionType::NewFolder, self.filename, self.path, FilePath::Root);
        assert(r@.body.parameters =~= seq![bytes_param(TransactionField::FileName, self.filename@)] + path_params(self.path@));
        r
    }
}

/// A request to make an alias of a file in another folder.
#[derive(Debug)]
pub struct MakeFileAlias {
    pub filename: FileName,
    pub source: FilePath,
    pub target: FilePath,
}

impl MakeFileAlias {
    /// The error a frame is refused with, if it is refused.
    pub open spec fn rejects(frame: TransactionFrame) -> Option<ProtocolError> {
        match spec_lenient_file_request(frame@, TransactionType::MakeFileAlias) {
            Err(e) => Some(e),
            Ok((n, p)) => None,
        }
    }

    /// Whether `v` is what an accepted frame is read as.
    pub open spec fn accepts(frame: TransactionFrame, v: Self) -> bool {
        match spec_lenient_file_request(frame@, TransactionType::MakeFileAlias) {
            Err(_) => false,
            Ok((n, p)) => v.filename@ == n && v.source@ == p && v.target@
                == new_path_or_root(frame@.body.parameters),
        }
    }

    pub fn try_from(frame: TransactionFrame) -> (r: Result<Self, ProtocolError>)
        ensures
            match Self::rejects(frame) {
                Some(e) => r matches Err(e2) && e2 == e,
                None => r matches Ok(v) && Self::accepts(frame, v),
            },
    {
        let (filename, source, body) = read_lenient_file_request(frame, TransactionType::MakeFileAlias)?;
        let target = new_path_parameter(&body);
        Ok(Self { filename, source, target })
    }

    /// The frame this is written as.
    pub open spec fn frame_view(self) -> TransactionFrameView {
        frame_of(
            TransactionType::MakeFileAlias,
            seq![bytes_param(TransactionField::FileName, self.filename@)] + path_params(self.source@)
                + path_params(self.target@),
        )
    }

    pub fn framed(self) -> (r: TransactionFrame)
        ensures
            r@ == self.frame_view(),
    {
        file_frame(TransactionType::MakeFileAlias, self.filename, self.source, self.target)
    }
}

/// The number of forks of a flattened file.
#[derive(Debug, Clone, Copy, PartialEq, Eq, Structural)]
pub struct ForkCount(pub i16);

/// The header of a flattened file: its format, version and fork count.
#[derive(Debug, Clone, Copy, PartialEq, Eq, Structural)]
pub struct FlattenedFileHeader(pub ForkCount);

/// The format tag of a flattened file.
pub open spec fn filp() -> Seq<u8> {
    seq![0x46u8, 0x49u8, 0x4cu8, 0x50u8]
}

/// A flattened file header with this fork count, on the wire.
pub open spec fn flattened_header_bytes(forks: i16) -> Seq<u8> {
    filp() + i16_bytes(1) + Seq::new(16, |i: int| 0u8) + i16_bytes(forks)
}

/// What a flattened file header read from `s` gives: the length taken and
/// the fork count, when `s` starts with the tag and the version is 1.
pub open spec fn parse_flattened_header(s: Seq<u8>) -> Option<(int, i16)> {
    if s.len() >= 24 && s.take(4) == filp() && super::codec::i16_at(s, 4) == 1 {
        Some((24, super::codec::i16_at(s, 22)))
    } else {
        None
    }
}

impl FlattenedFileHeader {
    pub fn into_bytes(self) -> (r: Vec<u8>)
        ensures
            r@ == flattened_header_bytes(self.0.0),
    {
        let mut out: Vec<u8> = vec![0x46u8, 0x49u8, 0x4cu8, 0x50u8];
        super::codec::push_i16(&mut out, 1);
        let mut i: usize = 0;
        while i < 16
            invariant
                0 <= i <= 16,
                out@ == filp() + i16_bytes(1) + Seq::new(i as nat, |j: int| 0u8),
            decreases 16 - i,
        {
            out.push(0u8);
            i = i + 1;
            assert(out@ =~= filp() + i16_bytes(1) + Seq::new(i as nat, |j: int| 0u8));
        }
        super::codec::push_i16(&mut out, self.0.0);
        out
    }

    /// Reads a header at the start of `bytes`, returning the rest.
    pub fn from_bytes(bytes: &[u8]) -> (r: Option<(&[u8], Self)>)
        ensures
            match parse_flattened_header(bytes@) {
                Some((k, forks)) => r matches Some((rest, h)) && rest@ == bytes@.subrange(k, bytes@.len() as int)
                    && h.0.0 == forks,
                None => r is None,
            },
    {
        if bytes.len() < 24 {
            return None;
        }
        if !(bytes[0] == 0x46u8 && bytes[1] == 0x49u8 && bytes[2] == 0x4cu8 && bytes[3] == 0x50u8) {
            assert(bytes@.take(4) != filp()) by {
                if bytes@.take(4) == filp() {
                    assert(bytes@.take(4)[0] == bytes@[0]);
                    assert(bytes@.take(4)[1] == bytes@[1]);
                    assert(bytes@.take(4)[2] == bytes@[2]);
                    assert(bytes@.take(4)[3] == bytes@[3]);
                }
            }
            return None;
        }
        assert(bytes@.take(4) =~= filp());
        let version = super::codec::read_i16(bytes, 4);
        if version != 1 {
            return None;
        }
        let forks = super::codec::read_i16(bytes, 22);
        let rest = &bytes[24..bytes.len()];
        Some((rest, FlattenedFileHeader(ForkCount(forks))))
    }
}

/// A flattened file header written out reads back with the same fork count.
pub proof fn lemma_flattened_header_roundtrip(forks: i16, rest: Seq<u8>)
    ensures
        parse_flattened_header(flattened_header_bytes(forks) + rest) == Some((24int, forks)),
{
    let s = flattened_header_bytes(forks) + rest;
    super::codec::lemma_i16_roundtrip(1, Seq::new(16, |i: int| 0u8) + i16_bytes(forks) + rest);
    super::codec::lemma_i16_roundtrip(forks, rest);
    assert(s.take(4) =~= filp());
    assert(s.skip(4) =~= i16_bytes(1) + (Seq::new(16, |i: int| 0u8) + i16_bytes(forks) + rest));
    assert(s.skip(22) =~= i16_bytes(forks) + rest);
    assert(super::codec::i16_at(s, 4) == super::codec::i16_at(s.skip(4), 0));
    assert(super::codec::i16_at(s, 22) == super::codec::i16_at(s.skip(22), 0));
}

} // verus!
