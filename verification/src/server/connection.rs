//! The connected peers of a plain server and what the server does with each
//! request: how the peers change, which frames go to which peer, and what
//! the requester is answered. Sending frames and touching files is the
//! caller's part.

use vstd::prelude::*;
use std::collections::HashMap;
use super::keyed::keys_of;

use crate::protocol::messages::{
    ChatMessage, GetMessagesReply, GetUserNameListReply, NotifyUserChange, NotifyUserDelete,
    ServerMessage,
};
use crate::protocol::parameters::{
    FileName, FilePath, IconId, Message, Nickname, UserFlags, UserId, UserNameWithInfo,
    UserNameWithInfoView,
};
use crate::protocol::transaction::{TransactionFrame, TransactionFrameView};
use crate::protocol::ProtocolError;
use super::{chat_text, format_chat, ClientRequest, ServerResponse};

verus! {

/// A peer as a value.
pub struct PeerView {
    pub id: u32,
    pub nick: Seq<u8>,
    pub icon_id: i16,
    pub flags: i16,
}

/// A connected peer: its connection number, name, icon and flags.
#[derive(Debug)]
pub struct Peer {
    pub id: u32,
    pub nick: Nickname,
    pub icon_id: IconId,
    pub flags: UserFlags,
}

impl View for Peer {
    type V = PeerView;

    open spec fn view(&self) -> PeerView {
        PeerView { id: self.id, nick: self.nick@, icon_id: self.icon_id.0, flags: self.flags.0 }
    }
}

/// The user id a connection number is shown as: its low sixteen bits.
pub open spec fn user_id_of(id: u32) -> i16 {
    (id as u16) as i16
}

/// The connection number a user id stands for.
pub open spec fn peer_of_user(u: i16) -> u32 {
    (u as u16) as u32
}

/// A peer as the user list shows it; the name length is left at zero.
pub open spec fn peer_info(p: PeerView) -> UserNameWithInfoView {
    UserNameWithInfoView {
        user_id: user_id_of(p.id),
        icon_id: p.icon_id,
        user_flags: p.flags,
        username_len: 0,
        username: p.nick,
    }
}

impl Peer {
    /// A peer with no name, icon 0 and no flags.
    pub fn new(id: u32) -> (r: Self)
        ensures
            r@ == (PeerView { id, nick: Seq::empty(), icon_id: 0, flags: 0 }),
    {
        Peer { id, nick: Nickname::new(Vec::new()), icon_id: IconId(0), flags: UserFlags(0) }
    }

    pub fn user_id(&self) -> (r: UserId)
        ensures
            r.0 == user_id_of(self.id),
    {
        UserId(self.id as u16 as i16)
    }

    pub fn duplicate(&self) -> (r: Self)
        ensures
            r@ == self@,
    {
        Peer { id: self.id, nick: self.nick.duplicate(), icon_id: self.icon_id, flags: self.flags }
    }

    /// The peer as the user list shows it.
    pub fn user_info(&self) -> (r: UserNameWithInfo)
        ensures
            r@ == peer_info(self@),
    {
        UserNameWithInfo {
            user_id: self.user_id(),
            icon_id: self.icon_id,
            user_flags: self.flags,
            username_len: 0,
            username: self.nick.duplicate(),
        }
    }

    /// The notice that this peer came or changed.
    pub fn notify_change(&self) -> (r: NotifyUserChange)
        ensures
            r.user_id.0 == user_id_of(self.id),
            r.icon_id == self.icon_id,
            r.user_flags == self.flags,
            r.username@ == self.nick@,
    {
        NotifyUserChange {
            user_id: self.user_id(),
            icon_id: self.icon_id,
            user_flags: self.flags,
            username: self.nick.duplicate(),
        }
    }
}

/// A frame to be sent to one peer.
#[derive(Debug)]
pub struct Delivery {
    pub to: u32,
    pub frame: TransactionFrame,
}

/// The frame `f` goes once to each of the peers `targets`, and nowhere else.
pub open spec fn sent_to_each(ds: Seq<Delivery>, targets: Set<u32>, f: TransactionFrameView) -> bool {
    &&& forall|i: int| 0 <= i < ds.len() ==> targets.contains((#[trigger] ds[i]).to) && ds[i].frame@ == f
    &&& forall|k: u32| #[trigger] targets.contains(k) ==> exists|i: int| 0 <= i < ds.len() && (#[trigger] ds[i]).to == k
    &&& forall|i: int, j: int| 0 <= i < j < ds.len() ==> (#[trigger] ds[i]).to != (#[trigger] ds[j]).to
}

/// The connected peers, by connection number.
#[derive(Debug)]
pub struct Peers {
    peers: HashMap<u32, Peer>,
}

impl View for Peers {
    type V = Map<u32, PeerView>;

    closed spec fn view(&self) -> Map<u32, PeerView> {
        self.peers@.map_values(|p: Peer| p@)
    }
}

impl Peers {
    /// Each peer is kept under its own number.
    pub closed spec fn wf(&self) -> bool {
        forall|k: u32| #[trigger] self.peers@.contains_key(k) ==> self.peers@[k].id == k
    }

    pub proof fn lemma_keys(&self)
        requires
            self.wf(),
        ensures
            forall|k: u32| #[trigger] self@.dom().contains(k) ==> self@[k].id == k,
    {
    }

    pub fn new() -> (r: Self)
        ensures
            r.wf(),
            r@ == Map::<u32, PeerView>::empty(),
    {
        let r = Peers { peers: HashMap::new() };
        assert(r@ =~= Map::<u32, PeerView>::empty());
        r
    }

    /// The peer with this connection number, if there is one.
    pub fn get(&self, id: u32) -> (r: Option<&Peer>)
        requires
            self.wf(),
        ensures
            match r {
                Some(p) => self@.dom().contains(id) && p@ == self@[id],
                None => !self@.dom().contains(id),
            },
    {
        broadcast use vstd::std_specs::hash::group_hash_axioms;

        self.peers.get(&id)
    }

    /// Keeps the peer under its number, in place of any peer there.
    fn put(&mut self, peer: Peer)
        requires
            old(self).wf(),
        ensures
            final(self).wf(),
            final(self)@ == old(self)@.insert(peer.id, peer@),
    {
        broadcast use vstd::std_specs::hash::group_hash_axioms;

        let ghost pv = peer@;
        let id = peer.id;
        self.peers.insert(id, peer);
        assert(self@ =~= old(self)@.insert(id, pv));
    }

    /// The frame `frame`, once for every peer.
    pub fn deliver_all(&self, frame: &TransactionFrame) -> (r: Vec<Delivery>)
        requires
            self.wf(),
        ensures
            sent_to_each(r@, self@.dom(), frame@),
    {
        let ids = keys_of(&self.peers);
        let mut out: Vec<Delivery> = Vec::new();
        let mut i: usize = 0;
        while i < ids.len()
            invariant
                0 <= i <= ids@.len(),
                out@.len() == i,
                forall|j: int| 0 <= j < i ==> (#[trigger] out@[j]).to == ids@[j] && out@[j].frame@ == frame@,
            decreases ids@.len() - i,
        {
            out.push(Delivery { to: ids[i], frame: frame.duplicate() });
            i = i + 1;
        }
        proof {
            assert forall|j: int| 0 <= j < out@.len() implies self@.dom().contains((#[trigger] out@[j]).to) && out@[j].frame@ == frame@ by {
                assert(ids@.to_set().contains(ids@[j]));
            }
            assert forall|k: u32| #[trigger] self@.dom().contains(k) implies exists|j: int| 0 <= j < out@.len() && (#[trigger] out@[j]).to == k by {
                assert(ids@.to_set().contains(k));
                let j = choose|j: int| 0 <= j < ids@.len() && ids@[j] == k;
                assert(out@[j].to == k);
            }
            assert forall|a: int, b: int| 0 <= a < b < out@.len() implies (#[trigger] out@[a]).to != (#[trigger] out@[b]).to by {
                assert(ids@[a] != ids@[b]);
            }
        }
        out
    }

    /// Keeps a peer that just logged in, and tells every peer that was
    /// already there.
    pub fn add(&mut self, id: u32, peer: Peer) -> (r: Vec<Delivery>)
        requires
            old(self).wf(),
            peer.id == id,
        ensures
            final(self).wf(),
            final(self)@ == old(self)@.insert(id, peer@),
            sent_to_each(r@, old(self)@.dom(), notify_change_view(peer@)),
    {
        let frame = peer.notify_change().framed();
        let out = self.deliver_all(&frame);
        self.put(peer);
        out
    }

    /// Tells every peer that the peer with this number changed; nothing when
    /// there is no such peer.
    pub fn update(&mut self, id: u32) -> (r: Vec<Delivery>)
        requires
            old(self).wf(),
        ensures
            final(self).wf(),
            final(self)@ == old(self)@,
            if old(self)@.dom().contains(id) {
                sent_to_each(r@, old(self)@.dom(), notify_change_view(old(self)@[id]))
            } else {
                r@.len() == 0
            },
    {
        match self.get(id) {
            None => Vec::new(),
            Some(peer) => {
                let frame = peer.notify_change().framed();
                self.deliver_all(&frame)
            },
        }
    }

    /// Forgets the peer with this number and tells every peer left.
    pub fn remove(&mut self, id: u32) -> (r: Vec<Delivery>)
        requires
            old(self).wf(),
        ensures
            final(self).wf(),
            final(self)@ == old(self)@.remove(id),
            sent_to_each(r@, old(self)@.remove(id).dom(), notify_delete_view(user_id_of(id))),
    {
        broadcast use vstd::std_specs::hash::group_hash_axioms;

        self.peers.remove(&id);
        assert(self@ =~= old(self)@.remove(id));
        let frame = NotifyUserDelete { user_id: UserId(id as u16 as i16) }.framed();
        self.deliver_all(&frame)
    }

    /// Every peer as the user list shows it.
    pub fn user_list(&self) -> (r: Vec<UserNameWithInfo>)
        requires
            self.wf(),
        ensures
            lists_peers(r@, self@),
    {
        broadcast use vstd::std_specs::hash::group_hash_axioms;

        let ids = keys_of(&self.peers);
        let mut out: Vec<UserNameWithInfo> = Vec::new();
        let mut i: usize = 0;
        while i < ids.len()
            invariant
                self.wf(),
                ids@.to_set() == self.peers@.dom(),
                0 <= i <= ids@.len(),
                out@.len() == i,
                forall|j: int| 0 <= j < i ==> (#[trigger] out@[j])@ == peer_info(self@[ids@[j]]),
            decreases ids@.len() - i,
        {
            assert(ids@.to_set().contains(ids@[i as int]));
            match self.peers.get(&ids[i]) {
                Some(p) => out.push(p.user_info()),
                None => {
                    assert(false);
                },
            }
            i = i + 1;
        }
        proof {
            assert forall|j: int| 0 <= j < out@.len() implies #[trigger] shown(out@[j], self@) by {
                let k = ids@[j];
                assert(ids@.to_set().contains(k));
                assert(listed(out@[j], self@, k));
            }
            assert forall|k: u32| #[trigger] self@.dom().contains(k) implies exists|j: int| 0 <= j < out@.len() && #[trigger] listed(out@[j], self@, k) by {
                assert(ids@.to_set().contains(k));
                let j = choose|j: int| 0 <= j < ids@.len() && ids@[j] == k;
                assert(listed(out@[j], self@, k));
            }
        }
        out
    }
}

/// The entry `u` shows the peer with number `k`.
pub open spec fn listed(u: UserNameWithInfo, m: Map<u32, PeerView>, k: u32) -> bool {
    u@ == peer_info(m[k])
}

/// The entry `u` shows some peer.
pub open spec fn shown(u: UserNameWithInfo, m: Map<u32, PeerView>) -> bool {
    exists|k: u32| m.dom().contains(k) && #[trigger] listed(u, m, k)
}

/// Each entry shows a peer, and each peer is shown.
pub open spec fn lists_peers(r: Seq<UserNameWithInfo>, m: Map<u32, PeerView>) -> bool {
    &&& forall|i: int| 0 <= i < r.len() ==> #[trigger] shown(r[i], m)
    &&& forall|k: u32| #[trigger] m.dom().contains(k) ==> exists|i: int| 0 <= i < r.len() && #[trigger] listed(r[i], m, k)
}

/// The frame telling that a peer came or changed.
pub open spec fn notify_change_view(p: PeerView) -> TransactionFrameView {
    crate::protocol::transaction::frame_of(
        crate::protocol::TransactionType::NotifyUserChange,
        seq![
            crate::protocol::messages::i16_param(crate::protocol::TransactionField::UserId, user_id_of(p.id)),
            crate::protocol::messages::i16_param(crate::protocol::TransactionField::UserIconId, p.icon_id),
            crate::protocol::messages::i16_param(crate::protocol::TransactionField::UserFlags, p.flags),
            crate::protocol::messages::bytes_param(crate::protocol::TransactionField::UserName, p.nick),
        ],
    )
}

/// The frame telling that a user left.
pub open spec fn notify_delete_view(u: i16) -> TransactionFrameView {
    crate::protocol::transaction::frame_of(
        crate::protocol::TransactionType::NotifyUserDelete,
        seq![crate::protocol::messages::i16_param(crate::protocol::TransactionField::UserId, u)],
    )
}

/// The frame of a chat line.
pub open spec fn chat_frame_view(chat_id: Option<i16>, message: Seq<u8>) -> TransactionFrameView {
    crate::protocol::transaction::frame_of(
        crate::protocol::TransactionType::ChatMessage,
        seq![crate::protocol::messages::bytes_param(crate::protocol::TransactionField::Data, message)]
            + crate::protocol::messages::opt_param(
            match chat_id {
                Some(c) => Some(crate::protocol::messages::i16_param(crate::protocol::TransactionField::ChatId, c)),
                None => None,
            },
        ),
    )
}

/// The frame of a message from a user, or from the server when no user is
/// given.
pub open spec fn server_message_view(from: Option<(i16, Seq<u8>)>, message: Seq<u8>) -> TransactionFrameView {
    crate::protocol::transaction::frame_of(
        crate::protocol::TransactionType::ServerMessage,
        seq![crate::protocol::messages::bytes_param(crate::protocol::TransactionField::Data, message)]
            + crate::protocol::messages::opt_param(
            match from {
                Some((u, _)) => Some(crate::protocol::messages::i16_param(crate::protocol::TransactionField::UserId, u)),
                None => None,
            },
        ) + crate::protocol::messages::opt_param(
            match from {
                Some((_, n)) => Some(crate::protocol::messages::bytes_param(crate::protocol::TransactionField::UserName, n)),
                None => None,
            },
        ),
    )
}

/// The text the news are answered with.
pub open spec fn placeholder_news() -> Seq<u8> {
    seq![78u8, 101u8, 119u8, 115u8, 13u8]
}

/// What the server does next with a request.
#[derive(Debug)]
pub enum Step {
    /// Answer, or not.
    Respond(Option<ServerResponse>),
    /// List the folder and answer with what is in it.
    ListFiles(FilePath),
    /// Look the file up and answer with what is known of it.
    FileInfo(FilePath, FileName),
    /// Answer with the name of the peer and a description of it.
    ClientInfo(Peer),
}

/// What the server does with a request: the frames to send to peers, then
/// the next step.
#[derive(Debug)]
pub struct Outcome {
    pub step: Step,
    pub deliveries: Vec<Delivery>,
}

/// The peer with number `id` after it sets its name and icon: a new peer if
/// there was none.
pub open spec fn renamed(m: Map<u32, PeerView>, id: u32, nick: Seq<u8>, icon: i16) -> PeerView {
    if m.dom().contains(id) {
        PeerView { nick: nick, icon_id: icon, ..m[id] }
    } else {
        PeerView { id, nick, icon_id: icon, flags: 0 }
    }
}

impl Peers {
    /// Sets the name and icon of the peer with number `id`, making the peer
    /// if there is none, and tells every peer.
    pub fn set_user_info(&mut self, id: u32, nick: &Nickname, icon: IconId) -> (r: Vec<Delivery>)
        requires
            old(self).wf(),
        ensures
            final(self).wf(),
            final(self)@ == old(self)@.insert(id, renamed(old(self)@, id, nick@, icon.0)),
            sent_to_each(r@, final(self)@.dom(), notify_change_view(renamed(old(self)@, id, nick@, icon.0))),
    {
        let peer = match self.get(id) {
            Some(p) => {
                proof {
                    self.lemma_keys();
                }
                Peer { id: p.id, nick: nick.duplicate(), icon_id: icon, flags: p.flags }
            },
            None => Peer { id, nick: nick.duplicate(), icon_id: icon, flags: UserFlags(0) },
        };
        self.put(peer);
        let r = self.update(id);
        r
    }
}

/// What a plain server does with a request from the peer with number
/// `id` once its files root is open: the answer or next step `r`, the peers
/// `after` the request, and the frames sent, given the peers `before` it.
pub open spec fn handled(
    before: Map<u32, PeerView>,
    after: Map<u32, PeerView>,
    id: u32,
    req: ClientRequest,
    r: Outcome,
) -> bool {
    match req {
        ClientRequest::Login(login) => r.step matches Step::Respond(Some(ServerResponse::LoginReply)) && match (
        login.nickname, login.icon_id) {
            (Some(nick), Some(icon)) => after == before.insert(
                id,
                PeerView { id, nick: nick@, icon_id: icon.0, flags: 0 },
            ) && sent_to_each(
                r.deliveries@,
                before.dom(),
                notify_change_view(PeerView { id, nick: nick@, icon_id: icon.0, flags: 0 }),
            ),
            _ => after == before && r.deliveries@.len() == 0,
        },
        ClientRequest::GetMessages(_) => r.step matches Step::Respond(
            Some(ServerResponse::GetMessagesReply(m)),
        ) && crate::protocol::messages::messages_view(m.0@) == seq![placeholder_news()]
            && after == before && r.deliveries@.len() == 0,
        ClientRequest::GetFileNameList(list) => r.step matches Step::ListFiles(p) && p@ == list.0@
            && after == before && r.deliveries@.len() == 0,
        ClientRequest::GetFileInfo(info) => r.step matches Step::FileInfo(p, n) && p@ == info.path@ && n@
            == info.filename@ && after == before && r.deliveries@.len() == 0,
        ClientRequest::GetUserNameList(_) => r.step matches Step::Respond(
            Some(ServerResponse::GetUserNameListReply(list)),
        ) && lists_peers(list.0@, before) && after == before && r.deliveries@.len()
            == 0,
        ClientRequest::GetClientInfoText(q) => after == before && r.deliveries@.len() == 0
            && if before.dom().contains(peer_of_user(q.user_id.0)) {
            r.step matches Step::ClientInfo(p) && p@ == before[peer_of_user(q.user_id.0)]
        } else {
            r.step matches Step::Respond(Some(ServerResponse::Rejected(None)))
        },
        ClientRequest::SetClientUserInfo(q) => r.step matches Step::Respond(None) && after
            == before.insert(id, renamed(before, id, q.username@, q.icon_id.0)) && sent_to_each(
            r.deliveries@,
            after.dom(),
            notify_change_view(renamed(before, id, q.username@, q.icon_id.0)),
        ),
        ClientRequest::SendChat(q) => after == before && if before.dom().contains(id) {
            r.step matches Step::Respond(None) && sent_to_each(
                r.deliveries@,
                before.dom(),
                chat_frame_view(
                    match q.chat_id {
                        Some(c) => Some(c.0),
                        None => None,
                    },
                    super::chat_text(before[id].nick, q.message@),
                ),
            )
        } else {
            r.step matches Step::Respond(Some(ServerResponse::Rejected(None))) && r.deliveries@.len() == 0
        },
        ClientRequest::SendInstantMessage(q) => after == before && if before.dom().contains(id)
            && before.dom().contains(peer_of_user(q.user_id.0)) {
            r.step matches Step::Respond(Some(ServerResponse::SendInstantMessageReply)) && r.deliveries@.len()
                == 1 && r.deliveries@[0].to == peer_of_user(q.user_id.0) && r.deliveries@[0].frame@
                == server_message_view(Some((user_id_of(id), before[id].nick)), q.message@)
        } else {
            r.step matches Step::Respond(Some(ServerResponse::Rejected(None))) && r.deliveries@.len() == 0
        },
        ClientRequest::SendBroadcast(q) => r.step matches Step::Respond(
            Some(ServerResponse::SendBroadcastReply),
        ) && after == before && sent_to_each(
            r.deliveries@,
            before.dom(),
            server_message_view(None, q.message@),
        ),
        _ => r.step matches Step::Respond(Some(ServerResponse::Rejected(Some(m)))) && m@ == seq![
            'T',
            'O',
            'D',
            'O',
        ] && after == before && r.deliveries@.len() == 0,
    }
}

/// What a plain server does with a request once its files root is open.
fn handle_opened(peers: &mut Peers, id: u32, req: ClientRequest) -> (r: Outcome)
    requires
        old(peers).wf(),
    ensures
        final(peers).wf(),
        handled(old(peers)@, final(peers)@, id, req, r),
{
    match req {
        ClientRequest::Login(login) => {
            let deliveries = match (login.nickname, login.icon_id) {
                (Some(nick), Some(icon)) => {
                    let peer = Peer { id, nick, icon_id: icon, flags: UserFlags(0) };
                    peers.add(id, peer)
                },
                _ => Vec::new(),
            };
            Outcome { step: Step::Respond(Some(ServerResponse::LoginReply)), deliveries }
        },
        ClientRequest::GetMessages(_) => {
            let news = Message(vec![78u8, 101u8, 119u8, 115u8, 13u8]);
            assert(news@ == placeholder_news());
            let reply = GetMessagesReply::single(news);
            Outcome { step: Step::Respond(Some(ServerResponse::GetMessagesReply(reply))), deliveries: Vec::new() }
        },
        ClientRequest::GetFileNameList(list) => Outcome { step: Step::ListFiles(list.0), deliveries: Vec::new() },
        ClientRequest::GetFileInfo(info) => Outcome {
            step: Step::FileInfo(info.path, info.filename),
            deliveries: Vec::new(),
        },
        ClientRequest::GetUserNameList(_) => {
            let reply = GetUserNameListReply::with_users(peers.user_list());
            Outcome { step: Step::Respond(Some(ServerResponse::GetUserNameListReply(reply))), deliveries: Vec::new() }
        },
        ClientRequest::GetClientInfoText(q) => {
            let step = match peers.get(q.user_id.0 as u16 as u32) {
                None => Step::Respond(Some(ServerResponse::Rejected(None))),
                Some(peer) => Step::ClientInfo(peer.duplicate()),
            };
            Outcome { step, deliveries: Vec::new() }
        },
        ClientRequest::SetClientUserInfo(q) => {
            let deliveries = peers.set_user_info(id, &q.username, q.icon_id);
            Outcome { step: Step::Respond(None), deliveries }
        },
        ClientRequest::SendChat(q) => {
            match peers.get(id) {
                None => Outcome { step: Step::Respond(Some(ServerResponse::Rejected(None))), deliveries: Vec::new() },
                Some(peer) => {
                    let text = format_chat(peer.nick.0.as_slice(), q.message.as_slice());
                    let frame = ChatMessage { chat_id: q.chat_id, message: text }.framed();
                    let deliveries = peers.deliver_all(&frame);
                    Outcome { step: Step::Respond(None), deliveries }
                },
            }
        },
        ClientRequest::SendInstantMessage(q) => {
            let from = match peers.get(id) {
                None => {
                    return Outcome {
                        step: Step::Respond(Some(ServerResponse::Rejected(None))),
                        deliveries: Vec::new(),
                    };
                },
                Some(peer) => peer.duplicate(),
            };
            let to = q.user_id.0 as u16 as u32;
            if peers.get(to).is_none() {
                return Outcome { step: Step::Respond(Some(ServerResponse::Rejected(None))), deliveries: Vec::new() };
            }
            let frame = ServerMessage {
                user_id: Some(from.user_id()),
                user_name: Some(from.nick),
                message: q.message,
            }.framed();
            let deliveries = vec![Delivery { to, frame }];
            Outcome { step: Step::Respond(Some(ServerResponse::SendInstantMessageReply)), deliveries }
        },
        ClientRequest::SendBroadcast(q) => {
            let frame = ServerMessage { message: q.message, user_id: None, user_name: None }.framed();
            let deliveries = peers.deliver_all(&frame);
            Outcome { step: Step::Respond(Some(ServerResponse::SendBroadcastReply)), deliveries }
        },
        _ => {
            let text = "TODO";
            proof {
                reveal_strlit("TODO");
            }
            let m = text.to_owned();
            assert(m@ =~= seq!['T', 'O', 'D', 'O']);
            Outcome { step: Step::Respond(Some(ServerResponse::Rejected(Some(m)))), deliveries: Vec::new() }
        },
    }
}


/// What a plain server does with a request from the peer with number `id`,
/// given whether its files root could be opened: when it could not, the
/// request fails with `SystemError`, the peers stay as they were and nothing
/// is sent; else the request is handled as `handled` says.
pub fn handle_request(peers: &mut Peers, id: u32, req: ClientRequest, files_root_opened: bool) -> (r:
    Result<Outcome, ProtocolError>)
    requires
        old(peers).wf(),
    ensures
        final(peers).wf(),
        !files_root_opened ==> (r matches Err(ProtocolError::SystemError) && final(peers)@ == old(peers)@),
        files_root_opened ==> (r matches Ok(o) && handled(old(peers)@, final(peers)@, id, req, o)),
{
    if !files_root_opened {
        return Err(ProtocolError::SystemError);
    }
    Ok(handle_opened(peers, id, req))
}


} // verus!
