//! What a session sends its client: events the server raises, numbered in
//! turn, and replies, which keep the number of their request.

use vstd::prelude::*;

use crate::protocol::messages::{ChatMessage, DownloadFile, GetMessagesReply, PostNews};
use crate::protocol::parameters::Message;
use crate::protocol::transaction::{Id, TransactionFrame};
use super::{ClientRequest, ServerRequest, ServerResponse};

verus! {

/// A message ready to be written, with its transaction number.
#[derive(Debug)]
pub enum OutgoingMessage {
    Event(Id, ServerRequest),
    Reply(Id, ServerResponse),
}

/// A message waiting to be written: an event has no number yet.
#[derive(Debug)]
pub enum QueuedMessage {
    Event(ServerRequest),
    Reply(Id, ServerResponse),
}

/// The number the next event gets.
pub open spec fn next_event_id(n: u32) -> u32 {
    if n == u32::MAX {
        0
    } else {
        (n + 1) as u32
    }
}

/// Numbers the events a session writes, from zero, wrapping around.
#[derive(Debug)]
pub struct EventIds {
    pub next: u32,
}

impl EventIds {
    pub fn new() -> (r: Self)
        ensures
            r.next == 0,
    {
        EventIds { next: 0 }
    }

    /// The message as it is written: an event gets the next number, a reply
    /// keeps its own.
    pub fn outgoing(&mut self, message: QueuedMessage) -> (r: OutgoingMessage)
        ensures
            match message {
                QueuedMessage::Event(_) => r matches OutgoingMessage::Event(id, _) && id.0 == old(self).next as i32
                    && final(self).next == next_event_id(old(self).next),
                QueuedMessage::Reply(id, _) => r matches OutgoingMessage::Reply(id2, _) && id2 == id
                    && final(self).next == old(self).next,
            },
    {
        match message {
            QueuedMessage::Event(event) => {
                let id = self.next;
                self.next = self.next.wrapping_add(1);
                OutgoingMessage::Event(Id(id as i32), event)
            },
            QueuedMessage::Reply(id, reply) => OutgoingMessage::Reply(id, reply),
        }
    }
}

/// Gives a frame that is not a reply the next transaction number, counting
/// from `next` and wrapping around; a reply keeps its number.
pub fn stamp_frame(frame: &mut TransactionFrame, next: &mut u32)
    ensures
        if old(frame).header.is_reply.0 == 1 {
            *final(frame) == *old(frame) && *final(next) == *old(next)
        } else {
            final(frame)@ == (crate::protocol::transaction::TransactionFrameView {
                header: crate::protocol::transaction::TransactionHeader {
                    id: Id(*old(next) as i32),
                    ..old(frame).header
                },
                body: old(frame)@.body,
            }) && *final(next) == next_event_id(*old(next))
        },
{
    if !frame.is_reply() {
        frame.header.id = Id(*next as i32);
        *next = next.wrapping_add(1);
    }
}

/// What a session asks of its server for a request.
#[derive(Debug)]
pub enum SessionWork {
    /// Set up the download, and answer with the server's reply.
    Download(DownloadFile),
    /// Post the article; no answer.
    Post(PostNews),
    /// Fetch the news, and answer as `news_reply` says.
    FetchNews,
    /// Send the chat line; no answer.
    Chat(ChatMessage),
    /// Nothing: the request is not one a session serves.
    Nothing,
}

/// What a session asks of its server for a request: downloads, news posts,
/// news reads and chat lines are served; anything else is passed over.
pub fn session_work(request: ClientRequest) -> (r: SessionWork)
    ensures
        match request {
            ClientRequest::DownloadFile(d) => r == SessionWork::Download(d),
            ClientRequest::PostNews(p) => r == SessionWork::Post(p),
            ClientRequest::GetMessages(_) => r == SessionWork::FetchNews,
            ClientRequest::SendChat(c) => r matches SessionWork::Chat(m) && m.chat_id == c.chat_id && m.message
                == c.message,
            _ => r == SessionWork::Nothing,
        },
{
    match request {
        ClientRequest::DownloadFile(d) => SessionWork::Download(d),
        ClientRequest::PostNews(p) => SessionWork::Post(p),
        ClientRequest::GetMessages(_) => SessionWork::FetchNews,
        ClientRequest::SendChat(c) => SessionWork::Chat(ChatMessage { chat_id: c.chat_id, message: c.message }),
        _ => SessionWork::Nothing,
    }
}

/// The answer to a news read: every message the server gave.
pub fn news_reply(news: Vec<Message>) -> (r: ServerResponse)
    ensures
        r matches ServerResponse::GetMessagesReply(m) && m.0@ == news@,
{
    ServerResponse::GetMessagesReply(GetMessagesReply::with_messages(news))
}

} // verus!
