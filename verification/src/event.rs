//! The inbound-event model the router works on: new messages and callback
//! queries, each carrying their originating chat, plus a catch-all for every
//! other update kind, which the router discards.

use vstd::prelude::*;

use crate::handler::EventKind;

verus! {

/// The user a private chat originates from.
pub struct UserInfo {
    pub id: i64,
    pub full_name: String,
    pub lang_code: Option<String>,
}

/// The group a group chat originates from.
pub struct GroupInfo {
    pub id: i64,
    pub title: String,
}

/// The chat an event originates from; channel-origin events are excluded
/// from dispatch.
pub enum Chat {
    User(UserInfo),
    Group(GroupInfo),
    Channel,
}

/// A new inbound message: its chat, its text, and whether the bot itself
/// sent it.
pub struct MessageEvent {
    pub outgoing: bool,
    pub chat: Chat,
    pub text: String,
}

/// A button-callback query: its chat and its raw payload bytes.
pub struct CallbackEvent {
    pub chat: Chat,
    pub data: Vec<u8>,
}

/// One inbound update from the transport.
pub enum Update {
    NewMessage(MessageEvent),
    CallbackQuery(CallbackEvent),
    Other,
}

impl UserInfo {
    pub fn duplicate(&self) -> (r: Self)
        ensures
            r == *self,
    {
        UserInfo {
            id: self.id,
            full_name: self.full_name.clone(),
            lang_code: match &self.lang_code {
                Some(s) => Some(s.clone()),
                None => None,
            },
        }
    }
}

impl GroupInfo {
    pub fn duplicate(&self) -> (r: Self)
        ensures
            r == *self,
    {
        GroupInfo { id: self.id, title: self.title.clone() }
    }
}

impl Chat {
    pub fn duplicate(&self) -> (r: Self)
        ensures
            r == *self,
    {
        match self {
            Chat::User(u) => Chat::User(u.duplicate()),
            Chat::Group(g) => Chat::Group(g.duplicate()),
            Chat::Channel => Chat::Channel,
        }
    }
}

fn duplicate_bytes(v: &Vec<u8>) -> (r: Vec<u8>)
    ensures
        r@ == v@,
{
    let mut r: Vec<u8> = Vec::new();
    let mut i: usize = 0;
    while i < v.len()
        invariant
            i <= v@.len(),
            r@ == v@.take(i as int),
        decreases v@.len() - i,
    {
        r.push(v[i]);
        proof {
            assert(v@.take(i + 1 as int) =~= v@.take(i as int).push(v@[i as int]));
        }
        i = i + 1;
    }
    proof {
        assert(v@.take(v@.len() as int) =~= v@);
    }
    r
}

impl MessageEvent {
    pub fn duplicate(&self) -> (r: Self)
        ensures
            r == *self,
    {
        MessageEvent { outgoing: self.outgoing, chat: self.chat.duplicate(), text: self.text.clone() }
    }
}

impl CallbackEvent {
    pub fn duplicate(&self) -> (r: Self)
        ensures
            r.chat == self.chat,
            r.data@ == self.data@,
    {
        CallbackEvent { chat: self.chat.duplicate(), data: duplicate_bytes(&self.data) }
    }
}

/// What becomes of one inbound event at the classification stage.
pub enum Classification {
    Discard,
    Dispatch(EventKind),
}

/// An event is dispatched only if it is a new non-outgoing message or a
/// callback query, and does not originate from a channel; everything else is
/// discarded with zero invocations.
pub open spec fn classify_spec(u: Update) -> Classification {
    match u {
        Update::NewMessage(m) => if !m.outgoing && !(m.chat is Channel) {
            Classification::Dispatch(EventKind::Message)
        } else {
            Classification::Discard
        },
        Update::CallbackQuery(c) => if !(c.chat is Channel) {
            Classification::Dispatch(EventKind::Callback)
        } else {
            Classification::Discard
        },
        Update::Other => Classification::Discard,
    }
}

/// The chat an event originates from; meaningful only for events that are
/// not discarded at classification.
pub open spec fn chat_of(u: Update) -> Chat {
    match u {
        Update::NewMessage(m) => m.chat,
        Update::CallbackQuery(c) => c.chat,
        Update::Other => Chat::Channel,
    }
}

/// Classifies one inbound event, per `classify_spec`.
pub fn classify(u: &Update) -> (c: Classification)
    ensures
        c == classify_spec(*u),
{
    match u {
        Update::NewMessage(m) => {
            let channel = match &m.chat {
                Chat::Channel => true,
                _ => false,
            };
            if !m.outgoing && !channel {
                Classification::Dispatch(EventKind::Message)
            } else {
                Classification::Discard
            }
        },
        Update::CallbackQuery(c) => {
            let channel = match &c.chat {
                Chat::Channel => true,
                _ => false,
            };
            if !channel {
                Classification::Dispatch(EventKind::Callback)
            } else {
                Classification::Discard
            }
        },
        Update::Other => Classification::Discard,
    }
}

} // verus!
