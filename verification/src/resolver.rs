//! Chat-Identity Resolver: bridges an inbound event's originating chat to
//! the persistence collaborator. A hit returns the stored locale; a miss
//! asks for exactly one registration and derives the locale from the
//! event's own hint; a storage failure degrades to the default locale so
//! dispatch never blocks on the collaborator.

use vstd::prelude::*;

use crate::event::Chat;
use crate::tables::{Group, User};

verus! {

/// The locale used when no other is known.
pub open spec fn default_language() -> Seq<char> {
    "en-GB"@
}

/// Returns the system default locale.
pub fn default_locale() -> (r: String)
    ensures
        r@ == default_language(),
{
    "en-GB".to_owned()
}

/// What the persistence lookup for a chat id came back with.
pub enum LookupOutcome {
    FoundUser(User),
    FoundGroup(Group),
    NotFound,
    Unavailable,
}

/// A registration the resolver asks the persistence collaborator to
/// perform: the chat's id, its display name, and the locale hint carried by
/// the event, if any.
pub struct RegisterRequest {
    pub id: i64,
    pub display_name: String,
    pub locale_hint: Option<String>,
}

/// The resolver's result for one event: at most one registration to
/// perform, and the locale for the dispatch contexts.
pub struct Resolution {
    pub register: Option<RegisterRequest>,
    pub locale: String,
}

/// The one registration that a miss for this chat asks for.
pub open spec fn is_register_request_for(req: RegisterRequest, chat: Chat) -> bool {
    match chat {
        Chat::User(u) => {
            &&& req.id == u.id
            &&& req.display_name == u.full_name
            &&& req.locale_hint == u.lang_code
        },
        Chat::Group(g) => {
            &&& req.id == g.id
            &&& req.display_name == g.title
            &&& req.locale_hint is None
        },
        Chat::Channel => false,
    }
}

/// The locale the resolver hands to dispatch: the stored one on a hit; on a
/// miss the locale derived during registration (the event's hint for a
/// user, none for a group, the default where none is supplied); the default
/// when the collaborator is unavailable.
pub open spec fn resolved_locale(chat: Chat, lookup: LookupOutcome) -> Seq<char> {
    match lookup {
        LookupOutcome::FoundUser(u) => u.language@,
        LookupOutcome::FoundGroup(g) => g.language@,
        LookupOutcome::NotFound => match chat {
            Chat::User(u) => match u.lang_code {
                Some(h) => h@,
                None => default_language(),
            },
            Chat::Group(_) => default_language(),
            Chat::Channel => default_language(),
        },
        LookupOutcome::Unavailable => default_language(),
    }
}

/// Resolves one chat against the outcome of its persistence lookup: a hit
/// registers nothing, a miss registers the chat exactly once, a failure
/// registers nothing and degrades to the default locale.
pub fn resolve_chat(chat: &Chat, lookup: &LookupOutcome) -> (r: Resolution)
    requires
        !(*chat is Channel),
    ensures
        r.locale@ == resolved_locale(*chat, *lookup),
        *lookup is NotFound ==> (r.register matches Some(req) && is_register_request_for(
            req,
            *chat,
        )),
        !(*lookup is NotFound) ==> r.register is None,
{
    match lookup {
        LookupOutcome::FoundUser(u) => Resolution { register: None, locale: u.language.clone() },
        LookupOutcome::FoundGroup(g) => Resolution { register: None, locale: g.language.clone() },
        LookupOutcome::NotFound => match chat {
            Chat::User(u) => {
                let locale = match &u.lang_code {
                    Some(h) => h.clone(),
                    None => default_locale(),
                };
                Resolution {
                    register: Some(
                        RegisterRequest {
                            id: u.id,
                            display_name: u.full_name.clone(),
                            locale_hint: match &u.lang_code {
                                Some(h) => Some(h.clone()),
                                None => None,
                            },
                        },
                    ),
                    locale,
                }
            },
            Chat::Group(g) => Resolution {
                register: Some(
                    RegisterRequest {
                        id: g.id,
                        display_name: g.title.clone(),
                        locale_hint: None,
                    },
                ),
                locale: default_locale(),
            },
            Chat::Channel => Resolution { register: None, locale: default_locale() },
        },
        LookupOutcome::Unavailable => Resolution { register: None, locale: default_locale() },
    }
}

/// First contact: a chat the lookup missed is registered exactly once, under
/// its own id and display name, and the dispatch locale equals the locale
/// handed to that registration — the event's hint, or the system default
/// where none is supplied.
pub proof fn lemma_first_contact_registers(chat: Chat, r: Resolution)
    requires
        !(chat is Channel),
        r.locale@ == resolved_locale(chat, LookupOutcome::NotFound),
        r.register matches Some(req) && is_register_request_for(req, chat),
    ensures
        r.register matches Some(req) && match chat {
            Chat::User(u) => req.id == u.id && match u.lang_code {
                Some(h) => req.locale_hint matches Some(hh) && hh@ == h@ && r.locale@ == h@,
                None => req.locale_hint is None && r.locale@ == default_language(),
            },
            Chat::Group(g) => req.id == g.id && req.locale_hint is None && r.locale@
                == default_language(),
            Chat::Channel => false,
        },
{
}

/// Idempotence: a chat the lookup found is not registered again — the
/// resolver asks for no registration and reuses the stored locale.
pub proof fn lemma_known_chat_not_reregistered(chat: Chat, lookup: LookupOutcome, r: Resolution)
    requires
        !(chat is Channel),
        lookup matches LookupOutcome::FoundUser(_) || lookup matches LookupOutcome::FoundGroup(_),
        r.locale@ == resolved_locale(chat, lookup),
        !(lookup is NotFound) ==> r.register is None,
    ensures
        r.register is None,
        match lookup {
            LookupOutcome::FoundUser(u) => r.locale@ == u.language@,
            LookupOutcome::FoundGroup(g) => r.locale@ == g.language@,
            _ => true,
        },
{
}

} // verus!
