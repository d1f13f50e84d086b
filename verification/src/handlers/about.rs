//! The `about` plugin: describes the bot on the `about` command and rewrites
//! the description when the `about` button is pressed.

use vstd::prelude::*;

use crate::handler::{EventKind, Handler, HandlerOptions, Register};

verus! {

/// Action identifier: reply to an `about` command message.
pub const ABOUT_MESSAGE_ACTION: u64 = 3;

/// Action identifier: edit a message when the `about` button is pressed.
pub const ABOUT_CALLBACK_ACTION: u64 = 4;

/// The command handler this plugin registers first.
pub open spec fn is_about_message_handler(h: Handler) -> bool {
    &&& h.update_type == EventKind::Message
    &&& h.function == ABOUT_MESSAGE_ACTION
    &&& h.pattern@ == "about$"@
    &&& match h.options {
        Some(o) => {
            &&& o.is_command
            &&& match o.description {
                Some(d) => d@ == "See about the bot"@,
                None => false,
            }
            &&& o.hide
        },
        None => false,
    }
}

/// The callback handler this plugin registers second.
pub open spec fn is_about_callback_handler(h: Handler) -> bool {
    &&& h.update_type == EventKind::Callback
    &&& h.function == ABOUT_CALLBACK_ACTION
    &&& h.pattern@ == "^about$"@
    &&& h.options is None
}

pub fn initialize() -> (r: Register)
    ensures
        r.name@ == "about"@,
        r.enabled,
        r.handler_list@.len() == 2,
        is_about_message_handler(r.handler_list@[0]),
        is_about_callback_handler(r.handler_list@[1]),
{
    Register::new().set_name("about".to_owned()).set_enabled(true).append(
        EventKind::Message,
        ABOUT_MESSAGE_ACTION,
        "about$".to_owned(),
        Some(
            HandlerOptions {
                is_command: true,
                description: Some("See about the bot".to_owned()),
                hide: true,
            },
        ),
    ).append(EventKind::Callback, ABOUT_CALLBACK_ACTION, "^about$".to_owned(), None).build()
}

} // verus!
