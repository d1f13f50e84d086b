//! The `start` plugin: greets a user on the `start` command and rewrites the
//! greeting when the `start` button is pressed.

use vstd::prelude::*;

use crate::handler::{EventKind, Handler, HandlerOptions, Register};

verus! {

/// Action identifier: reply to a `start` command message.
pub const START_MESSAGE_ACTION: u64 = 1;

/// Action identifier: edit a message when the `start` button is pressed.
pub const START_CALLBACK_ACTION: u64 = 2;

/// The command handler this plugin registers first.
pub open spec fn is_start_message_handler(h: Handler) -> bool {
    &&& h.update_type == EventKind::Message
    &&& h.function == START_MESSAGE_ACTION
    &&& h.pattern@ == "start$"@
    &&& match h.options {
        Some(o) => {
            &&& o.is_command
            &&& match o.description {
                Some(d) => d@ == "Start the bot"@,
                None => false,
            }
            &&& o.hide
        },
        None => false,
    }
}

/// The callback handler this plugin registers second.
pub open spec fn is_start_callback_handler(h: Handler) -> bool {
    &&& h.update_type == EventKind::Callback
    &&& h.function == START_CALLBACK_ACTION
    &&& h.pattern@ == "^start$"@
    &&& h.options is None
}

pub fn initialize() -> (r: Register)
    ensures
        r.name@ == "start"@,
        r.enabled,
        r.handler_list@.len() == 2,
        is_start_message_handler(r.handler_list@[0]),
        is_start_callback_handler(r.handler_list@[1]),
{
    Register::new().set_name("start".to_owned()).set_enabled(true).append(
        EventKind::Message,
        START_MESSAGE_ACTION,
        "start$".to_owned(),
        Some(
            HandlerOptions {
                is_command: true,
                description: Some("Start the bot".to_owned()),
                hide: true,
            },
        ),
    ).append(EventKind::Callback, START_CALLBACK_ACTION, "^start$".to_owned(), None).build()
}

} // verus!
