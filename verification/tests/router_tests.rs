//! The router end to end: classification, identity resolution, subject
//! extraction, and fan-out matching.

use myne_books::event::{CallbackEvent, Chat, GroupInfo, MessageEvent, Update, UserInfo};
use myne_books::handler::{EventKind, Handler, HandlerOptions, Register};
use myne_books::resolver::LookupOutcome;
use myne_books::router::{
    compile_registry, handle_update, BotIdentity, CompiledRegistry, ConfigError, DispatchOutcome,
    DispatchPlan,
};
use myne_books::tables::{Group, User};

fn command_options(description: &str) -> Option<HandlerOptions> {
    Some(HandlerOptions {
        is_command: true,
        description: Some(description.to_string()),
        hide: true,
    })
}

fn start_stop_handlers() -> Vec<Handler> {
    Register::new()
        .set_name("demo".to_string())
        .set_enabled(true)
        .append(EventKind::Message, 1, "start$".to_string(), command_options("Start the bot"))
        .append(EventKind::Callback, 2, "^about$".to_string(), None)
        .build()
        .get_handler_list()
}

fn demo_registry() -> CompiledRegistry {
    compile_registry(
        start_stop_handlers(),
        vec!['/', '!'],
        Some("mybot".to_string()),
    )
    .expect("the demo registry must compile")
}

fn bot() -> BotIdentity {
    BotIdentity { username: Some("mybot".to_string()), first_name: "Myne".to_string() }
}

fn user_chat() -> Chat {
    Chat::User(UserInfo {
        id: 7,
        full_name: "Alice Doe".to_string(),
        lang_code: Some("pt".to_string()),
    })
}

fn message(text: &str) -> Update {
    Update::NewMessage(MessageEvent { outgoing: false, chat: user_chat(), text: text.to_string() })
}

fn callback(payload: &[u8]) -> Update {
    Update::CallbackQuery(CallbackEvent { chat: user_chat(), data: payload.to_vec() })
}

fn dispatched(outcome: DispatchOutcome) -> DispatchPlan {
    match outcome {
        DispatchOutcome::Dispatched(plan) => plan,
        _ => panic!("expected a dispatched outcome"),
    }
}

#[test]
fn compiled_registry_keeps_every_handler() {
    let reg = demo_registry();
    assert_eq!(reg.len(), 2);
}

#[test]
fn end_to_end_command_scenario() {
    let reg = demo_registry();
    let me = bot();

    let plan = dispatched(handle_update(&reg, &message("/start"), &LookupOutcome::NotFound, &me));
    assert_eq!(plan.invocations.len(), 1);
    assert_eq!(plan.invocations[0].function, 1);

    let plan =
        dispatched(handle_update(&reg, &message("!start@mybot"), &LookupOutcome::NotFound, &me));
    assert_eq!(plan.invocations.len(), 1);

    let plan = dispatched(handle_update(&reg, &message("start"), &LookupOutcome::NotFound, &me));
    assert_eq!(plan.invocations.len(), 0);

    let plan = dispatched(handle_update(&reg, &message("/starting"), &LookupOutcome::NotFound, &me));
    assert_eq!(plan.invocations.len(), 0);
}

#[test]
fn callback_scenario() {
    let reg = demo_registry();
    let me = bot();

    let plan = dispatched(handle_update(&reg, &callback(b"about"), &LookupOutcome::NotFound, &me));
    assert_eq!(plan.invocations.len(), 1);
    assert_eq!(plan.invocations[0].function, 2);
    assert_eq!(plan.invocations[0].data.request, "about");
    assert!(plan.invocations[0].data.message.is_none());
    assert!(plan.invocations[0].data.callback.is_some());

    let plan =
        dispatched(handle_update(&reg, &callback(b"about_extra"), &LookupOutcome::NotFound, &me));
    assert_eq!(plan.invocations.len(), 0);
}

#[test]
fn undecodable_callback_payload_is_dropped() {
    let reg = demo_registry();
    let outcome = handle_update(&reg, &callback(&[0xff, 0xfe]), &LookupOutcome::NotFound, &bot());
    assert!(matches!(outcome, DispatchOutcome::Invalid));
}

#[test]
fn fan_out_invokes_all_matches_in_registration_order() {
    let handlers = Register::new()
        .set_enabled(true)
        .append(EventKind::Message, 10, "start$".to_string(), command_options("first"))
        .append(EventKind::Message, 20, "start".to_string(), None)
        .build()
        .get_handler_list();
    let reg = compile_registry(handlers, vec!['/'], Some("mybot".to_string()))
        .expect("the fan-out registry must compile");

    let plan =
        dispatched(handle_update(&reg, &message("/start"), &LookupOutcome::NotFound, &bot()));
    assert_eq!(plan.invocations.len(), 2);
    assert_eq!(plan.invocations[0].function, 10);
    assert_eq!(plan.invocations[1].function, 20);
}

#[test]
fn outgoing_and_channel_events_are_discarded() {
    let reg = demo_registry();
    let me = bot();

    let outgoing = Update::NewMessage(MessageEvent {
        outgoing: true,
        chat: user_chat(),
        text: "/start".to_string(),
    });
    assert!(matches!(
        handle_update(&reg, &outgoing, &LookupOutcome::NotFound, &me),
        DispatchOutcome::Discarded
    ));

    let channel_message = Update::NewMessage(MessageEvent {
        outgoing: false,
        chat: Chat::Channel,
        text: "/start".to_string(),
    });
    assert!(matches!(
        handle_update(&reg, &channel_message, &LookupOutcome::NotFound, &me),
        DispatchOutcome::Discarded
    ));

    let channel_callback =
        Update::CallbackQuery(CallbackEvent { chat: Chat::Channel, data: b"about".to_vec() });
    assert!(matches!(
        handle_update(&reg, &channel_callback, &LookupOutcome::NotFound, &me),
        DispatchOutcome::Discarded
    ));

    assert!(matches!(
        handle_update(&reg, &Update::Other, &LookupOutcome::NotFound, &me),
        DispatchOutcome::Discarded
    ));
}

#[test]
fn first_contact_registers_once_with_event_hint() {
    let reg = demo_registry();
    let plan = dispatched(handle_update(&reg, &message("/start"), &LookupOutcome::NotFound, &bot()));

    let req = plan.register.expect("first contact must ask for one registration");
    assert_eq!(req.id, 7);
    assert_eq!(req.display_name, "Alice Doe");
    assert_eq!(req.locale_hint.as_deref(), Some("pt"));
    assert_eq!(plan.invocations[0].data.language.language, "pt");
}

#[test]
fn first_contact_from_group_registers_with_default_locale() {
    let reg = demo_registry();
    let group_message = Update::NewMessage(MessageEvent {
        outgoing: false,
        chat: Chat::Group(GroupInfo { id: -100, title: "Readers".to_string() }),
        text: "/start".to_string(),
    });
    let plan =
        dispatched(handle_update(&reg, &group_message, &LookupOutcome::NotFound, &bot()));

    let req = plan.register.expect("first contact must ask for one registration");
    assert_eq!(req.id, -100);
    assert_eq!(req.display_name, "Readers");
    assert!(req.locale_hint.is_none());
    assert_eq!(plan.invocations[0].data.language.language, "en-GB");
}

#[test]
fn known_chat_is_not_reregistered() {
    let reg = demo_registry();
    let stored = User { id: 7, name: "Alice Doe".to_string(), language: "de".to_string() };
    let plan = dispatched(handle_update(
        &reg,
        &message("/start"),
        &LookupOutcome::FoundUser(stored),
        &bot(),
    ));

    assert!(plan.register.is_none());
    assert_eq!(plan.invocations[0].data.language.language, "de");
}

#[test]
fn known_group_is_not_reregistered() {
    let reg = demo_registry();
    let group_message = Update::NewMessage(MessageEvent {
        outgoing: false,
        chat: Chat::Group(GroupInfo { id: -100, title: "Readers".to_string() }),
        text: "/start".to_string(),
    });
    let stored = Group { id: -100, title: "Readers".to_string(), language: "fr".to_string() };
    let plan = dispatched(handle_update(
        &reg,
        &group_message,
        &LookupOutcome::FoundGroup(stored),
        &bot(),
    ));

    assert!(plan.register.is_none());
    assert_eq!(plan.invocations[0].data.language.language, "fr");
}

#[test]
fn unavailable_storage_degrades_to_default_locale() {
    let reg = demo_registry();
    let plan =
        dispatched(handle_update(&reg, &message("/start"), &LookupOutcome::Unavailable, &bot()));

    assert!(plan.register.is_none());
    assert_eq!(plan.invocations[0].data.language.language, "en-GB");
}

#[test]
fn context_carries_event_and_identity() {
    let reg = demo_registry();
    let plan = dispatched(handle_update(&reg, &message("/start"), &LookupOutcome::NotFound, &bot()));
    let data = &plan.invocations[0].data;
    assert_eq!(data.request, "/start");
    assert!(data.callback.is_none());
    let msg = data.message.as_ref().expect("a message context must embed the message");
    assert_eq!(msg.text, "/start");
    assert_eq!(data.me.username.as_deref(), Some("mybot"));
    assert_eq!(data.me.first_name, "Myne");
}

#[test]
fn empty_prefix_set_with_command_handler_is_fatal() {
    match compile_registry(start_stop_handlers(), vec![], Some("mybot".to_string())) {
        Err(err) => assert_eq!(err, ConfigError::EmptyPrefixSet),
        Ok(_) => panic!("an empty prefix set beside a command handler must be refused"),
    }
}

#[test]
fn empty_prefix_set_without_command_handlers_is_accepted() {
    let handlers = Register::new()
        .set_enabled(true)
        .append(EventKind::Callback, 2, "^about$".to_string(), None)
        .build()
        .get_handler_list();
    assert!(compile_registry(handlers, vec![], None).is_ok());
}

#[test]
fn malformed_pattern_is_fatal_with_its_index() {
    let handlers = Register::new()
        .set_enabled(true)
        .append(EventKind::Callback, 1, "^ok$".to_string(), None)
        .append(EventKind::Callback, 2, "(".to_string(), None)
        .build()
        .get_handler_list();
    match compile_registry(handlers, vec!['/'], None) {
        Err(err) => assert_eq!(err, ConfigError::InvalidPattern(1)),
        Ok(_) => panic!("a malformed pattern must be refused"),
    }
}
