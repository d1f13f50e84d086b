//! The handler registry and the plugin bundles.

use myne_books::handler::{initialize, EventKind, HandlerOptions, Register};
use myne_books::handlers::about;
use myne_books::handlers::start;

#[test]
fn new_register_is_disabled_and_unnamed() {
    let reg = Register::new();
    assert_eq!(reg.get_name().as_str(), "undefined");
    assert!(!reg.is_enabled());
    assert!(reg.handler_list.is_empty());
}

#[test]
fn builder_sets_name_and_enabled() {
    let reg = Register::new().set_name("demo".to_string()).set_enabled(true).build();
    assert_eq!(reg.get_name().as_str(), "demo");
    assert!(reg.is_enabled());
}

#[test]
fn append_keeps_registration_order() {
    let handlers = Register::new()
        .append(EventKind::Message, 1, "a$".to_string(), None)
        .append(EventKind::Callback, 2, "b$".to_string(), None)
        .build()
        .get_handler_list();
    assert_eq!(handlers.len(), 2);
    assert_eq!(handlers[0].function, 1);
    assert_eq!(handlers[0].pattern, "a$");
    assert_eq!(handlers[1].function, 2);
    assert_eq!(handlers[1].pattern, "b$");
}

#[test]
fn remove_drops_the_indexed_handler() {
    let handlers = Register::new()
        .append(EventKind::Message, 1, "a$".to_string(), None)
        .append(EventKind::Message, 2, "b$".to_string(), None)
        .remove(0)
        .get_handler_list();
    assert_eq!(handlers.len(), 1);
    assert_eq!(handlers[0].function, 2);
}

#[test]
fn default_options_are_hidden_non_command() {
    let options = HandlerOptions::default();
    assert!(!options.is_command);
    assert!(options.description.is_none());
    assert!(options.hide);
}

#[test]
fn initialize_collects_both_plugins_in_order() {
    let mut handlers = Vec::new();
    initialize(&mut handlers);
    assert_eq!(handlers.len(), 4);
    assert_eq!(handlers[0].function, start::START_MESSAGE_ACTION);
    assert_eq!(handlers[0].pattern, "start$");
    assert!(matches!(handlers[0].update_type, EventKind::Message));
    assert_eq!(handlers[1].function, start::START_CALLBACK_ACTION);
    assert_eq!(handlers[1].pattern, "^start$");
    assert_eq!(handlers[2].function, about::ABOUT_MESSAGE_ACTION);
    assert_eq!(handlers[2].pattern, "about$");
    assert_eq!(handlers[3].function, about::ABOUT_CALLBACK_ACTION);
    assert_eq!(handlers[3].pattern, "^about$");
}

#[test]
fn disabled_bundle_contributes_nothing() {
    let bundle = Register::new()
        .set_enabled(false)
        .append(EventKind::Message, 9, "x$".to_string(), None)
        .build();
    assert!(!bundle.is_enabled());
    // The bootstrap skips disabled bundles; their handlers stay invisible.
    let handlers = bundle.get_handler_list();
    assert_eq!(handlers.len(), 1);
}

#[test]
fn plugin_bundles_declare_their_handlers() {
    let start_bundle = start::initialize();
    assert_eq!(start_bundle.get_name().as_str(), "start");
    assert!(start_bundle.is_enabled());
    let handlers = start_bundle.get_handler_list();
    assert_eq!(handlers.len(), 2);
    let options = handlers[0].options.as_ref().expect("the command handler carries options");
    assert!(options.is_command);
    assert_eq!(options.description.as_deref(), Some("Start the bot"));

    let about_bundle = about::initialize();
    assert_eq!(about_bundle.get_name().as_str(), "about");
    assert!(about_bundle.is_enabled());
}
