//! The records the persistence collaborator stores: one per user and one per
//! group the bot has seen. The collaborator itself (a plain key
//! lookup/insert) stays outside the library; the resolver consumes its
//! results as values of these types.

use vstd::prelude::*;

verus! {

/// A stored user: Telegram user id, user name, and the bot's language for
/// that user.
#[derive(Debug, Clone)]
pub struct User {
    pub id: i64,
    pub name: String,
    pub language: String,
}

/// A stored group: Telegram group id, group title, and the bot's language
/// for that group.
#[derive(Debug, Clone)]
pub struct Group {
    pub id: i64,
    pub title: String,
    pub language: String,
}

} // verus!
