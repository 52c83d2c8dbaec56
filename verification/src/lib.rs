//! Planning-poker sessions: members, polls and votes, the messages that
//! clients and server exchange, and the decisions both sides take on them.
//!
//! Identifiers (users, connections, polls) are 128-bit values; `ids` turns
//! them to and from their textual UUID form.

pub mod ids;
pub mod markup;
pub mod member;
pub mod poll;
pub mod text;
pub mod session;
pub mod search;
pub mod store;
pub mod messages;
pub mod pages;
pub mod home;
pub mod profile;
pub mod handler;
pub mod session_ctx;
pub mod client;
pub mod web;
