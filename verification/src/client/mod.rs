//! The browser client's decisions: what a user's click asks for, what a server
//! message changes in the client's picture of the session, and what is shown.

pub mod html;
pub mod session_ctx;
pub mod results;
pub mod events;
pub mod messages;
pub mod render;
pub mod templates;
pub mod panels;
