//! The core of a chat bot that answers slash commands: it finds the handler
//! of a command, reads what the providers answer, and puts the reply
//! together.
//!
//! Nothing here talks to the network. A caller asks [`handler::advance`]
//! what comes next, makes the request it names, hands what came back to
//! [`api::receive`], and in the end sends the reply.
//!
//! - [`text`]: texts as sequences of characters.
//! - [`json`]: JSON documents and the extraction of fields by path.
//! - [`decode`]: reading JSON text with `serde_json`.
//! - [`column`]: display columns and their rendering.
//! - [`reply`]: plain and rich replies.
//! - [`render`]: a rich reply as a `serenity` `CreateEmbed`.
//! - [`api`]: requests and their outcomes.
//! - [`dispatch`]: routes, the life cycle of a dispatch, the counter.
//! - [`handler`]: the course of each handler, request by request.
//! - [`commands`]: the handlers.
//! - [`config`]: the credentials of the process.

pub mod api;
pub mod column;
pub mod commands;
pub mod config;
pub mod decode;
pub mod dispatch;
pub mod handler;
pub mod json;
pub mod render;
pub mod reply;
pub mod text;
