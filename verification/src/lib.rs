//! Event ingestion and normalisation for a live-stream chat companion.
//!
//! Two sources feed the program: a line-based chat protocol with tags, and
//! an event-subscription protocol over a websocket. This library holds what
//! is decided and computed between the sockets and the consumers:
//!
//! - `messages` parses a chat line's tags: badges, emotes, flags, colour.
//! - `subscription_type`, `notice_type` and `deserialization` hold the data
//!   of the event-subscription protocol and its wire names.
//! - `eventsub` is the protocol client as a state machine.
//! - `notifications` routes notifications and settles reward redemptions.
//! - `channel` holds the messages for the consumers and the fan-out bus.
//! - `tui`, `chat`, `chat_commands`, `announcements`, `auth`, `cli`, `admin`,
//!   `assets` and `api` hold the decisions of the program around them.
//!
//! Text is handled as UTF-8 bytes throughout: every offset, split and
//! comparison in the contracts is a statement about byte sequences. The
//! caller owns sockets, files, requests and processes; it hands this
//! library plain values and carries out what it gets back.

pub mod text;
pub mod image_protocols;
pub mod assets;
pub mod messages;
pub mod subscription_type;
pub mod notice_type;
pub mod deserialization;
pub mod channel;
pub mod notifications;
pub mod api;
pub mod eventsub;
pub mod chat_commands;
pub mod announcements;
pub mod auth;
pub mod cli;
pub mod tui;
pub mod chat;
pub mod admin;
