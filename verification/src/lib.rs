//! The moderation ledger of a chat-platform bot, and what the bot decides around it.
//!
//! Every moderation action (a warning, kick, mute, timeout or ban, or the reversal of one of
//! the last three) is recorded as an entry of an append-only ledger. An entry changes only
//! by becoming inactive. Of the sanctions that stay in force (bans, mutes, timeouts) at most
//! one of each kind is active for a user in a guild, and a sweep ends those whose time is up.
//!
//! - [`types`], [`error`]: the kinds of actions, the entries, the stored rows, the errors.
//! - [`model`]: the ledger as a sequence of entries, and what its operations mean.
//! - [`ledger`], [`settings`], [`database`]: the store and its operations.
//! - [`reconciler`]: the sweep, one step at a time.
//! - [`laws`]: what holds of the ledger and of the sweep, proved once and for all.
//! - [`commands`], [`hooks`], [`embed`]: what each command does, says and records.
//! - [`durations`], [`timestamps`], [`text`]: lengths of time, points in time, numerals.
//!
//! The library neither talks to the platform nor keeps a database file. It decides; the
//! program around it carries out what was decided and reports how it went.

pub mod commands;
pub mod database;
pub mod durations;
pub mod embed;
pub mod error;
pub mod hooks;
pub mod laws;
pub mod ledger;
pub mod model;
pub mod reconciler;
pub mod settings;
pub mod text;
pub mod timestamps;
pub mod types;
