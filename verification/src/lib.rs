//! The decision logic of a Signal client: what to send, store, fetch, accept and reject.
//!
//! Every function here works on plain values. The surrounding application performs the network,
//! database and clock operations that these functions ask for and hands the results back.
//!
//! - [`registration`] holds the account and what its registration allows.
//! - [`content`], [`save`], [`receive`] and [`send`] deal with messages.
//! - [`contacts`], [`coordinator`], [`workers`] and [`profile_updates`] keep contacts up to date.
//! - [`groups`], [`http`], [`storage`] and [`leave`] deal with groups and the service behind them.
//! - [`attachments`], [`stickers`] and [`profiles`] deal with what is downloaded.
//! - [`statement`], [`store`], [`outbox`], [`outbox_rows`], [`identity`] and [`identity_changes`]
//!   deal with the database.

pub mod attachments;
pub mod bytes;
pub mod contacts;
pub mod content;
pub mod coordinator;
pub mod error;
pub mod groups;
pub mod http;
pub mod identity;
pub mod identity_changes;
pub mod leave;
pub mod outbox;
pub mod outbox_rows;
pub mod profile_updates;
pub mod profiles;
pub mod receive;
pub mod registration;
pub mod save;
pub mod send;
pub mod seqs;
pub mod statement;
pub mod stickers;
pub mod storage;
pub mod store;
pub mod text;
pub mod workers;
