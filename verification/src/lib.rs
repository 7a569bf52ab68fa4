//! The verified core of a service that makes a mail archive searchable.
//!
//! An archive is a tree of folders that hold messages. Every message is
//! turned into a document; the documents are submitted in batches to a
//! search index; a record of what has been dealt with lets a later run pass
//! over it. Beside that, the body of a single message can be looked up on
//! demand, through a cache and within a bounded wait.
//!
//! This crate holds the decisions and the data of that service, each with a
//! contract that Verus proves. It reads no file and waits for nothing: the
//! program around it fetches what the library asks for and reports what it
//! found.
//!
//! - [`id`]: the identifiers of messages, written and read.
//! - [`progress`]: the record of outcomes and the text that keeps it.
//! - [`walker`]: the walk through the folders, and what it hands out.
//! - [`pipeline`]: the batches of documents and their settlement.
//! - [`lookup`]: the cache of bodies, the course of a request, the way to a
//!   message.
//! - [`document`], [`message`], [`recipients`]: what a document is made of.
//! - [`item`], [`attachment`], [`recordset`], [`filetime`], [`encoding`]:
//!   the numbers, times and strings of the archive format.
//! - [`search`]: paging through search results.
//! - [`text`]: strings as sequences of characters.

pub mod attachment;
pub mod document;
pub mod encoding;
pub mod error;
pub mod filetime;
pub mod id;
pub mod item;
pub mod lookup;
pub mod message;
pub mod pipeline;
pub mod progress;
pub mod recipients;
pub mod recordset;
pub mod search;
pub mod text;
pub mod walker;
