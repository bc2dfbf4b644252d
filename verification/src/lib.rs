//! The core of a sticker-pack server.
//!
//! The server hands chat clients the sticker packs of a profile, which lie
//! in an object store, and serves a web interface out of a checkout that it
//! keeps current with an upstream repository.  This library holds what the
//! server decides and computes:
//!
//! - [`pack_index`]: which manifests a profile owns, sorted by key;
//! - [`catalog`]: the emote catalog, stickers by id in first-seen order;
//! - [`aggregate`]: merging all manifests of a profile into one catalog, or
//!   giving up on the first one that fails;
//! - [`mirror`]: when and how the checkout is refreshed, fast-forward only;
//! - [`proxy`]: how a stored object is handed out as it is;
//! - [`config`]: the settings the process needs to start;
//! - [`byte_order`]: the order of keys.
//!
//! Nothing here talks to the store, runs git or answers requests.  The
//! caller does, and tells the library what came of it.

pub mod aggregate;
pub mod byte_order;
pub mod catalog;
pub mod config;
pub mod mirror;
pub mod pack_index;
pub mod proxy;
