//! An HTTP relay: producers POST messages, consumers GET them, and each waits for the other.
//!
//! This library holds what a relay decides; a server around it owns the sockets, the clock and the
//! channels that wake waiting requests up. It hands the library a request and the time, and the
//! library answers with a reply, or with the advice to wait.
//!
//! - `inbox_handler`: store-and-forward messaging with acknowledgements, at `/inbox/{id}`.
//! - `link_handler`: synchronous handoff on top of the same entries, at `/link/{id}`.
//! - `link` and `link2`: handoff between requests that are there at the same time, without and
//!   with a cache for consumers who retry.
//! - `waiting_list`: the entries of the first two, and those who wait for them. `rendezvous`: the
//!   waiting requests and the cache of the last two.
//! - `persistence` and `storage_memory`: where entries are kept, on SQLite or in plain memory.
//! - `laws`: what holds of a waiting list across several operations. `history`: what holds after
//!   any sequence of them.
//! - `storage_calls`, `waiting_calls`, `pending_calls` and `reply_calls`: what every call of the
//!   operations does, said of what went in and what came out.
//!
//! # Library-only Usage
//!
//! The core types can be used directly:
//! ```ignore
//! use http_relay::{EntryRepository, Message, WaitingList};
//! ```

pub mod clock;
pub mod entries;
pub mod history;
pub mod inbox_handler;
pub mod keyed;
pub mod laws;
pub mod link;
pub mod link2;
pub mod link_handler;
pub mod payload;
pub mod pending_calls;
pub mod persistence;
pub mod rendezvous;
pub mod reply_calls;
pub mod repository;
pub mod request;
pub mod response;
pub mod server;
pub mod storage_calls;
pub mod storage_memory;
pub mod verbosity;
pub mod waiters;
pub mod waiting_calls;
pub mod waiting_list;

pub use clock::unix_timestamp_millis;
pub use entries::StoredEntry;
pub use payload::Message;
pub use persistence::EntryRepository;
pub use server::{HttpRelay, HttpRelayBuilder};
pub use verbosity::log_level;
pub use waiting_list::{GetOrSubscribeResult, SubscribeError, WaitingList};
