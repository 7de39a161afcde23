//! Export of a media server's watch history: typed API payloads, the
//! request shapes of its endpoints, a pull-based paging state machine over
//! the history endpoint, and the lookups that turn history records into rows.

pub mod client;
pub mod deserializers;
pub mod export;
pub mod library;
pub mod media_item;
pub mod pagination;
pub mod paging_proofs;
pub mod watch_history;
