//! Core of an extensible launcher host: the bounded selection model, the
//! result list, the query/deferred continuation protocol with its
//! generation-based discard of stale completions, and the single-instance
//! coordination decisions.

pub mod bounded;
pub mod protocol;
pub mod plugin;
pub mod list_item;
pub mod result_list;
pub mod engine;
pub mod api;
pub mod instance;
