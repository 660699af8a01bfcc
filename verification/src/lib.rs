//! Lifecycle policy for cloud namespaces: how old a namespace is, which
//! tier that age puts it in, what the tier calls for, and how its stored
//! record is kept in step with what the platform reports.

pub mod api;
pub mod clock;
pub mod config;
pub mod cull;
pub mod export;
pub mod listing;
pub mod notice;
pub mod policy;
pub mod protocol;
pub mod reconcile;
pub mod resolve;
pub mod store;
pub mod table;
pub mod text;
pub mod tier;
