//! Verified building blocks of a set of small Linux experiments: process
//! creation, a round-robin scheduler measurement, demand paging,
//! copy-on-write, file mappings and cache timing.

pub mod timing;
pub mod timeline;
pub mod sched;
pub mod children;
pub mod decimal;
pub mod command;
pub mod paging;
pub mod cache;
pub mod filemap;
