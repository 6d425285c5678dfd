//! Build histories of documented crates: which release a request means,
//! what of its builds is shown as a page and as a public feed, and how a
//! rebuild that is triggered from outside is let through, checked against
//! the queue and queued.

pub mod catalog;
pub mod listing;
pub mod queue;
pub mod rebuild;
pub mod record;
pub mod response;
pub mod text;
pub mod version;
