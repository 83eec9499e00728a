//! Feed resolution, time-windowed paging and alias-cache synchronisation for a
//! social-feed client, with the decisions proved against their contracts.
pub mod text;
pub mod instant;
pub mod post;
pub mod cache;
pub mod resolve;
pub mod fetch;
pub mod sync;
pub mod prompt;
