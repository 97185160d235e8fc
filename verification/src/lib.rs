//! Triage of tracker notifications: where a response is cached, whether the
//! cached copy may still be served, how one retrieval proceeds, and how a
//! notification is ranked by the reader's relation to it.
//!
//! The crate performs no input or output. A caller carries out the actions
//! that the library asks for and reports back what happened.

pub mod cache;
pub mod client;
pub mod error;
pub mod fetch;
pub mod level;
pub mod model;
pub mod terminal;
pub mod text;

pub use crate::error::Error;
pub use crate::client::Client;
pub use crate::level::NotificationLevel;
pub use crate::model::{
    Notification, NotificationReason, NotificationSubject, PrOrIssue, PullRequest,
    PullRequestState, SubjectType, User,
};
