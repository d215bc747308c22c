//! Committing a completed plan to a thread: what is persisted, what the model
//! sees, what clients are told, and how a repeated commit is recognised.

#![allow(unused_imports)]

pub mod commit;
pub mod context;
pub mod hash;
pub mod ids;
pub mod laws;
pub mod notifications;
pub mod protocol;
pub mod rollout;
pub mod text;
pub mod validation;
