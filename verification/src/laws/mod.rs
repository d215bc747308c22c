//! What holds of commits as a whole.

pub mod answering;
pub mod course;
pub mod digits;
pub mod finding;
pub mod hashing;
pub mod identity;
pub mod layout;
pub mod outcome;
pub mod recording;
pub mod refusing;
pub mod showing;
pub mod steps;
