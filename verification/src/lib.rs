//! Review-readiness scoring for open pull requests.
//!
//! A [`Pr`] is a snapshot of one pull request. [`Score::from_pr_at`] turns it,
//! together with the number of approvals a repository requires and an instant
//! taken as "now", into eight weighted contributions; [`Score::total`] adds
//! them up into the key by which pull requests are ranked.
//!
//! All amounts are whole numbers of tenths of a point. The smallest weight of
//! the model is one tenth of a point, so every contribution and every sum is
//! exact.

pub mod laws;
pub mod timestamp;
pub mod types;

pub use timestamp::Timestamp;
pub use types::{Pr, Score, ScoredPr};
