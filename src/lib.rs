//! Retention purge for a Misskey account: the date window, the two ways of
//! choosing a note to delete, the pinned-note guard, and the step-by-step
//! workflow that ties them to the remote service.
pub mod config;
pub mod datetime;
pub mod misskey;
pub mod selection;
pub mod workflow;
