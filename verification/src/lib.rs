//! Sequential fetching of a model's artifact files.
//!
//! The crate decides what a fetch does and in which order: which files belong
//! to a model, where each comes from and where it goes, how the progress of a
//! transfer is counted, and what follows each outcome of the work on disk and
//! on the network. That work itself is left to the caller, who performs one
//! action at a time and reports what came of it.
//!
//! - `resource`: the six files of a model, their addresses and their places.
//! - `error`: the steps that can fail, and what each failure reports.
//! - `progress`: the position of the progress display and what it is told.
//! - `style`: the look of the progress display.
//! - `transfer`: the transfer of one file, from event to action.
//! - `fetch`: the transfers of a model, one after the other.
//! - `trace`, `disk`, `host`, `guarantees`: what holds of every fetch, on a
//!   model of the file system and of a host.

pub mod disk;
pub mod error;
pub mod fetch;
pub mod guarantees;
pub mod host;
pub mod progress;
pub mod resource;
pub mod style;
pub mod trace;
pub mod transfer;
