//! Live "now playing" state for media players on a desktop session bus, kept
//! in step with the players as they come and go, together with the small
//! battery and output helpers of the status tools built on it.
//!
//! The modules, leaves first: `text` (string primitives), `value` (the
//! dynamically typed values a player reports), `properties` (the typed
//! snapshot), `decode` (from bags of values to snapshots and deltas),
//! `registry` (the one shared store), `tracker` (ownership, change and poll
//! decisions), and `error`, `timestamp`, `battery`, `output` for the status
//! tools.
pub mod text;
pub mod value;
pub mod properties;
pub mod decode;
pub mod registry;
pub mod tracker;
pub mod error;
pub mod timestamp;
pub mod battery;
pub mod output;
