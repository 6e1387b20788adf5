//! Lifecycle supervision for a single sidecar worker process.
//!
//! The crate models the startup and shutdown decisions a desktop shell makes
//! around one auxiliary server process: whether to spawn it, where its data
//! lives, and how the supervised handle evolves as the host reports spawn and
//! kill outcomes.  The host application performs the actual process work and
//! feeds the outcomes back as events.

pub mod config;
pub mod paths;
pub mod supervisor;
