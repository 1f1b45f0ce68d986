//! Supervision of a single auxiliary worker process ("the connector").
//!
//! The library owns every decision of the connector's lifecycle: which
//! step of a start comes next, which error a caller receives, what port
//! and process are recorded, and the guarantee that a stop — forced or
//! requested — leaves no stale state behind. The operating-system work
//! itself (binding an ephemeral port, spawning, killing, reaping) is
//! performed by an unverified driver, which reports each outcome to the
//! supervisor as an event and carries out the action it is handed back.

pub mod errors;
pub mod laws;
pub mod state;
pub mod supervisor;
