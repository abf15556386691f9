//! Boundary layer between application closures and a C-ABI real-time
//! operating system: bounded text formatting for logging and fault
//! reporting, the lifecycle discipline of one-shot task closures, the
//! single-slot polling-callback bridge, the critical-section pairing
//! discipline, and the decoding of encoder events into UI actions.

pub mod actions;
pub mod callback;
pub mod events;
pub mod logger;
pub mod report;
pub mod section;
pub mod sink;
pub mod tasks;
