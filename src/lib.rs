//! Mobile synchronisation core for the Dedale event planner: wire frames,
//! message classification, the per-connection session state machine, the
//! registry of the current session's handles and the transactional
//! ingestion plan for data sent back by the mobile companion. Beside them,
//! the checks applied to values before they reach the desktop store and the
//! text pieces of the printed point report.

pub mod text;
pub mod wire;
pub mod classify;
pub mod registry;
pub mod session;
pub mod ingest;
pub mod qr;
pub mod types;
pub mod store;
pub mod report;
