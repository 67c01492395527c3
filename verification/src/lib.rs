//! Verified core of a cursor-driven full-screen shader window.
//!
//! The library holds the decision logic of the application: the cursor
//! uniform and its byte encoding, the surface configuration rule, the
//! fixed render-pipeline description, the per-frame command plan, and the
//! window-event state machine. A thin unverified driver owns the window
//! and the GPU handles and carries out the plans this core produces.

pub mod dispatcher;
pub mod frame;
pub mod pipeline;
pub mod surface;
pub mod uniform;
