//! Power-limit policy enforcement for a mobile processor.
//!
//! The crate models named power policies with optional limit fields,
//! selects the applicable policy from the observed system state, and
//! computes the exact ordered sequence of hardware calls needed to
//! converge the hardware toward that policy.  Reading status files and
//! issuing the hardware calls is left to the surrounding process; the
//! decision logic here is verified.

pub mod laws;
pub mod model;
pub mod plan;
pub mod state;
pub mod text;
