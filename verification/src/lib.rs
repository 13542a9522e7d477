//! A minimal real-time rendering harness, with its decision logic verified.
//!
//! The library holds everything about the harness that can be stated and
//! proved: the fixed window configuration, the triangle mesh data, the
//! frame-loop state machine, the interpretation of shader-compile and
//! program-link outcomes, and a mock graphics backend that models GPU
//! handle allocation, binding and release. The unverifiable parts (the
//! platform window, the real driver calls) live outside, built on these
//! contracts.

use vstd::prelude::*;

pub mod config;
pub mod frame;
pub mod gpu;
pub mod mesh;
pub mod outcome;
pub mod session;

verus! {

} // verus!
