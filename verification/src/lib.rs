//! Service-control core: discovers, classifies, and manipulates
//! operating-system-managed background services.
//!
//! The modules here hold the decision logic of the layer: bitmask
//! classification of service types, state labelling, decoding of native
//! service names, the two-phase enumeration's aggregation, and the
//! eligibility-gated control operations. The privileged calls into the
//! operating system's service manager are made by a thin host around this
//! library, which hands their raw results in as plain values.

pub mod classify;
pub mod control;
pub mod decode;
pub mod enumerate;
pub mod status;
