//! Time-history response of a one-mass oscillator to a ground-acceleration
//! record, integrated step by step with the Newmark-β scheme.
//!
//! The library is generic in the scalar type `T` of its samples. It owns the
//! bookkeeping of the integration: which quantities are derived from which,
//! the order in which the update rules of one step are applied, and how the
//! response series line up with the input record. The arithmetic of the
//! rules themselves is handed in by the caller as functions over `T`, and
//! every contract is stated over what those functions guarantee.

pub mod analyzer;
pub mod laws;
pub mod response;

pub use analyzer::{ParamError, ResponseAccAnalyzer, ResponseAccAnalyzerParams, DEFAULT_MASS};
pub use response::Result;
