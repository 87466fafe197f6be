//! Reactive decision layer for tracked on-chain contract instances.
//!
//! Given an instance's positional encoded state, the library decodes it into a
//! typed context for one of four contract variants, evaluates the variant's
//! eligibility predicate with exact 256-bit arithmetic, and returns either a
//! transaction request to submit or an idle signal.  It can also re-encode a
//! decoded context into a named-field display document for operators.

pub mod abi;
pub mod engine;
pub mod lottery;
pub mod num;
pub mod pos;
pub mod pos_claim;
pub mod pos_prototype;
pub mod reaction;
pub mod state;
