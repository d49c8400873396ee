//! Verified core of a portal-verification crawler: a proxy pool with bounded
//! concurrent use and eviction, a job generator enumerating an identifier
//! space, and the per-job verification pipeline modelled as a state machine
//! whose decisions (URL construction, template selection, result and error
//! classification) are proved against exact contracts. All network I/O is
//! performed by the surrounding program, which feeds events back in.

pub mod captcha;
pub mod classify;
pub mod error;
pub mod generator;
pub mod pipeline;
pub mod pool;
pub mod text;
pub mod urls;

use vstd::prelude::*;

verus! {

/// The threshold between the legacy and the current result-page template:
/// outer identifiers below it use the legacy template.
pub const LEGACY_TEMPLATE_THRESHOLD: u64 = 2014000000;

} // verus!
