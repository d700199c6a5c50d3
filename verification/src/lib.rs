//! A stopwatch library, generic over the timekeeping type.
//!
//! A [`Stopwatch`] accumulates elapsed time across start/stop cycles,
//! measured against any clock that implements the [`Instant`] trait.
//! Every arithmetic operation comes in a saturating and a checked flavor,
//! and equality between stopwatches is defined through a canonical form
//! that collapses different internal representations of the same logical
//! trajectory.

pub mod canonical;
pub mod duration;
pub mod instant;
pub mod laws;
pub mod stopwatch;
pub mod virtual_instant;

pub use crate::canonical::Canonical;
pub use crate::duration::Duration;
pub use crate::instant::Instant;
pub use crate::stopwatch::Stopwatch;
pub use crate::virtual_instant::VirtualInstant;
