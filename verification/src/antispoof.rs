//! The verdict of the anti-spoofing analysis of a GPS trajectory, which the
//! caller runs before proof generation (the analysis itself measures
//! distances and velocities in floating point).
use vstd::prelude::*;

verus! {

/// How likely a trajectory is to come from a spoofed location feed.
#[derive(Debug, Clone, Copy, PartialEq, Eq, Structural)]
pub enum SpoofVerdict {
    /// No sign of spoofing.
    Clean,
    /// Some implausible movement or suspiciously noiseless runs.
    Suspicious,
    /// Enough anomalies that proof generation should be refused.
    LikelySpoofed,
}

} // verus!
