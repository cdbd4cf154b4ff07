//! The extraction guard and soliton propagation gate at the foreign-function
//! boundary: which checks a metric passes, what a blocked propagation is
//! answered, how many rejection audit records are written, and the metric's
//! trace signature.
//!
//! The floating-point comparisons behind each check are made by the caller.

use vstd::prelude::*;
use crate::digest::{sha256, sha256_digest};
use crate::text::{hex_bytes, hex_chars, string_from_chars};

verus! {

/// What the extraction guard finds of a metric.
#[derive(Debug, Clone, Copy, PartialEq, Eq, Structural)]
pub enum GuardVerdict {
    /// No metric was supplied.
    Missing,
    /// The stability score is below the 0.65 baseline.
    StabilityBelowBaseline,
    /// The resonance delta lies outside the 0.05 window.
    ResonanceOutOfBounds,
    /// The metric passes both checks.
    Passed,
}

/// Runs the guard's checks in order: presence, stability baseline, resonance
/// window.
pub fn check_extraction_guard(
    metric_present: bool,
    stability_below_baseline: bool,
    resonance_out_of_window: bool,
) -> (v: GuardVerdict)
    ensures
        !metric_present ==> v == GuardVerdict::Missing,
        metric_present && stability_below_baseline ==> v == GuardVerdict::StabilityBelowBaseline,
        metric_present && !stability_below_baseline && resonance_out_of_window ==> v
            == GuardVerdict::ResonanceOutOfBounds,
        metric_present && !stability_below_baseline && !resonance_out_of_window ==> v
            == GuardVerdict::Passed,
{
    if !metric_present {
        GuardVerdict::Missing
    } else if stability_below_baseline {
        GuardVerdict::StabilityBelowBaseline
    } else if resonance_out_of_window {
        GuardVerdict::ResonanceOutOfBounds
    } else {
        GuardVerdict::Passed
    }
}

impl GuardVerdict {
    /// Whether the metric may go on.
    pub fn passed(&self) -> (b: bool)
        ensures
            b == (*self == GuardVerdict::Passed),
    {
        match self {
            GuardVerdict::Passed => true,
            _ => false,
        }
    }

    /// The audit reason logged for a rejection by the guard, if the guard
    /// logs one (a missing metric is refused without a record).
    pub fn audit_reason(&self) -> (r: Option<&'static str>)
        ensures
            *self == GuardVerdict::StabilityBelowBaseline ==> r == Some(
                "Stability Score < 0.65 baseline",
            ),
            *self == GuardVerdict::ResonanceOutOfBounds ==> r == Some(
                "Resonance Delta out of acceptable bounds",
            ),
            *self == GuardVerdict::Missing || *self == GuardVerdict::Passed ==> r is None,
    {
        match self {
            GuardVerdict::StabilityBelowBaseline => Some("Stability Score < 0.65 baseline"),
            GuardVerdict::ResonanceOutOfBounds => Some("Resonance Delta out of acceptable bounds"),
            _ => None,
        }
    }
}

/// How a soliton propagation ends.
#[derive(Debug, Clone, Copy, PartialEq, Eq, Structural)]
pub enum SolitonOutcome {
    /// No metric was supplied: blocked.
    Missing,
    /// The extraction guard refused the metric: blocked.
    GuardTriggered,
    /// The W-state fidelity is below 0.9999: blocked.
    FidelityBelowThreshold,
    /// Allowed; the derived metric carries the next lifecycle epoch.
    Propagated { lifecycle_epoch: u64 },
}

/// The number of rejection audit records a propagation writes: a guard
/// refusal is recorded by the guard and again by the propagation stage, a
/// low fidelity once, and neither a missing metric nor a success at all.
pub open spec fn soliton_audit_records(o: SolitonOutcome) -> nat {
    match o {
        SolitonOutcome::GuardTriggered => 2,
        SolitonOutcome::FidelityBelowThreshold => 1,
        _ => 0,
    }
}

/// Gates a propagation: the guard is re-checked, then the fidelity against
/// its threshold; an allowed metric moves on to the epoch after `timestamp`.
pub fn propagate_soliton(guard: GuardVerdict, fidelity_below_threshold: bool, timestamp: u64) -> (o:
    SolitonOutcome)
    requires
        guard == GuardVerdict::Passed && !fidelity_below_threshold ==> timestamp < u64::MAX,
    ensures
        guard == GuardVerdict::Missing ==> o == SolitonOutcome::Missing,
        guard == GuardVerdict::StabilityBelowBaseline || guard == GuardVerdict::ResonanceOutOfBounds
            ==> o == SolitonOutcome::GuardTriggered,
        guard == GuardVerdict::Passed && fidelity_below_threshold ==> o
            == SolitonOutcome::FidelityBelowThreshold,
        guard == GuardVerdict::Passed && !fidelity_below_threshold ==> o
            == (SolitonOutcome::Propagated { lifecycle_epoch: (timestamp + 1) as u64 }),
{
    match guard {
        GuardVerdict::Missing => SolitonOutcome::Missing,
        GuardVerdict::Passed => {
            if fidelity_below_threshold {
                SolitonOutcome::FidelityBelowThreshold
            } else {
                SolitonOutcome::Propagated { lifecycle_epoch: timestamp + 1 }
            }
        },
        _ => SolitonOutcome::GuardTriggered,
    }
}

impl SolitonOutcome {
    /// Whether the propagation was allowed.
    pub fn allowed(&self) -> (b: bool)
        ensures
            b == (*self is Propagated),
    {
        match self {
            SolitonOutcome::Propagated { .. } => true,
            _ => false,
        }
    }

    /// The number of rejection audit records the propagation writes.
    pub fn audit_records(&self) -> (n: u64)
        ensures
            n == soliton_audit_records(*self),
    {
        match self {
            SolitonOutcome::GuardTriggered => 2,
            SolitonOutcome::FidelityBelowThreshold => 1,
            _ => 0,
        }
    }

    /// The fixed reason text of a blocked propagation; a low fidelity's
    /// reason quotes the fidelity and is written by the caller.
    pub fn neutralized_reason(&self) -> (r: Option<&'static str>)
        ensures
            *self == SolitonOutcome::Missing ==> r == Some("Null or critically invalid structure"),
            *self == SolitonOutcome::GuardTriggered ==> r == Some(
                "99733-Q Extraction Guard triggered during execution phase",
            ),
            *self is FidelityBelowThreshold || *self is Propagated ==> r is None,
    {
        match self {
            SolitonOutcome::Missing => Some("Null or critically invalid structure"),
            SolitonOutcome::GuardTriggered => Some(
                "99733-Q Extraction Guard triggered during execution phase",
            ),
            _ => None,
        }
    }
}

/// The big-endian bytes of the lowest `width` bytes of `n`.
pub open spec fn be_bytes(n: nat, width: nat) -> Seq<u8>
    decreases width,
{
    if width == 0 {
        Seq::empty()
    } else {
        be_bytes(n / 256, (width - 1) as nat).push((n % 256) as u8)
    }
}

fn push_be_bytes(out: &mut Vec<u8>, n: u64, width: u64)
    ensures
        final(out)@ == old(out)@ + be_bytes(n as nat, width as nat),
    decreases width,
{
    if width > 0 {
        push_be_bytes(out, n / 256, width - 1);
        out.push((n % 256) as u8);
        assert(final(out)@ =~= old(out)@ + be_bytes(n as nat, width as nat));
    }
}

/// A metric's trace signature: the vault token label `blake3:` followed by
/// the lowercase hex SHA-256 digest of the timestamp and of the stability
/// score scaled by one million, each as 8 big-endian bytes. The digest is
/// one-way: the signature does not carry the raw values.
pub open spec fn metric_trace(timestamp: u64, scaled_stability: u64) -> Seq<char> {
    "blake3:"@ + hex_bytes(
        sha256_digest(be_bytes(timestamp as nat, 8) + be_bytes(scaled_stability as nat, 8)),
    )
}

/// The trace signature of a metric from its timestamp and its stability
/// score scaled by one million (as the caller converted it to an integer).
pub fn compute_metric_hash(timestamp: u64, scaled_stability: u64) -> (s: String)
    ensures
        s@ == metric_trace(timestamp, scaled_stability),
{
    let mut bytes: Vec<u8> = Vec::new();
    push_be_bytes(&mut bytes, timestamp, 8);
    push_be_bytes(&mut bytes, scaled_stability, 8);
    assert(bytes@ =~= be_bytes(timestamp as nat, 8) + be_bytes(scaled_stability as nat, 8));
    let digest = sha256(bytes.as_slice());
    let hex = hex_chars(digest.as_slice());
    let mut out = String::from_str("blake3:");
    let tail = string_from_chars(&hex);
    out.append(tail.as_str());
    out
}

} // verus!
