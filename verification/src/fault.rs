//! Fault injection for test harnesses: a selector names a failure class,
//! and early attempts of a job are forced to that outcome, so that the
//! retry path can be exercised deterministically without a live dependency.

use vstd::prelude::*;
use crate::classify::chars_eq_ci;
use crate::classify::str_eq_ci;
use crate::executor::AttemptOutcome;

verus! {

/// The failure class a test run can force.
#[derive(Clone, Copy, Debug, PartialEq, Eq, Structural)]
pub enum FaultKind {
    Status429,
    Status500,
    Idle,
}

/// The selector values accepted (ASCII case does not matter): `429`, `5xx`
/// or `500`, and `idle`; anything else selects nothing.
pub open spec fn parse_fault_spec(s: Option<Seq<char>>) -> Option<FaultKind> {
    match s {
        None => None,
        Some(v) => {
            if chars_eq_ci(v, "429"@) {
                Some(FaultKind::Status429)
            } else if chars_eq_ci(v, "5xx"@) || chars_eq_ci(v, "500"@) {
                Some(FaultKind::Status500)
            } else if chars_eq_ci(v, "idle"@) {
                Some(FaultKind::Idle)
            } else {
                None
            }
        },
    }
}

pub fn parse_fault(s: Option<&str>) -> (r: Option<FaultKind>)
    ensures
        r == parse_fault_spec(
            match s {
                Some(v) => Some(v@),
                None => None,
            },
        ),
{
    match s {
        None => None,
        Some(v) => {
            if str_eq_ci(v, "429") {
                Some(FaultKind::Status429)
            } else if str_eq_ci(v, "5xx") || str_eq_ci(v, "500") {
                Some(FaultKind::Status500)
            } else if str_eq_ci(v, "idle") {
                Some(FaultKind::Idle)
            } else {
                None
            }
        },
    }
}

/// The attempt outcome a selected fault forces.
pub open spec fn injected_outcome_spec(fault: Option<FaultKind>) -> Option<AttemptOutcome> {
    match fault {
        None => None,
        Some(FaultKind::Status429) => Some(AttemptOutcome::HttpStatus(429)),
        Some(FaultKind::Status500) => Some(AttemptOutcome::HttpStatus(500)),
        Some(FaultKind::Idle) => Some(AttemptOutcome::IdleTimeout),
    }
}

pub fn injected_outcome(fault: &Option<FaultKind>) -> (r: Option<AttemptOutcome>)
    ensures
        r == injected_outcome_spec(*fault),
{
    match fault {
        None => None,
        Some(FaultKind::Status429) => Some(AttemptOutcome::HttpStatus(429)),
        Some(FaultKind::Status500) => Some(AttemptOutcome::HttpStatus(500)),
        Some(FaultKind::Idle) => Some(AttemptOutcome::IdleTimeout),
    }
}

/// What a selected fault forces on attempt `attempt` (1-based) of `max`: the
/// fault's outcome on every early attempt, and nothing on the final one,
/// which falls through to real execution.
pub open spec fn inject_on_attempt_spec(fault: Option<FaultKind>, attempt: nat, max: nat) -> Option<
    AttemptOutcome,
> {
    if attempt < max {
        injected_outcome_spec(fault)
    } else {
        None
    }
}

pub fn inject_on_attempt(fault: &Option<FaultKind>, attempt: usize, max: usize) -> (r: Option<
    AttemptOutcome,
>)
    ensures
        r == inject_on_attempt_spec(*fault, attempt as nat, max as nat),
{
    if attempt < max {
        injected_outcome(fault)
    } else {
        None
    }
}

} // verus!
