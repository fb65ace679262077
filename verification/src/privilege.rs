//! Privilege handling: interpreting the outcome of the non-interactive
//! elevation probe, and deciding whether mutating work may proceed when
//! elevated rights are not already available.

use vstd::prelude::*;

use crate::text::{contains_seq, contains_str};

verus! {

/// Whether elevated actions may proceed. Computed once, early; anything
/// other than `Available` halts all mutating work.
#[derive(Clone, Copy, Debug, PartialEq, Eq, Structural)]
pub enum PrivilegeState {
    /// The process already holds passwordless elevated rights.
    Available,
    /// The probe's diagnostic output says a password would be needed.
    RequiresPassword,
    /// The probe failed to run or was rejected outright.
    Denied,
}

/// What the interpretation of an elevation probe must yield: a diagnostic
/// that names the elevation tool and mentions a password wins over the
/// exit status; a successful exit without such a diagnostic is
/// `Available`; everything else (including a probe that could not be run
/// at all, `ran == false`) is `Denied`.
pub open spec fn privilege_of_probe(ran: bool, exit_success: bool, stderr: Seq<char>) -> PrivilegeState {
    if ran && contains_seq(stderr, "sudo:"@) && contains_seq(stderr, "password"@) {
        PrivilegeState::RequiresPassword
    } else if ran && exit_success {
        PrivilegeState::Available
    } else {
        PrivilegeState::Denied
    }
}

/// Interprets the outcome of the non-interactive elevation probe.
/// `ran` is whether the probe process could be spawned at all.
pub fn interpret_elevation_probe(ran: bool, exit_success: bool, stderr: &str) -> (r: PrivilegeState)
    ensures
        r == privilege_of_probe(ran, exit_success, stderr@),
{
    if ran && contains_str(stderr, "sudo:") && contains_str(stderr, "password") {
        PrivilegeState::RequiresPassword
    } else if ran && exit_success {
        PrivilegeState::Available
    } else {
        PrivilegeState::Denied
    }
}

/// The decision taken before any probing or corrective work starts.
#[derive(Clone, Copy, Debug, PartialEq, Eq, Structural)]
pub enum GateDecision {
    /// Elevated rights are available: provisioning may run.
    Proceed,
    /// Rights are missing and a credential was supplied on the command
    /// line; credential-based elevation is not wired up, so the run still
    /// halts, with a distinct diagnostic.
    HaltCredentialUnsupported,
    /// Rights are missing and no credential was supplied: halt and ask
    /// the operator for one.
    HaltNoCredential,
}

/// The privilege gate: provisioning proceeds exactly when elevated rights
/// are already available. A supplied credential is accepted but never
/// makes a non-`Available` state proceed.
pub fn privilege_gate(state: PrivilegeState, credential_supplied: bool) -> (r: GateDecision)
    ensures
        (r == GateDecision::Proceed) <==> (state == PrivilegeState::Available),
        state != PrivilegeState::Available ==> r == (if credential_supplied {
            GateDecision::HaltCredentialUnsupported
        } else {
            GateDecision::HaltNoCredential
        }),
{
    match state {
        PrivilegeState::Available => GateDecision::Proceed,
        _ => {
            if credential_supplied {
                GateDecision::HaltCredentialUnsupported
            } else {
                GateDecision::HaltNoCredential
            }
        },
    }
}

} // verus!
