//! The privilege gate: the first check of every invocation.
//!
//! A correctly installed launcher runs with effective identity 0 (the
//! privileged identity) and the invoking user's real identity. The check
//! refuses anything else: without effective 0 the launcher cannot perform
//! the privileged invocation, and with real equal to effective it cannot
//! tell which unprivileged identity to drop to.

use vstd::prelude::*;

verus! {

/// Why the privilege precondition was not met.
#[derive(Clone, Copy, Debug, PartialEq, Eq, Structural)]
pub enum PermissionError {
    /// The effective identity is not the privileged identity 0.
    NotSetuidRoot,
    /// The real identity equals the effective identity, so the unprivileged
    /// identity to drop to cannot be determined.
    RealEqualsEffective,
}

impl PermissionError {
    /// The diagnostic written for this failure.
    pub fn message(&self) -> (r: &'static str)
        ensures
            *self == PermissionError::NotSetuidRoot
                ==> r@ == "This application must be installed setuid root"@,
            *self == PermissionError::RealEqualsEffective
                ==> r@ == "Unable to determine real uid, please run as the bigbluebutton user"@,
    {
        match self {
            PermissionError::NotSetuidRoot => "This application must be installed setuid root",
            PermissionError::RealEqualsEffective => {
                "Unable to determine real uid, please run as the bigbluebutton user"
            },
        }
    }
}

/// Decides the privilege gate for a credential triple read at startup.
///
/// Accepts exactly when the effective identity is 0 and the real identity
/// differs from it, and then yields the real identity — the unprivileged
/// user the sandboxed command will run as. The saved identity carries no
/// extra information here but is part of the triple the platform reports.
pub fn verify_privilege(ruid: u32, euid: u32, _suid: u32) -> (r: Result<u32, PermissionError>)
    ensures
        euid != 0 ==> r == Err::<u32, PermissionError>(PermissionError::NotSetuidRoot),
        euid == 0 && ruid == euid
            ==> r == Err::<u32, PermissionError>(PermissionError::RealEqualsEffective),
        euid == 0 && ruid != euid ==> r == Ok::<u32, PermissionError>(ruid),
{
    if euid != 0 {
        Err(PermissionError::NotSetuidRoot)
    } else if ruid == euid {
        Err(PermissionError::RealEqualsEffective)
    } else {
        Ok(ruid)
    }
}

} // verus!
