//! The error taxonomy shared by both components: a state read before
//! construction is a fatal misconfiguration; a failed signature or delegated
//! identity check is an ordinary, expected denial. The two are never
//! collapsed into one another, and neither is ever collapsed into the
//! structured `MissingArgument` error of the domain-authentication verifier.

use vstd::prelude::*;

verus! {

/// Failures of an authorization operation.
#[derive(Clone, Copy, Debug, PartialEq, Eq, Structural)]
pub enum AuthError {
    /// AdminIdentity or VerificationKey was read before construction: fatal,
    /// never a silently returned default.
    Misconfiguration,
    /// A signature did not verify, or an identity's authorization could not
    /// be established: an ordinary denial of the attempt.
    AuthDenied,
}

} // verus!
