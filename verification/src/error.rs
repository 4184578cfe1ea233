use vstd::prelude::*;

verus! {

/// The error the Super Organization reports from one of its own operations.
/// The engine never interprets it: it is surfaced to the local caller
/// unchanged, as an opaque code.
#[derive(Clone, Copy, Debug, PartialEq, Eq, Structural)]
pub struct SuperDaoError {
    pub code: u32,
}

/// The errors a caller of the engine is expected to branch on.
#[derive(Clone, Copy, Debug, PartialEq, Eq, Structural)]
pub enum DaoError {
    /// Registration of an identity that is already a member.
    VoterAlreadyRegistered,
    /// An operation gated on membership, by an identity that is no member.
    VoterNotRegistered,
    /// A proposal position at or past the current length of the ledger.
    ProposalDoesNotExist,
    /// A Super Organization call that failed; wraps the organization's own
    /// error. The engine commits no local state change when it reports this,
    /// and performs no retry: a failed delegated vote leaves no safe retry
    /// state, so the caller must treat it as fatal.
    RemoteCallFailed(SuperDaoError),
}

} // verus!
