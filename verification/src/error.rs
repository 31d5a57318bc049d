//! Typed failures and the retry policy that classifies them.

use vstd::prelude::*;

verus! {

/// Everything that can go wrong while a transfer is advanced.
#[derive(Clone, Copy, Debug, PartialEq, Eq, Structural)]
pub enum BridgeError {
    /// A node could not be reached or a request timed out.
    Transient,
    /// Not enough confirmations yet, or the proof is not final yet.
    NotYetReady,
    /// The local chain index did not catch up with the tip in time.
    NotSynced,
    /// The chain and the record disagree on whether a transaction exists.
    IdempotencyConflict,
    /// Two different transactions were broadcast for one logical step.
    Irreconcilable,
    /// No inclusion proof can be produced for the tracked transaction.
    ProofUnavailable,
    /// The verifier on the receiving chain refused the proof.
    ProofRejected,
    /// The operator stopped the transfer.
    Aborted,
    /// The log store could not complete a read or a write.
    StoreFailure,
    /// The record was changed by someone else since it was read.
    VersionConflict,
    /// The record's version counter cannot be raised any further.
    VersionExhausted,
    /// The log refused a record that does not continue the stored one, or
    /// holds under the identifier a record of another transfer.
    Rejected,
}

/// How the engine reacts to an error.
#[derive(Clone, Copy, Debug, PartialEq, Eq, Structural)]
pub enum ErrorClass {
    /// Keep the status, remember the error, let the caller try again.
    Retryable,
    /// Nothing failed; the caller should come back later.
    NotYetReady,
    /// Give up: the transfer needs manual intervention.
    Fatal,
    /// The call fails and the record stays as it was last stored.
    Store,
}

impl BridgeError {
    /// The retry policy: the class of each error.
    pub open spec fn class(self) -> ErrorClass {
        match self {
            BridgeError::Transient => ErrorClass::Retryable,
            BridgeError::NotSynced => ErrorClass::Retryable,
            BridgeError::IdempotencyConflict => ErrorClass::Retryable,
            BridgeError::ProofUnavailable => ErrorClass::Retryable,
            BridgeError::NotYetReady => ErrorClass::NotYetReady,
            BridgeError::Irreconcilable => ErrorClass::Fatal,
            BridgeError::ProofRejected => ErrorClass::Fatal,
            BridgeError::Aborted => ErrorClass::Fatal,
            BridgeError::StoreFailure => ErrorClass::Store,
            BridgeError::VersionConflict => ErrorClass::Store,
            BridgeError::VersionExhausted => ErrorClass::Store,
            BridgeError::Rejected => ErrorClass::Store,
        }
    }

    /// Number under which the error is written to a persisted record.
    pub open spec fn code(self) -> u8 {
        match self {
            BridgeError::Transient => 0,
            BridgeError::NotYetReady => 1,
            BridgeError::NotSynced => 2,
            BridgeError::IdempotencyConflict => 3,
            BridgeError::Irreconcilable => 4,
            BridgeError::ProofUnavailable => 5,
            BridgeError::ProofRejected => 6,
            BridgeError::Aborted => 7,
            BridgeError::StoreFailure => 8,
            BridgeError::VersionConflict => 9,
            BridgeError::VersionExhausted => 10,
            BridgeError::Rejected => 11,
        }
    }

    /// The error written under a number, if there is one.
    pub open spec fn decode(v: u8) -> Option<BridgeError> {
        if v == 0 {
            Some(BridgeError::Transient)
        } else if v == 1 {
            Some(BridgeError::NotYetReady)
        } else if v == 2 {
            Some(BridgeError::NotSynced)
        } else if v == 3 {
            Some(BridgeError::IdempotencyConflict)
        } else if v == 4 {
            Some(BridgeError::Irreconcilable)
        } else if v == 5 {
            Some(BridgeError::ProofUnavailable)
        } else if v == 6 {
            Some(BridgeError::ProofRejected)
        } else if v == 7 {
            Some(BridgeError::Aborted)
        } else if v == 8 {
            Some(BridgeError::StoreFailure)
        } else if v == 9 {
            Some(BridgeError::VersionConflict)
        } else if v == 10 {
            Some(BridgeError::VersionExhausted)
        } else if v == 11 {
            Some(BridgeError::Rejected)
        } else {
            None
        }
    }

    /// The text shown to an operator for each error.
    pub open spec fn message(self) -> Seq<char> {
        match self {
            BridgeError::Transient => "chain node unreachable or request timed out"@,
            BridgeError::NotYetReady => "not yet ready, try again later"@,
            BridgeError::NotSynced => "chain index is not synced to the tip"@,
            BridgeError::IdempotencyConflict => "chain and record disagree about a transaction"@,
            BridgeError::Irreconcilable => "two transactions were broadcast for one step"@,
            BridgeError::ProofUnavailable => "inclusion proof unavailable"@,
            BridgeError::ProofRejected => "proof rejected by the on-chain verifier"@,
            BridgeError::Aborted => "transfer aborted by the operator"@,
            BridgeError::StoreFailure => "transfer log store failure"@,
            BridgeError::VersionConflict => "record changed since it was read"@,
            BridgeError::VersionExhausted => "record version counter exhausted"@,
            BridgeError::Rejected => "record refused by the transfer log"@,
        }
    }

    /// Classifies the error.
    pub fn classify(self) -> (c: ErrorClass)
        ensures
            c == self.class(),
    {
        match self {
            BridgeError::Transient
            | BridgeError::NotSynced
            | BridgeError::IdempotencyConflict
            | BridgeError::ProofUnavailable => ErrorClass::Retryable,
            BridgeError::NotYetReady => ErrorClass::NotYetReady,
            BridgeError::Irreconcilable | BridgeError::ProofRejected | BridgeError::Aborted => {
                ErrorClass::Fatal
            },
            BridgeError::StoreFailure
            | BridgeError::VersionConflict
            | BridgeError::VersionExhausted
            | BridgeError::Rejected => ErrorClass::Store,
        }
    }

    /// True for the errors after which the same call may simply be repeated.
    pub fn is_retryable(self) -> (b: bool)
        ensures
            b == (self.class() != ErrorClass::Fatal),
    {
        match self.classify() {
            ErrorClass::Fatal => false,
            _ => true,
        }
    }

    /// The number under which the error is persisted.
    pub fn int_value(self) -> (v: u8)
        ensures
            v == self.code(),
            BridgeError::decode(v) == Some(self),
    {
        match self {
            BridgeError::Transient => 0,
            BridgeError::NotYetReady => 1,
            BridgeError::NotSynced => 2,
            BridgeError::IdempotencyConflict => 3,
            BridgeError::Irreconcilable => 4,
            BridgeError::ProofUnavailable => 5,
            BridgeError::ProofRejected => 6,
            BridgeError::Aborted => 7,
            BridgeError::StoreFailure => 8,
            BridgeError::VersionConflict => 9,
            BridgeError::VersionExhausted => 10,
            BridgeError::Rejected => 11,
        }
    }

    /// Reads an error back from its number; `None` for a number that stands
    /// for no error.
    pub fn from_int(v: u8) -> (r: Option<BridgeError>)
        ensures
            r == BridgeError::decode(v),
            r is Some <==> v <= 11,
            r matches Some(e) ==> e.code() == v,
    {
        match v {
            0 => Some(BridgeError::Transient),
            1 => Some(BridgeError::NotYetReady),
            2 => Some(BridgeError::NotSynced),
            3 => Some(BridgeError::IdempotencyConflict),
            4 => Some(BridgeError::Irreconcilable),
            5 => Some(BridgeError::ProofUnavailable),
            6 => Some(BridgeError::ProofRejected),
            7 => Some(BridgeError::Aborted),
            8 => Some(BridgeError::StoreFailure),
            9 => Some(BridgeError::VersionConflict),
            10 => Some(BridgeError::VersionExhausted),
            11 => Some(BridgeError::Rejected),
            _ => None,
        }
    }

    /// The operator-facing text of the error.
    pub fn describe(self) -> (s: String)
        ensures
            s@ == self.message(),
    {
        match self {
            BridgeError::Transient => "chain node unreachable or request timed out".to_owned(),
            BridgeError::NotYetReady => "not yet ready, try again later".to_owned(),
            BridgeError::NotSynced => "chain index is not synced to the tip".to_owned(),
            BridgeError::IdempotencyConflict => {
                "chain and record disagree about a transaction".to_owned()
            },
            BridgeError::Irreconcilable => "two transactions were broadcast for one step".to_owned(),
            BridgeError::ProofUnavailable => "inclusion proof unavailable".to_owned(),
            BridgeError::ProofRejected => "proof rejected by the on-chain verifier".to_owned(),
            BridgeError::Aborted => "transfer aborted by the operator".to_owned(),
            BridgeError::StoreFailure => "transfer log store failure".to_owned(),
            BridgeError::VersionConflict => "record changed since it was read".to_owned(),
            BridgeError::VersionExhausted => "record version counter exhausted".to_owned(),
            BridgeError::Rejected => "record refused by the transfer log".to_owned(),
        }
    }
}

} // verus!
