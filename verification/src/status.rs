//! Transfer directions, the states of each direction, and the transition
//! table that orders them.

use vstd::prelude::*;

verus! {

/// Which way a transfer crosses the bridge.
#[derive(Clone, Copy, Debug, PartialEq, Eq, Structural)]
pub enum Direction {
    /// Lock on the source chain, mint on the destination chain.
    SourceToDest,
    /// Burn on the destination chain, release on the source chain.
    DestToSource,
}

/// The chain operation bound to a state of the transition table.
#[derive(Clone, Copy, Debug, PartialEq, Eq, Structural)]
pub enum Step {
    /// Authorize the bridge contract to move the amount.
    Approve,
    /// Move the amount into bridge custody on the source chain.
    Lock,
    /// Burn the pegged asset on the destination chain.
    Burn,
    /// Produce the inclusion proof of the lock or burn transaction.
    ExtractProof,
    /// Wait until the proven block is irreversible by policy.
    AwaitBlockSafe,
    /// Verify the proof on the destination chain and mint.
    Mint,
    /// Verify the proof on the source chain and release custody.
    Release,
}

/// States of a source-to-destination transfer, in table order, followed by
/// the failure state.
#[derive(Clone, Copy, Debug, PartialEq, Eq, Structural)]
pub enum ToCkbLogStatus {
    Initial,
    Approved,
    Locked,
    ProofReady,
    SafeToMint,
    Completed,
    Failed,
}

/// States of a destination-to-source transfer, in table order, followed by
/// the failure state.
#[derive(Clone, Copy, Debug, PartialEq, Eq, Structural)]
pub enum FromCkbLogStatus {
    Initial,
    Burned,
    ProofReady,
    SafeToRelease,
    Completed,
    Failed,
}

/// The status of a transfer: its direction together with the state reached
/// in that direction.
#[derive(Clone, Copy, Debug, PartialEq, Eq, Structural)]
pub enum TransferStatus {
    ToCkb(ToCkbLogStatus),
    FromCkb(FromCkbLogStatus),
}

/// Number of rows in the source-to-destination table.
pub const TO_CKB_STEPS: u8 = 5;

/// Number of rows in the destination-to-source table.
pub const FROM_CKB_STEPS: u8 = 4;

/// The source-to-destination transition table: state, operation, next state.
pub open spec fn to_ckb_table() -> Seq<(ToCkbLogStatus, Step, ToCkbLogStatus)> {
    seq![
        (ToCkbLogStatus::Initial, Step::Approve, ToCkbLogStatus::Approved),
        (ToCkbLogStatus::Approved, Step::Lock, ToCkbLogStatus::Locked),
        (ToCkbLogStatus::Locked, Step::ExtractProof, ToCkbLogStatus::ProofReady),
        (ToCkbLogStatus::ProofReady, Step::AwaitBlockSafe, ToCkbLogStatus::SafeToMint),
        (ToCkbLogStatus::SafeToMint, Step::Mint, ToCkbLogStatus::Completed),
    ]
}

/// The destination-to-source transition table: state, operation, next state.
pub open spec fn from_ckb_table() -> Seq<(FromCkbLogStatus, Step, FromCkbLogStatus)> {
    seq![
        (FromCkbLogStatus::Initial, Step::Burn, FromCkbLogStatus::Burned),
        (FromCkbLogStatus::Burned, Step::ExtractProof, FromCkbLogStatus::ProofReady),
        (FromCkbLogStatus::ProofReady, Step::AwaitBlockSafe, FromCkbLogStatus::SafeToRelease),
        (FromCkbLogStatus::SafeToRelease, Step::Release, FromCkbLogStatus::Completed),
    ]
}

impl ToCkbLogStatus {
    /// Place of the state in the order of the table; `Completed` comes
    /// after the last row and `Failed` after that.
    pub open spec fn position(self) -> nat {
        match self {
            ToCkbLogStatus::Initial => 0,
            ToCkbLogStatus::Approved => 1,
            ToCkbLogStatus::Locked => 2,
            ToCkbLogStatus::ProofReady => 3,
            ToCkbLogStatus::SafeToMint => 4,
            ToCkbLogStatus::Completed => 5,
            ToCkbLogStatus::Failed => 6,
        }
    }

    /// True for the two states that nothing leaves.
    pub open spec fn terminal(self) -> bool {
        self == ToCkbLogStatus::Completed || self == ToCkbLogStatus::Failed
    }

    /// The row of the table that starts at this state.
    pub open spec fn row(self) -> Option<(Step, ToCkbLogStatus)> {
        if self.terminal() {
            None
        } else {
            Some((to_ckb_table()[self.position() as int].1, to_ckb_table()[self.position() as int].2))
        }
    }

    /// The state written under a number, if there is one.
    pub open spec fn decode(v: u8) -> Option<ToCkbLogStatus> {
        if v == 0 {
            Some(ToCkbLogStatus::Initial)
        } else if v == 1 {
            Some(ToCkbLogStatus::Approved)
        } else if v == 2 {
            Some(ToCkbLogStatus::Locked)
        } else if v == 3 {
            Some(ToCkbLogStatus::ProofReady)
        } else if v == 4 {
            Some(ToCkbLogStatus::SafeToMint)
        } else if v == 5 {
            Some(ToCkbLogStatus::Completed)
        } else if v == 6 {
            Some(ToCkbLogStatus::Failed)
        } else {
            None
        }
    }

    /// True for `Completed` and `Failed`.
    pub fn is_terminal(self) -> (b: bool)
        ensures
            b == self.terminal(),
    {
        match self {
            ToCkbLogStatus::Completed | ToCkbLogStatus::Failed => true,
            _ => false,
        }
    }

    /// Looks the state up in the table: the operation to perform and the
    /// state that follows its success. `None` for a terminal state.
    pub fn transition(self) -> (r: Option<(Step, ToCkbLogStatus)>)
        ensures
            r == self.row(),
            r is None <==> self.terminal(),
            r matches Some(t) ==> t.1.position() == self.position() + 1 && to_ckb_table()[self.position() as int]
                == (self, t.0, t.1),
    {
        match self {
            ToCkbLogStatus::Initial => Some((Step::Approve, ToCkbLogStatus::Approved)),
            ToCkbLogStatus::Approved => Some((Step::Lock, ToCkbLogStatus::Locked)),
            ToCkbLogStatus::Locked => Some((Step::ExtractProof, ToCkbLogStatus::ProofReady)),
            ToCkbLogStatus::ProofReady => Some((Step::AwaitBlockSafe, ToCkbLogStatus::SafeToMint)),
            ToCkbLogStatus::SafeToMint => Some((Step::Mint, ToCkbLogStatus::Completed)),
            ToCkbLogStatus::Completed => None,
            ToCkbLogStatus::Failed => None,
        }
    }

    /// The number under which the state is persisted: its position.
    pub fn int_value(self) -> (v: u8)
        ensures
            v == self.position(),
            ToCkbLogStatus::decode(v) == Some(self),
    {
        match self {
            ToCkbLogStatus::Initial => 0,
            ToCkbLogStatus::Approved => 1,
            ToCkbLogStatus::Locked => 2,
            ToCkbLogStatus::ProofReady => 3,
            ToCkbLogStatus::SafeToMint => 4,
            ToCkbLogStatus::Completed => 5,
            ToCkbLogStatus::Failed => 6,
        }
    }

    /// Reads a state back from its number; `None` for a number that stands
    /// for no state.
    pub fn from_int(v: u8) -> (r: Option<ToCkbLogStatus>)
        ensures
            r == ToCkbLogStatus::decode(v),
            r is Some <==> v <= 6,
            r matches Some(s) ==> s.position() == v,
    {
        match v {
            0 => Some(ToCkbLogStatus::Initial),
            1 => Some(ToCkbLogStatus::Approved),
            2 => Some(ToCkbLogStatus::Locked),
            3 => Some(ToCkbLogStatus::ProofReady),
            4 => Some(ToCkbLogStatus::SafeToMint),
            5 => Some(ToCkbLogStatus::Completed),
            6 => Some(ToCkbLogStatus::Failed),
            _ => None,
        }
    }
}

impl FromCkbLogStatus {
    /// Place of the state in the order of the table; `Completed` comes
    /// after the last row and `Failed` after that.
    pub open spec fn position(self) -> nat {
        match self {
            FromCkbLogStatus::Initial => 0,
            FromCkbLogStatus::Burned => 1,
            FromCkbLogStatus::ProofReady => 2,
            FromCkbLogStatus::SafeToRelease => 3,
            FromCkbLogStatus::Completed => 4,
            FromCkbLogStatus::Failed => 5,
        }
    }

    /// True for the two states that nothing leaves.
    pub open spec fn terminal(self) -> bool {
        self == FromCkbLogStatus::Completed || self == FromCkbLogStatus::Failed
    }

    /// The row of the table that starts at this state.
    pub open spec fn row(self) -> Option<(Step, FromCkbLogStatus)> {
        if self.terminal() {
            None
        } else {
            Some(
                (
                    from_ckb_table()[self.position() as int].1,
                    from_ckb_table()[self.position() as int].2,
                ),
            )
        }
    }

    /// The state written under a number, if there is one.
    pub open spec fn decode(v: u8) -> Option<FromCkbLogStatus> {
        if v == 0 {
            Some(FromCkbLogStatus::Initial)
        } else if v == 1 {
            Some(FromCkbLogStatus::Burned)
        } else if v == 2 {
            Some(FromCkbLogStatus::ProofReady)
        } else if v == 3 {
            Some(FromCkbLogStatus::SafeToRelease)
        } else if v == 4 {
            Some(FromCkbLogStatus::Completed)
        } else if v == 5 {
            Some(FromCkbLogStatus::Failed)
        } else {
            None
        }
    }

    /// True for `Completed` and `Failed`.
    pub fn is_terminal(self) -> (b: bool)
        ensures
            b == self.terminal(),
    {
        match self {
            FromCkbLogStatus::Completed | FromCkbLogStatus::Failed => true,
            _ => false,
        }
    }

    /// Looks the state up in the table: the operation to perform and the
    /// state that follows its success. `None` for a terminal state.
    pub fn transition(self) -> (r: Option<(Step, FromCkbLogStatus)>)
        ensures
            r == self.row(),
            r is None <==> self.terminal(),
            r matches Some(t) ==> t.1.position() == self.position() + 1 && from_ckb_table()[self.position() as int]
                == (self, t.0, t.1),
    {
        match self {
            FromCkbLogStatus::Initial => Some((Step::Burn, FromCkbLogStatus::Burned)),
            FromCkbLogStatus::Burned => Some((Step::ExtractProof, FromCkbLogStatus::ProofReady)),
            FromCkbLogStatus::ProofReady => Some(
                (Step::AwaitBlockSafe, FromCkbLogStatus::SafeToRelease),
            ),
            FromCkbLogStatus::SafeToRelease => Some((Step::Release, FromCkbLogStatus::Completed)),
            FromCkbLogStatus::Completed => None,
            FromCkbLogStatus::Failed => None,
        }
    }

    /// The number under which the state is persisted: its position.
    pub fn int_value(self) -> (v: u8)
        ensures
            v == self.position(),
            FromCkbLogStatus::decode(v) == Some(self),
    {
        match self {
            FromCkbLogStatus::Initial => 0,
            FromCkbLogStatus::Burned => 1,
            FromCkbLogStatus::ProofReady => 2,
            FromCkbLogStatus::SafeToRelease => 3,
            FromCkbLogStatus::Completed => 4,
            FromCkbLogStatus::Failed => 5,
        }
    }

    /// Reads a state back from its number; `None` for a number that stands
    /// for no state.
    pub fn from_int(v: u8) -> (r: Option<FromCkbLogStatus>)
        ensures
            r == FromCkbLogStatus::decode(v),
            r is Some <==> v <= 5,
            r matches Some(s) ==> s.position() == v,
    {
        match v {
            0 => Some(FromCkbLogStatus::Initial),
            1 => Some(FromCkbLogStatus::Burned),
            2 => Some(FromCkbLogStatus::ProofReady),
            3 => Some(FromCkbLogStatus::SafeToRelease),
            4 => Some(FromCkbLogStatus::Completed),
            5 => Some(FromCkbLogStatus::Failed),
            _ => None,
        }
    }
}

impl TransferStatus {
    /// The first state of a direction.
    pub open spec fn start(direction: Direction) -> TransferStatus {
        match direction {
            Direction::SourceToDest => TransferStatus::ToCkb(ToCkbLogStatus::Initial),
            Direction::DestToSource => TransferStatus::FromCkb(FromCkbLogStatus::Initial),
        }
    }

    /// The direction the status belongs to.
    pub open spec fn way(self) -> Direction {
        match self {
            TransferStatus::ToCkb(_) => Direction::SourceToDest,
            TransferStatus::FromCkb(_) => Direction::DestToSource,
        }
    }

    /// Number of rows in the table of the status's direction.
    pub open spec fn steps(self) -> nat {
        match self {
            TransferStatus::ToCkb(_) => to_ckb_table().len(),
            TransferStatus::FromCkb(_) => from_ckb_table().len(),
        }
    }

    /// Place of the state in its direction's order.
    pub open spec fn position(self) -> nat {
        match self {
            TransferStatus::ToCkb(s) => s.position(),
            TransferStatus::FromCkb(s) => s.position(),
        }
    }

    /// True for the completed and the failed state of either direction.
    pub open spec fn terminal(self) -> bool {
        match self {
            TransferStatus::ToCkb(s) => s.terminal(),
            TransferStatus::FromCkb(s) => s.terminal(),
        }
    }

    /// True for the completed state of either direction.
    pub open spec fn completed(self) -> bool {
        self == TransferStatus::ToCkb(ToCkbLogStatus::Completed) || self == TransferStatus::FromCkb(
            FromCkbLogStatus::Completed,
        )
    }

    /// True for the failed state of either direction.
    pub open spec fn failed(self) -> bool {
        self == TransferStatus::ToCkb(ToCkbLogStatus::Failed) || self == TransferStatus::FromCkb(
            FromCkbLogStatus::Failed,
        )
    }

    /// The failed state of the same direction.
    pub open spec fn failure(self) -> TransferStatus {
        match self {
            TransferStatus::ToCkb(_) => TransferStatus::ToCkb(ToCkbLogStatus::Failed),
            TransferStatus::FromCkb(_) => TransferStatus::FromCkb(FromCkbLogStatus::Failed),
        }
    }

    /// The row of the direction's table that starts at this state.
    pub open spec fn row(self) -> Option<(Step, TransferStatus)> {
        match self {
            TransferStatus::ToCkb(s) => match s.row() {
                Some(t) => Some((t.0, TransferStatus::ToCkb(t.1))),
                None => None,
            },
            TransferStatus::FromCkb(s) => match s.row() {
                Some(t) => Some((t.0, TransferStatus::FromCkb(t.1))),
                None => None,
            },
        }
    }

    /// The state a new transfer of the given direction starts in.
    pub fn initial(direction: Direction) -> (s: TransferStatus)
        ensures
            s == TransferStatus::start(direction),
            s.way() == direction,
            s.position() == 0,
    {
        match direction {
            Direction::SourceToDest => TransferStatus::ToCkb(ToCkbLogStatus::Initial),
            Direction::DestToSource => TransferStatus::FromCkb(FromCkbLogStatus::Initial),
        }
    }

    /// The direction the status belongs to.
    pub fn direction(self) -> (d: Direction)
        ensures
            d == self.way(),
    {
        match self {
            TransferStatus::ToCkb(_) => Direction::SourceToDest,
            TransferStatus::FromCkb(_) => Direction::DestToSource,
        }
    }

    /// True once the transfer has completed or failed.
    pub fn is_terminal(self) -> (b: bool)
        ensures
            b == self.terminal(),
            b == (self.completed() || self.failed()),
    {
        match self {
            TransferStatus::ToCkb(s) => s.is_terminal(),
            TransferStatus::FromCkb(s) => s.is_terminal(),
        }
    }

    /// True once the transfer has completed.
    pub fn is_completed(self) -> (b: bool)
        ensures
            b == self.completed(),
    {
        match self {
            TransferStatus::ToCkb(ToCkbLogStatus::Completed) => true,
            TransferStatus::FromCkb(FromCkbLogStatus::Completed) => true,
            _ => false,
        }
    }

    /// True once the transfer has failed.
    pub fn is_failed(self) -> (b: bool)
        ensures
            b == self.failed(),
    {
        match self {
            TransferStatus::ToCkb(ToCkbLogStatus::Failed) => true,
            TransferStatus::FromCkb(FromCkbLogStatus::Failed) => true,
            _ => false,
        }
    }

    /// The failed state of the same direction.
    pub fn to_failed(self) -> (s: TransferStatus)
        ensures
            s == self.failure(),
            s.failed(),
            s.way() == self.way(),
    {
        match self {
            TransferStatus::ToCkb(_) => TransferStatus::ToCkb(ToCkbLogStatus::Failed),
            TransferStatus::FromCkb(_) => TransferStatus::FromCkb(FromCkbLogStatus::Failed),
        }
    }

    /// Looks the state up in its direction's table: the operation to
    /// perform and the state that follows its success. `None` for a
    /// terminal state.
    pub fn transition(self) -> (r: Option<(Step, TransferStatus)>)
        ensures
            r == self.row(),
            r is None <==> self.terminal(),
            r matches Some(t) ==> t.1.way() == self.way() && t.1.position() == self.position() + 1,
    {
        match self {
            TransferStatus::ToCkb(s) => match s.transition() {
                Some(t) => Some((t.0, TransferStatus::ToCkb(t.1))),
                None => None,
            },
            TransferStatus::FromCkb(s) => match s.transition() {
                Some(t) => Some((t.0, TransferStatus::FromCkb(t.1))),
                None => None,
            },
        }
    }
}

/// Every state has a place strictly inside its direction's order, the
/// terminal states are exactly the two places behind the table, and a row
/// leads from each place to the next one.
pub proof fn lemma_table_order(s: TransferStatus)
    ensures
        s.position() <= s.steps() + 1,
        s.completed() <==> s.position() == s.steps(),
        s.failed() <==> s.position() == s.steps() + 1,
        s.terminal() <==> s.row() is None,
        s.row() matches Some(t) ==> t.1.way() == s.way() && t.1.position() == s.position() + 1
            && !t.1.failed(),
        to_ckb_table().len() == TO_CKB_STEPS,
        from_ckb_table().len() == FROM_CKB_STEPS,
{
}

} // verus!
