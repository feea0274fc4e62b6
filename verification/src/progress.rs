//! The progress event that a transfer reports, and the usage figures of a remote.

use vstd::prelude::*;

verus! {

/// How many units of [`RcloneProgress::percentage`] make one percent.
pub const PERCENT_SCALE: u64 = 1000;

/// The value of [`RcloneProgress::percentage`] that stands for 100 %.
pub const PERCENT_FULL: u64 = 100_000;

/// Where a transfer stands at the moment a progress event is made.
#[derive(Debug, Clone, Copy, PartialEq, Eq, Structural)]
pub enum TransferStatus {
    Running,
    Complete,
    Error,
    Cancelled,
}

impl TransferStatus {
    /// A status that ends a transfer's stream of events: `Complete` or `Error`.
    /// `Cancelled` is a value that the model has and that no transfer reports.
    pub open spec fn terminal(self) -> bool {
        self == TransferStatus::Complete || self == TransferStatus::Error
    }

    /// Whether this status ends a transfer's stream of events.
    pub fn is_terminal(&self) -> (r: bool)
        ensures
            r == self.terminal(),
    {
        match self {
            TransferStatus::Complete => true,
            TransferStatus::Error => true,
            TransferStatus::Running => false,
            TransferStatus::Cancelled => false,
        }
    }
}

/// One sample of a transfer's state, handed to whoever observes the transfer.
///
/// `percentage` counts thousandths of a percent, so that `PERCENT_FULL` is 100 %
/// and the whole event is made of integers and text.
#[derive(Debug, Clone)]
pub struct RcloneProgress {
    pub id: String,
    pub op: String,
    pub source: String,
    pub destination: String,
    pub percentage: u64,
    pub speed: String,
    pub eta: String,
    pub status: TransferStatus,
}

/// What a [`RcloneProgress`] holds, as mathematical values.
pub ghost struct ProgressView {
    pub id: Seq<char>,
    pub op: Seq<char>,
    pub source: Seq<char>,
    pub destination: Seq<char>,
    pub percentage: nat,
    pub speed: Seq<char>,
    pub eta: Seq<char>,
    pub status: TransferStatus,
}

impl View for RcloneProgress {
    type V = ProgressView;

    open spec fn view(&self) -> ProgressView {
        ProgressView {
            id: self.id@,
            op: self.op@,
            source: self.source@,
            destination: self.destination@,
            percentage: self.percentage as nat,
            speed: self.speed@,
            eta: self.eta@,
            status: self.status,
        }
    }
}

/// How much of a remote is in use, each figure in bytes and absent where the
/// remote does not report it.
#[derive(Debug, Clone, Copy, PartialEq, Eq, Structural)]
pub struct RemoteAbout {
    pub total: Option<i64>,
    pub used: Option<i64>,
    pub free: Option<i64>,
    pub trashed: Option<i64>,
}

} // verus!
