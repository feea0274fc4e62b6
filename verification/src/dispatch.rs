//! The start of a transfer: a request gets an identifier of its own, the
//! arguments of the tool and a runner. Scheduling the run is the caller's part;
//! the identifier is there at once, for progress events and for cancellation.

use crate::command::{transfer_args, transfer_args_of};
use crate::runner::{RunnerPhase, RunnerView, TransferRunner};
use crate::text::{joined, texts};
use vstd::prelude::*;

verus! {

/// What a transfer does. The kinds differ in one argument of the tool only.
#[derive(Debug, Clone, Copy, PartialEq, Eq, Structural)]
pub enum TransferOp {
    Sync,
    Copy,
    Move,
    Check,
}

impl TransferOp {
    /// The kind's name, as the tool takes it and as progress events echo it.
    pub open spec fn name_of(self) -> Seq<char> {
        match self {
            TransferOp::Sync => "sync"@,
            TransferOp::Copy => "copy"@,
            TransferOp::Move => "move"@,
            TransferOp::Check => "check"@,
        }
    }

    /// The kind's name.
    pub fn name(&self) -> (name: &'static str)
        ensures
            name@ == self.name_of(),
    {
        match self {
            TransferOp::Sync => "sync",
            TransferOp::Copy => "copy",
            TransferOp::Move => "move",
            TransferOp::Check => "check",
        }
    }
}

/// What a caller asks for: the kind of transfer, from where to where, and flags
/// for the tool that are passed on as they are.
#[derive(Debug, Clone)]
pub struct TransferRequest {
    pub op: TransferOp,
    pub source: String,
    pub destination: String,
    pub flags: Vec<String>,
}

/// A transfer that is ready to be launched.
#[derive(Debug, Clone)]
pub struct Transfer {
    /// The transfer's identifier.
    pub id: String,
    /// The arguments to launch the tool with.
    pub args: Vec<String>,
    /// The runner that takes the transfer through its life cycle.
    pub runner: TransferRunner,
}

/// Whether `c` is a hexadecimal digit in lower case.
pub open spec fn is_lower_hex(c: char) -> bool {
    ('0' <= c <= '9') || ('a' <= c <= 'f')
}

/// The form of a transfer identifier: 36 characters, hyphens as the 9th, 14th,
/// 19th and 24th, hexadecimal digits in lower case for the rest.
pub open spec fn is_transfer_id(id: Seq<char>) -> bool {
    &&& id.len() == 36
    &&& forall|i: int|
        0 <= i < 36 ==> if i == 8 || i == 13 || i == 18 || i == 23 {
            #[trigger] id[i] == '-'
        } else {
            is_lower_hex(id[i])
        }
}

/// What [`prepare`] makes of `request` under the identifier `id`.
pub open spec fn prepared(transfer: Transfer, request: TransferRequest, id: Seq<char>) -> bool {
    &&& transfer.id@ == id
    &&& texts(transfer.args@) == transfer_args_of(
        request.op.name_of(),
        request.source@,
        request.destination@,
        texts(request.flags@),
    )
    &&& transfer.runner@ == (RunnerView {
        id: id,
        op: request.op.name_of(),
        source: request.source@,
        destination: request.destination@,
        phase: RunnerPhase::Ready,
    })
}

/// `Uuid::new_v4` of the crate uuid, written out with `to_string`: a random
/// identifier in that crate's hyphenated lower-case form. The contract states
/// the form, which holds of every identifier; which one comes is left open.
#[verifier::external_body]
fn mint_id() -> (id: String)
    ensures
        is_transfer_id(id@),
{
    uuid::Uuid::new_v4().to_string()
}

/// Makes the transfer that `request` asks for, under the identifier `id`.
pub fn prepare(request: &TransferRequest, id: &str) -> (transfer: Transfer)
    ensures
        prepared(transfer, *request, id@),
{
    let op = request.op.name();
    Transfer {
        id: id.to_owned(),
        args: transfer_args(
            op,
            request.source.as_str(),
            request.destination.as_str(),
            &request.flags,
        ),
        runner: TransferRunner::new(
            id,
            op,
            request.source.as_str(),
            request.destination.as_str(),
        ),
    }
}

/// Makes the transfer that `request` asks for, under a new identifier.
pub fn dispatch(request: &TransferRequest) -> (transfer: Transfer)
    ensures
        is_transfer_id(transfer.id@),
        prepared(transfer, *request, transfer.id@),
{
    let id = mint_id();
    prepare(request, id.as_str())
}

/// The error of a transfer whose run could not be scheduled, or was lost on the
/// way, for the reason given. It is the scheduling that failed, not the transfer.
pub fn schedule_failure(detail: &str) -> (message: String)
    ensures
        message@ == "Task join error: "@ + detail@,
{
    joined("Task join error: ", detail)
}

} // verus!
