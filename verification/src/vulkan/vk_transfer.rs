//! The steps of one transfer, and what becomes of it when a step fails.
//!
//! A transfer is two things done in order by whoever owns the device: the
//! recorded commands are submitted and waited for, and the staging buffer is
//! synchronised with the host, before the submission when the host has
//! written the bytes and after it when the host is going to read them. The
//! first failure ends the transfer: nothing further is done, and the failure
//! is the transfer's result as the driver reported it.

use vstd::prelude::*;
use crate::vulkan::vk_types::GpuError;

verus! {

/// Which way a transfer moves the bytes.
#[derive(Clone, Copy, Debug, PartialEq, Eq)]
pub enum Direction {
    /// From the staging buffer to another image.
    Send,
    /// From another image to the staging buffer.
    Receive,
}

/// One thing to do for a transfer.
#[derive(Clone, Copy, Debug, PartialEq, Eq)]
pub enum TransferAction {
    /// Make what the host wrote to the staging buffer visible to the device.
    SyncFromCpu,
    /// Record the commands of the transfer, submit them as one submission
    /// and wait for its fence.
    SubmitAndWait,
    /// Make what the device wrote to the staging buffer visible to the host.
    SyncToCpu,
}

/// Where a transfer stands.
#[derive(Clone, Copy, Debug, PartialEq, Eq)]
pub enum Progress {
    /// This has to be done next.
    Perform(TransferAction),
    /// Nothing is left to do, and this is the transfer's result.
    Finished(Result<(), GpuError>),
}

/// A transfer under way: its direction, how many steps have succeeded, and
/// the failure that ended it, if one did.
#[derive(Clone, Copy, Debug, PartialEq, Eq)]
pub struct Transfer {
    pub direction: Direction,
    pub completed: u8,
    pub failure: Option<GpuError>,
}

/// The steps of a transfer, first to last.
pub open spec fn steps(direction: Direction) -> Seq<TransferAction> {
    match direction {
        Direction::Send => seq![TransferAction::SyncFromCpu, TransferAction::SubmitAndWait],
        Direction::Receive => seq![TransferAction::SubmitAndWait, TransferAction::SyncToCpu],
    }
}

/// The result of a transfer whose steps had the given outcomes: the first
/// failure among them, and success if all of a transfer's steps succeeded.
/// Outcomes beyond the first failure, or beyond the last step, count for
/// nothing, since those steps are never made.
pub open spec fn result_of(outcomes: Seq<Result<(), GpuError>>) -> Result<(), GpuError> {
    if outcomes.len() >= 1 && outcomes[0].is_err() {
        outcomes[0]
    } else if outcomes.len() >= 2 && outcomes[1].is_err() {
        outcomes[1]
    } else {
        Ok(())
    }
}

impl Transfer {
    /// Whether the transfer has nothing left to do.
    pub open spec fn finished(self) -> bool {
        self.failure.is_some() || self.completed >= 2
    }

    /// Where the transfer stands.
    pub open spec fn progress(self) -> Progress {
        match self.failure {
            Some(e) => Progress::Finished(Err(e)),
            None => if self.completed < 2 {
                Progress::Perform(steps(self.direction)[self.completed as int])
            } else {
                Progress::Finished(Ok(()))
            },
        }
    }

    /// The transfer after the step that was due has had the given outcome.
    /// A finished transfer stays as it is.
    pub open spec fn after(self, outcome: Result<(), GpuError>) -> Transfer {
        if self.finished() {
            self
        } else {
            match outcome {
                Ok(_) => Transfer { completed: (self.completed + 1) as u8, ..self },
                Err(e) => Transfer { failure: Some(e), ..self },
            }
        }
    }

    /// The transfer after its steps have had the given outcomes, in order.
    pub open spec fn after_all(self, outcomes: Seq<Result<(), GpuError>>) -> Transfer
        decreases outcomes.len(),
    {
        if outcomes.len() == 0 {
            self
        } else {
            self.after(outcomes[0]).after_all(outcomes.drop_first())
        }
    }

    /// A transfer of which nothing has been done yet.
    pub fn start(direction: Direction) -> (transfer: Transfer)
        ensures
            transfer == (Transfer { direction, completed: 0, failure: None }),
            transfer.progress() == Progress::Perform(steps(direction)[0]),
    {
        Transfer { direction, completed: 0, failure: None }
    }

    /// Says what to do next, or how the transfer ended.
    pub fn next(&self) -> (progress: Progress)
        ensures
            progress == self.progress(),
            (progress is Finished) == self.finished(),
    {
        match self.failure {
            Some(e) => Progress::Finished(Err(e)),
            None => {
                if self.completed >= 2 {
                    Progress::Finished(Ok(()))
                } else {
                    let first: bool = self.completed == 0;
                    let action = match self.direction {
                        Direction::Send => if first {
                            TransferAction::SyncFromCpu
                        } else {
                            TransferAction::SubmitAndWait
                        },
                        Direction::Receive => if first {
                            TransferAction::SubmitAndWait
                        } else {
                            TransferAction::SyncToCpu
                        },
                    };
                    Progress::Perform(action)
                }
            },
        }
    }

    /// Takes note of the outcome of the step that [`Transfer::next`] named.
    pub fn record(&mut self, outcome: Result<(), GpuError>)
        ensures
            *final(self) == old(self).after(outcome),
    {
        if self.failure.is_none() && self.completed < 2 {
            match outcome {
                Ok(_) => {
                    self.completed = self.completed + 1;
                },
                Err(e) => {
                    self.failure = Some(e);
                },
            }
        }
    }
}

/// A transfer that is driven until it has finished ends with the first
/// failure among the outcomes of its steps, and with success when both
/// steps succeeded. Whatever is reported to it after that changes nothing.
pub proof fn lemma_transfer_ends_with_first_failure(
    direction: Direction,
    outcomes: Seq<Result<(), GpuError>>,
)
    requires
        outcomes.len() >= 2,
    ensures
        (Transfer { direction, completed: 0, failure: None }).after_all(outcomes).progress()
            == Progress::Finished(result_of(outcomes)),
{
    let t0 = Transfer { direction, completed: 0, failure: None };
    let t1 = t0.after(outcomes[0]);
    let rest1 = outcomes.drop_first();
    let t2 = t1.after(rest1[0]);
    let rest2 = rest1.drop_first();
    assert(rest1[0] == outcomes[1]);
    assert(t2.finished());
    assert(t0.after_all(outcomes) == t1.after_all(rest1));
    assert(t1.after_all(rest1) == t2.after_all(rest2));
    lemma_finished_stays(t2, rest2);
}

/// A finished transfer is not changed by anything reported to it.
pub proof fn lemma_finished_stays(transfer: Transfer, outcomes: Seq<Result<(), GpuError>>)
    requires
        transfer.finished(),
    ensures
        transfer.after_all(outcomes) == transfer,
    decreases outcomes.len(),
{
    if outcomes.len() > 0 {
        lemma_finished_stays(transfer, outcomes.drop_first());
    }
}

} // verus!
