//! Tearing a session down: the order of the steps, and whether the caller
//! waits for the two workers to finish.

use vstd::prelude::*;

verus! {

/// One step of tearing a session down.
#[derive(Clone, Copy, Debug, PartialEq, Eq, Structural)]
pub enum TeardownStep {
    /// Set the closing flag that both workers share.
    RaiseClosingFlag,
    /// Queue a shutdown command for the write loop; a failure is ignored.
    SendShutdown,
    /// Notify the read loop; a failure is ignored.
    NotifyReader,
    /// Hand the steps that follow to a detached background context.
    Detach,
    /// Wait for the write loop to finish.
    JoinWriter,
    /// Wait for the read loop to finish.
    JoinReader,
}

/// A session that has left the registry and is to be torn down.
#[derive(Debug, PartialEq, Eq)]
pub struct Teardown<S> {
    pub session: S,
    /// Whether the caller waits until both workers have finished.
    pub wait_for_completion: bool,
}

/// The steps of a teardown, in order. Both workers are told to stop before
/// either is waited for; without waiting, the joins run detached.
pub open spec fn teardown_script(wait_for_completion: bool) -> Seq<TeardownStep> {
    if wait_for_completion {
        seq![
            TeardownStep::RaiseClosingFlag,
            TeardownStep::SendShutdown,
            TeardownStep::NotifyReader,
            TeardownStep::JoinWriter,
            TeardownStep::JoinReader,
        ]
    } else {
        seq![
            TeardownStep::RaiseClosingFlag,
            TeardownStep::SendShutdown,
            TeardownStep::NotifyReader,
            TeardownStep::Detach,
            TeardownStep::JoinWriter,
            TeardownStep::JoinReader,
        ]
    }
}

/// The steps of a teardown, in order.
pub fn teardown_steps(wait_for_completion: bool) -> (r: Vec<TeardownStep>)
    ensures
        r@ == teardown_script(wait_for_completion),
{
    let mut steps: Vec<TeardownStep> = Vec::new();
    steps.push(TeardownStep::RaiseClosingFlag);
    steps.push(TeardownStep::SendShutdown);
    steps.push(TeardownStep::NotifyReader);
    if !wait_for_completion {
        steps.push(TeardownStep::Detach);
    }
    steps.push(TeardownStep::JoinWriter);
    steps.push(TeardownStep::JoinReader);
    assert(steps@ =~= teardown_script(wait_for_completion));
    steps
}

impl<S> Teardown<S> {
    /// The steps of this teardown, in order.
    pub fn steps(&self) -> (r: Vec<TeardownStep>)
        ensures
            r@ == teardown_script(self.wait_for_completion),
    {
        teardown_steps(self.wait_for_completion)
    }
}

/// Whether a step tells the workers to stop.
pub open spec fn tells_to_stop(step: TeardownStep) -> bool {
    step == TeardownStep::RaiseClosingFlag || step == TeardownStep::SendShutdown || step
        == TeardownStep::NotifyReader
}

/// Whether a step waits for a worker.
pub open spec fn waits_for_worker(step: TeardownStep) -> bool {
    step == TeardownStep::JoinWriter || step == TeardownStep::JoinReader
}

/// In every teardown the closing flag is raised and both workers are told to
/// stop before either of them is waited for, and both are waited for. The
/// waiting is detached exactly when the caller does not wait, and then the
/// detaching comes before it.
pub proof fn law_stop_before_join(wait_for_completion: bool)
    ensures
        forall|i: int, j: int|
            #![trigger teardown_script(wait_for_completion)[i], teardown_script(wait_for_completion)[j]]
            0 <= i < teardown_script(wait_for_completion).len() && 0 <= j < teardown_script(
                wait_for_completion,
            ).len() && tells_to_stop(teardown_script(wait_for_completion)[i])
                && waits_for_worker(teardown_script(wait_for_completion)[j]) ==> i < j,
        forall|i: int, j: int|
            #![trigger teardown_script(wait_for_completion)[i], teardown_script(wait_for_completion)[j]]
            0 <= i < teardown_script(wait_for_completion).len() && 0 <= j < teardown_script(
                wait_for_completion,
            ).len() && teardown_script(wait_for_completion)[i] == TeardownStep::Detach
                && waits_for_worker(teardown_script(wait_for_completion)[j]) ==> i < j,
        teardown_script(wait_for_completion).contains(TeardownStep::RaiseClosingFlag),
        teardown_script(wait_for_completion).contains(TeardownStep::SendShutdown),
        teardown_script(wait_for_completion).contains(TeardownStep::NotifyReader),
        teardown_script(wait_for_completion).contains(TeardownStep::JoinWriter),
        teardown_script(wait_for_completion).contains(TeardownStep::JoinReader),
        teardown_script(wait_for_completion).contains(TeardownStep::Detach)
            <==> !wait_for_completion,
{
    let script = teardown_script(wait_for_completion);
    assert(script[0] == TeardownStep::RaiseClosingFlag);
    assert(script[1] == TeardownStep::SendShutdown);
    assert(script[2] == TeardownStep::NotifyReader);
    if wait_for_completion {
        assert(script[3] == TeardownStep::JoinWriter);
        assert(script[4] == TeardownStep::JoinReader);
    } else {
        assert(script[3] == TeardownStep::Detach);
        assert(script[4] == TeardownStep::JoinWriter);
        assert(script[5] == TeardownStep::JoinReader);
    }
}

} // verus!
