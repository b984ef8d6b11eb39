//! How a Codex process and the processes that it started are brought to an end.
//!
//! Codex is run as the leader of a process group of its own, to which the processes that it
//! starts belong as well. A [`Termination`] says by its [`TerminationStep`] what is to be
//! done to end the group; once that is done, it is told whether the group is gone.

use std::time::Duration;

use vstd::prelude::*;

use crate::time::nanos;

verus! {

/// How long a process group is given to end after it was asked to, in seconds.
pub const TERMINATION_GRACE: u64 = 2;

/// A signal for a process group.
#[derive(Clone, Copy, Debug, PartialEq, Eq, Structural)]
pub enum Signal {
    /// The processes are asked to end.
    Terminate,
    /// The processes are ended by force.
    Kill,
}

/// What is to be done next to end a process group.
#[derive(Clone, Copy, Debug, PartialEq, Eq, Structural)]
pub enum TerminationStep {
    /// Send a signal to the group. With [`Signal::Kill`], the leader itself is killed as
    /// well.
    Send(Signal),
    /// Wait until the group is gone, that is, until its leader has been waited for and none
    /// of its processes is left, or until the time of grace is over.
    AwaitGrace,
    /// Wait until the leader ends.
    AwaitEnd,
    /// Nothing is left to do.
    Stopped,
}

/// The model of a [`Termination`].
pub struct TerminationModel {
    /// Where the signals go.
    pub target: Option<i32>,
    pub step: TerminationStep,
}

/// The process number that reaches the whole group that a process leads: the negative of its
/// own. A process without a number, or whose number does not fit, has none.
pub open spec fn group_target(id: Option<u32>) -> Option<i32> {
    match id {
        Some(id) if id <= i32::MAX => Some((-(id as int)) as i32),
        _ => None,
    }
}

/// A termination at its start: the group is asked to end.
pub open spec fn termination_started(id: Option<u32>) -> TerminationModel {
    TerminationModel {
        target: group_target(id),
        step: TerminationStep::Send(Signal::Terminate),
    }
}

/// The step that follows another one; `gone` says whether the group was found to be gone
/// during that step. Force is used unless it was within the time of grace.
pub open spec fn step_after(step: TerminationStep, gone: bool) -> TerminationStep {
    match step {
        TerminationStep::Send(Signal::Terminate) => TerminationStep::AwaitGrace,
        TerminationStep::AwaitGrace => if gone {
            TerminationStep::Stopped
        } else {
            TerminationStep::Send(Signal::Kill)
        },
        TerminationStep::Send(Signal::Kill) => TerminationStep::AwaitEnd,
        TerminationStep::AwaitEnd => TerminationStep::Stopped,
        TerminationStep::Stopped => TerminationStep::Stopped,
    }
}

/// Where the signals to a process group go, if they can go anywhere.
pub fn signal_target(id: Option<u32>) -> (target: Option<i32>)
    ensures
        target == group_target(id),
{
    match id {
        Some(id) => if id <= i32::MAX as u32 {
            Some(-(id as i32))
        } else {
            None
        },
        None => None,
    }
}

/// The time of grace.
pub fn termination_grace() -> (grace: Duration)
    ensures
        nanos(grace) == TERMINATION_GRACE * 1_000_000_000,
{
    Duration::from_secs(TERMINATION_GRACE)
}

/// The termination of a process group under way.
#[derive(Clone, Copy, Debug)]
pub struct Termination {
    target: Option<i32>,
    step: TerminationStep,
}

impl View for Termination {
    type V = TerminationModel;

    closed spec fn view(&self) -> TerminationModel {
        TerminationModel { target: self.target, step: self.step }
    }
}

impl Termination {
    /// Starts the termination of the group that the process of this number leads. The number
    /// is the one that the process was started with: the leader may be gone before the rest
    /// of its group.
    pub fn new(id: Option<u32>) -> (termination: Termination)
        ensures
            termination@ == termination_started(id),
    {
        Termination { target: signal_target(id), step: TerminationStep::Send(Signal::Terminate) }
    }

    /// Where the signals go.
    pub fn target(&self) -> (target: Option<i32>)
        ensures
            target == self@.target,
    {
        self.target
    }

    /// What is to be done next.
    pub fn step(&self) -> (step: TerminationStep)
        ensures
            step == self@.step,
    {
        self.step
    }

    /// Goes on; `gone` says whether the group was found to be gone during the last step.
    pub fn advance(&mut self, gone: bool)
        ensures
            final(self)@ == (TerminationModel {
                step: step_after(old(self)@.step, gone),
                ..old(self)@
            }),
    {
        self.step = match self.step {
            TerminationStep::Send(Signal::Terminate) => TerminationStep::AwaitGrace,
            TerminationStep::AwaitGrace => if gone {
                TerminationStep::Stopped
            } else {
                TerminationStep::Send(Signal::Kill)
            },
            TerminationStep::Send(Signal::Kill) => TerminationStep::AwaitEnd,
            TerminationStep::AwaitEnd => TerminationStep::Stopped,
            TerminationStep::Stopped => TerminationStep::Stopped,
        };
    }
}

/// A termination after several steps, given what was found during each of them.
pub open spec fn termination_after(id: Option<u32>, gone: Seq<bool>) -> TerminationModel
    decreases gone.len(),
{
    if gone.len() == 0 {
        termination_started(id)
    } else {
        let before = termination_after(id, gone.drop_last());
        TerminationModel { step: step_after(before.step, gone.last()), ..before }
    }
}

proof fn lemma_termination_course(id: Option<u32>, gone: Seq<bool>)
    ensures
        ({
            let n = gone.len();
            let now = termination_after(id, gone);
            &&& now.target == group_target(id)
            &&& now.step == if n == 0 {
                TerminationStep::Send(Signal::Terminate)
            } else if n == 1 {
                TerminationStep::AwaitGrace
            } else if gone[1] {
                TerminationStep::Stopped
            } else if n == 2 {
                TerminationStep::Send(Signal::Kill)
            } else if n == 3 {
                TerminationStep::AwaitEnd
            } else {
                TerminationStep::Stopped
            }
        }),
    decreases gone.len(),
{
    if gone.len() > 0 {
        lemma_termination_course(id, gone.drop_last());
    }
}

/// No process group is left alone: by the time that its termination is over, the group was
/// found to be gone within the time of grace, or it was sent the signal that ends it by
/// force. It was asked to end before that.
pub proof fn law_group_is_ended(id: Option<u32>, gone: Seq<bool>)
    requires
        termination_after(id, gone).step == TerminationStep::Stopped,
    ensures
        termination_after(id, gone.take(0)).step == TerminationStep::Send(Signal::Terminate),
        termination_after(id, gone.take(1)).step == TerminationStep::AwaitGrace,
        gone.len() >= 2,
        gone[1] || (gone.len() >= 4 && termination_after(id, gone.take(2)).step
            == TerminationStep::Send(Signal::Kill)),
{
    lemma_termination_course(id, gone);
    lemma_termination_course(id, gone.take(0));
    lemma_termination_course(id, gone.take(1));
    if gone.len() >= 2 {
        lemma_termination_course(id, gone.take(2));
    }
}

/// Every signal of a termination goes to the same place, even if the leader has ended in the
/// meantime: to the group that the process led when it was started.
pub proof fn law_signals_reach_the_group(id: Option<u32>, gone: Seq<bool>)
    ensures
        termination_after(id, gone).target == group_target(id),
{
    lemma_termination_course(id, gone);
}

/// Whatever the processes do, the termination is over after four steps; if the group is gone
/// within the time of grace, after two.
pub proof fn law_termination_ends(id: Option<u32>, gone: Seq<bool>)
    ensures
        gone.len() >= 4 ==> termination_after(id, gone).step == TerminationStep::Stopped,
        gone.len() >= 2 && gone[1] ==> termination_after(id, gone).step
            == TerminationStep::Stopped,
{
    lemma_termination_course(id, gone);
}

/// Force is used only on a group that was asked to end and was not found to be gone when the
/// time of grace was over.
pub proof fn law_force_only_after_grace(id: Option<u32>, gone: Seq<bool>)
    requires
        termination_after(id, gone).step == TerminationStep::Send(Signal::Kill),
    ensures
        gone.len() == 2,
        !gone[1],
        termination_after(id, gone.take(1)).step == TerminationStep::AwaitGrace,
        termination_after(id, gone.take(0)).step == TerminationStep::Send(Signal::Terminate),
{
    lemma_termination_course(id, gone);
    lemma_termination_course(id, gone.take(0));
    lemma_termination_course(id, gone.take(1));
}

/// The signals go to the process number that is the negative of the leader's own, for every
/// leader whose number has a negative; there is no other target.
pub proof fn law_target_is_the_negative(id: Option<u32>)
    ensures
        match id {
            Some(id) => if id <= 0x7fff_ffff {
                group_target(Some(id)) matches Some(target) && target + id == 0
            } else {
                group_target(Some(id)) is None
            },
            None => group_target(None) is None,
        },
        termination_started(id).target == group_target(id),
{
}

/// The group is asked to end first, and is given two seconds. If it is not gone then, it is
/// ended by force, its leader is waited for, and that is all.
pub proof fn law_order_of_termination(id: Option<u32>, gone: Seq<bool>)
    ensures
        TERMINATION_GRACE * 1_000_000_000 == 2_000_000_000,
        gone.len() == 0 ==> termination_after(id, gone).step == TerminationStep::Send(
            Signal::Terminate,
        ),
        gone.len() == 1 ==> termination_after(id, gone).step == TerminationStep::AwaitGrace,
        gone.len() == 2 && !gone[1] ==> termination_after(id, gone).step == TerminationStep::Send(
            Signal::Kill,
        ),
        gone.len() == 3 && !gone[1] ==> termination_after(id, gone).step
            == TerminationStep::AwaitEnd,
{
    lemma_termination_course(id, gone);
}

/// Force follows the time of grace if and only if the group is not gone by then; the leader
/// is waited for after it; nothing follows the end.
pub proof fn law_step_follows_step(gone: bool)
    ensures
        step_after(TerminationStep::Send(Signal::Terminate), gone) == TerminationStep::AwaitGrace,
        step_after(TerminationStep::AwaitGrace, gone) == TerminationStep::Stopped <==> gone,
        step_after(TerminationStep::AwaitGrace, gone) == TerminationStep::Send(Signal::Kill)
            <==> !gone,
        step_after(TerminationStep::Send(Signal::Kill), gone) == TerminationStep::AwaitEnd,
        step_after(TerminationStep::AwaitEnd, gone) == TerminationStep::Stopped,
        step_after(TerminationStep::Stopped, gone) == TerminationStep::Stopped,
{
}

} // verus!
