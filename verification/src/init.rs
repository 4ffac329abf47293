//! The guard that makes the runtime ready, once in the life of a process.
use crate::c_str::has_nul;
use crate::error::TclErrorView;
use crate::ffi::{Call, CallView, ReplyView};
use crate::task::{
    begin, calls_from, outcome_from, runs, Goal, OutputView, Phase, Step, StepView, TaskView,
};
use vstd::prelude::*;

verus! {

/// The guard of a process: it knows whether the runtime was asked to find its
/// executable, which it must before the first interpreter or value is made.
///
/// A process keeps one guard for all its handles. Whoever is handed the steps
/// that make the runtime ready keeps the guard to itself until the operation
/// is over, so that nobody else goes ahead before the runtime is ready.
#[derive(Debug)]
pub struct InitGuard {
    started: bool,
}

impl InitGuard {
    /// True once an operation was handed the steps that make the runtime
    /// ready.
    pub closed spec fn initialized(&self) -> bool {
        self.started
    }

    /// The guard of a process in which nothing has used the runtime yet.
    pub fn new() -> (guard: InitGuard)
        ensures
            !guard.initialized(),
    {
        InitGuard { started: false }
    }

    /// Tells whether the steps that make the runtime ready were handed out.
    pub fn is_initialized(&self) -> (initialized: bool)
        ensures
            initialized == self.initialized(),
    {
        self.started
    }
}

/// The first step of an operation towards `goal`: under a guard that is not
/// yet initialized the runtime is made ready first, starting with the name of
/// the program.
pub open spec fn init_step(initialized: bool, goal: Goal) -> StepView {
    if initialized {
        begin(goal)
    } else {
        StepView::Ask(CallView::ProgramName, TaskView::ProgramName(goal))
    }
}

/// Starts an operation towards `goal`, making the runtime ready first if
/// nothing under this guard has done so.
pub(crate) fn init(guard: &mut InitGuard, goal: Goal) -> (step: Step)
    ensures
        final(guard).initialized(),
        step@ == init_step(old(guard).initialized(), goal),
{
    if guard.started {
        Step::begin(goal)
    } else {
        guard.started = true;
        Step::ask(Call::ProgramName, Phase::ProgramName(goal))
    }
}

/// An operation towards a goal sets out for the sort of output that the goal
/// stands for, whether or not the runtime has to be made ready first.
pub proof fn lemma_init_gives_kind_of_goal(initialized: bool, goal: Goal)
    ensures
        init_step(initialized, goal).gives(goal.kind()),
{
}

/// Replies that stand before the place where an operation takes up its
/// replies change nothing.
proof fn lemma_skip_earlier_replies(
    step: StepView,
    earlier: Seq<ReplyView>,
    replies: Seq<ReplyView>,
    at: int,
)
    requires
        0 <= at <= replies.len(),
    ensures
        outcome_from(step, earlier + replies, earlier.len() + at) == outcome_from(
            step,
            replies,
            at,
        ),
        calls_from(step, earlier + replies, earlier.len() + at) == calls_from(step, replies, at),
    decreases replies.len() - at,
{
    let all = earlier + replies;
    match step {
        StepView::Done(_) => {},
        StepView::Ask(_, task) => {
            if at < replies.len() {
                assert(all[earlier.len() + at] == replies[at]);
                if task.accepts(replies[at]) {
                    lemma_skip_earlier_replies(task.next(replies[at]), earlier, replies, at + 1);
                }
            }
        },
    }
}

/// Under a guard that is not yet initialized an operation first makes the
/// runtime ready: it asks for the name of the program, has the runtime find
/// its executable by that name, and sees that the runtime then names one.
/// After that it runs as it does under a guard that is initialized.
pub proof fn lemma_made_ready_first(
    goal: Goal,
    program: Seq<u8>,
    executable: Seq<u8>,
    replies: Seq<ReplyView>,
    calls: Seq<CallView>,
    outcome: Result<OutputView, TclErrorView>,
)
    requires
        !has_nul(program),
        runs(init_step(true, goal), replies, calls, outcome),
    ensures
        runs(
            init_step(false, goal),
            seq![
                ReplyView::Text(Some(program)),
                ReplyView::Nothing,
                ReplyView::Text(Some(executable)),
            ] + replies,
            seq![
                CallView::ProgramName,
                CallView::FindExecutable(program),
                CallView::GetNameOfExecutable,
            ] + calls,
            outcome,
        ),
{
    let earlier = seq![
        ReplyView::Text(Some(program)),
        ReplyView::Nothing,
        ReplyView::Text(Some(executable)),
    ];
    let all = earlier + replies;
    lemma_skip_earlier_replies(begin(goal), earlier, replies, 0);
    assert(all[0] == earlier[0] && all[1] == earlier[1] && all[2] == earlier[2]);
    reveal_with_fuel(outcome_from, 4);
    reveal_with_fuel(calls_from, 4);
}

/// How many of the operations that start one after the other towards `goals`
/// are handed the steps that make the runtime ready, under a guard that is
/// `initialized` or not at first.
pub open spec fn times_made_ready(initialized: bool, goals: Seq<Goal>) -> int
    decreases goals.len(),
{
    if goals.len() == 0 {
        0
    } else {
        times_made_ready(true, goals.drop_first()) + if init_step(initialized, goals[0])
            matches StepView::Ask(CallView::ProgramName, _) {
            1int
        } else {
            0int
        }
    }
}

/// However many operations start under one guard, the runtime is made ready
/// by the first of them and by no other.
pub proof fn lemma_made_ready_once(initialized: bool, goals: Seq<Goal>)
    ensures
        times_made_ready(initialized, goals) == if !initialized && goals.len() > 0 {
            1int
        } else {
            0int
        },
    decreases goals.len(),
{
    if goals.len() > 0 {
        lemma_made_ready_once(true, goals.drop_first());
    }
}

/// Only an operation under a guard that was not yet initialized asks for the
/// name of the program, and no reply leads back to that question.
pub proof fn lemma_program_name_asked_first(task: TaskView, reply: ReplyView, goal: Goal)
    requires
        task.accepts(reply),
    ensures
        !(task.next(reply) matches StepView::Ask(CallView::ProgramName, _)),
        !(begin(goal) matches StepView::Ask(CallView::ProgramName, _)),
        task.next(reply) matches StepView::Ask(CallView::FindExecutable(_), _)
            ==> task is ProgramName,
{
}

} // verus!
