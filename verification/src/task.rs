//! Operations on the runtime, one call at a time.
//!
//! A handle does not call the runtime. It answers with a `Step`: either the
//! operation is over, with its outcome, or the runtime is to be called, and a
//! `Task` waits for what the call returns. `Task::resume` takes that reply and
//! answers with the next step. Whoever holds the runtime repeats this until the
//! operation is over.
use crate::c_str::{c_str_text, has_nul, read_c_str};
use crate::error::{diagnosis, result_view, TclError, TclErrorView};
use crate::ffi::{is_completion_status, known_status, Call, CallView, Reply, ReplyView, TCL_ERROR};
use crate::interp::TclInterp;
use crate::obj::{decremented, incremented, shared, should_free, TclObj};
use vstd::pervasive::unreached;
use vstd::prelude::*;
use vstd::utf8::{decode_utf8, valid_utf8};

verus! {

/// What the runtime was made ready for.
#[derive(Clone, Copy, Debug, PartialEq, Eq, Structural)]
pub enum Goal {
    /// A new interpreter.
    Interp,
    /// A new, empty value.
    Obj,
    /// A handle to the value at this address.
    Attach(usize),
}

/// What an operation gives when it succeeds.
#[derive(Debug)]
pub enum Output {
    /// Nothing but the success.
    Unit,
    /// The answer to a question.
    Flag(bool),
    /// A new interpreter.
    Interp(TclInterp),
    /// A handle that the value has counted.
    Obj(TclObj),
    /// Text.
    Text(String),
    /// A string as the runtime holds it.
    Bytes(Vec<u8>),
}

/// An `Output` with handles as addresses and strings as sequences.
pub enum OutputView {
    Unit,
    Flag(bool),
    Interp(usize),
    Obj(usize),
    Text(Seq<char>),
    Bytes(Seq<u8>),
}

impl View for Output {
    type V = OutputView;

    open spec fn view(&self) -> OutputView {
        match self {
            Output::Unit => OutputView::Unit,
            Output::Flag(flag) => OutputView::Flag(*flag),
            Output::Interp(interp) => OutputView::Interp(interp@),
            Output::Obj(obj) => OutputView::Obj(obj@),
            Output::Text(text) => OutputView::Text(text@),
            Output::Bytes(bytes) => OutputView::Bytes(bytes@),
        }
    }
}

/// The call whose reply an operation waits for, with what the operation has
/// to remember meanwhile.
#[derive(Debug)]
pub(crate) enum Phase {
    ProgramName(Goal),
    FindExecutable(Goal),
    NameOfExecutable(Goal),
    CreateInterp,
    Init(usize),
    InitFailed(usize),
    Discard(TclError),
    Delete,
    MakeSafe(usize),
    Eval(usize),
    Failed,
    IsSafe,
    SetVar(usize),
    StringResult,
    ObjResult,
    Attach(usize),
    Attached(usize),
    Release(usize),
    Released(usize, bool),
    Freed,
    IsShared,
    Render,
}

/// An operation that waits for the reply to the call it asked for.
#[derive(Debug)]
pub struct Task {
    phase: Phase,
}

/// What a `Task` waits for; each variant is named after the call whose reply
/// is due.
pub enum TaskView {
    /// The name of the program; then `Tcl_FindExecutable` is called with it.
    ProgramName(Goal),
    /// The return of `Tcl_FindExecutable`.
    FindExecutable(Goal),
    /// The name that the runtime found for its executable.
    NameOfExecutable(Goal),
    /// The new interpreter.
    CreateInterp,
    /// The status of `Tcl_Init` on this interpreter.
    Init(usize),
    /// The message with which `Tcl_Init` failed on this interpreter.
    InitFailed(usize),
    /// The return of `Tcl_DeleteInterp` on an interpreter that could not be
    /// set up, for this reason.
    Discard(TclErrorView),
    /// The return of `Tcl_DeleteInterp`.
    Delete,
    /// The status of `Tcl_MakeSafe` on this interpreter.
    MakeSafe(usize),
    /// The status of `Tcl_Eval` on this interpreter.
    Eval(usize),
    /// The message of a command that failed.
    Failed,
    /// The flag of `Tcl_IsSafe`.
    IsSafe,
    /// The value that `Tcl_SetVar` stored in this interpreter.
    SetVar(usize),
    /// The interpreter's string result.
    StringResult,
    /// The address of a value to attach to.
    ObjResult,
    /// The reference count of this value, to be raised.
    Attach(usize),
    /// The return of the write that raised the count of this value.
    Attached(usize),
    /// The reference count of this value, to be lowered.
    Release(usize),
    /// The return of the write that lowered the count of this value; the value
    /// is then freed if the flag is set.
    Released(usize, bool),
    /// The return of `TclFreeObj`.
    Freed,
    /// The reference count of a value.
    IsShared,
    /// The string form of a value.
    Render,
}

/// One step of an operation.
#[derive(Debug)]
pub enum Step {
    /// The call to make, and the task that takes its reply.
    Ask(Call, Task),
    /// The operation is over.
    Done(Result<Output, TclError>),
}

/// A `Step` taken by the views of its parts.
pub enum StepView {
    Ask(CallView, TaskView),
    Done(Result<OutputView, TclErrorView>),
}

impl View for Step {
    type V = StepView;

    open spec fn view(&self) -> StepView {
        match self {
            Step::Ask(call, task) => StepView::Ask(call@, task@),
            Step::Done(outcome) => StepView::Done(result_view(*outcome)),
        }
    }
}

impl Phase {
    pub(crate) open spec fn view(&self) -> TaskView {
        match self {
            Phase::ProgramName(goal) => TaskView::ProgramName(*goal),
            Phase::FindExecutable(goal) => TaskView::FindExecutable(*goal),
            Phase::NameOfExecutable(goal) => TaskView::NameOfExecutable(*goal),
            Phase::CreateInterp => TaskView::CreateInterp,
            Phase::Init(interp) => TaskView::Init(*interp),
            Phase::InitFailed(interp) => TaskView::InitFailed(*interp),
            Phase::Discard(error) => TaskView::Discard(error@),
            Phase::Delete => TaskView::Delete,
            Phase::MakeSafe(interp) => TaskView::MakeSafe(*interp),
            Phase::Eval(interp) => TaskView::Eval(*interp),
            Phase::Failed => TaskView::Failed,
            Phase::IsSafe => TaskView::IsSafe,
            Phase::SetVar(interp) => TaskView::SetVar(*interp),
            Phase::StringResult => TaskView::StringResult,
            Phase::ObjResult => TaskView::ObjResult,
            Phase::Attach(obj) => TaskView::Attach(*obj),
            Phase::Attached(obj) => TaskView::Attached(*obj),
            Phase::Release(obj) => TaskView::Release(*obj),
            Phase::Released(obj, free) => TaskView::Released(*obj, *free),
            Phase::Freed => TaskView::Freed,
            Phase::IsShared => TaskView::IsShared,
            Phase::Render => TaskView::Render,
        }
    }
}

impl View for Task {
    type V = TaskView;

    closed spec fn view(&self) -> TaskView {
        self.phase@
    }
}

/// The first step towards `goal` once the runtime is ready.
pub open spec fn begin(goal: Goal) -> StepView {
    match goal {
        Goal::Interp => StepView::Ask(CallView::CreateInterp, TaskView::CreateInterp),
        Goal::Obj => StepView::Ask(CallView::NewObj, TaskView::ObjResult),
        Goal::Attach(obj) => attach(obj),
    }
}

/// The step that attaches a handle to the value at `obj`: NULL is refused, and
/// any other value is asked for its reference count.
pub open spec fn attach(obj: usize) -> StepView {
    if obj == 0 {
        StepView::Done(Err(TclErrorView::NullPointer))
    } else {
        StepView::Ask(CallView::RefCount(obj), TaskView::Attach(obj))
    }
}

/// The step after a command on `interp` returned `status`: an error goes on to
/// read its message, anything else to `proceed`.
pub open spec fn after_status(interp: usize, status: int, proceed: StepView) -> StepView {
    if status == TCL_ERROR {
        StepView::Ask(CallView::GetStringResult(interp), TaskView::Failed)
    } else {
        proceed
    }
}

impl TaskView {
    /// True when every address that the task remembers is other than NULL.
    pub open spec fn well_formed(self) -> bool {
        match self {
            TaskView::ProgramName(_) | TaskView::FindExecutable(_) | TaskView::NameOfExecutable(
                _,
            ) => true,
            TaskView::Init(interp) | TaskView::InitFailed(interp) | TaskView::MakeSafe(interp)
            | TaskView::Eval(interp) | TaskView::SetVar(interp) => interp != 0,
            TaskView::Attach(obj) | TaskView::Attached(obj) | TaskView::Release(obj)
            | TaskView::Released(obj, _) => obj != 0,
            _ => true,
        }
    }

    /// True when `reply` is something that the call the task waits for can
    /// return: it has the shape of that call's result, a status is one of the
    /// five of the runtime, a flag is 0 or 1, a reference count leaves room
    /// for the change to come, and a string that the runtime owes is there.
    pub open spec fn accepts(self, reply: ReplyView) -> bool {
        match self {
            TaskView::ProgramName(_) => reply matches ReplyView::Text(Some(name)) && !has_nul(
                name,
            ),
            TaskView::NameOfExecutable(_) => reply matches ReplyView::Text(Some(_)),
            TaskView::CreateInterp | TaskView::ObjResult => reply is Pointer,
            TaskView::Init(_) | TaskView::MakeSafe(_) | TaskView::Eval(_) => reply matches ReplyView::Int(
                status,
            ) && is_completion_status(status as int),
            TaskView::InitFailed(_) | TaskView::Failed | TaskView::SetVar(_)
            | TaskView::StringResult => reply is Text,
            TaskView::FindExecutable(_) | TaskView::Discard(_) | TaskView::Delete
            | TaskView::Attached(_) | TaskView::Released(_, _) | TaskView::Freed => reply is Nothing,
            TaskView::IsSafe => reply matches ReplyView::Int(flag) && (flag == 0 || flag == 1),
            TaskView::Attach(_) => reply matches ReplyView::Int(count) && count < i32::MAX,
            TaskView::Release(_) => reply matches ReplyView::Int(count) && count > i32::MIN,
            TaskView::IsShared => reply is Int,
            TaskView::Render => reply matches ReplyView::Text(Some(bytes)) && valid_utf8(bytes),
        }
    }

    /// The step that follows when the call the task waits for returns
    /// `reply`.
    pub open spec fn next(self, reply: ReplyView) -> StepView {
        match self {
            TaskView::ProgramName(goal) => StepView::Ask(
                CallView::FindExecutable(reply->Text_0->0),
                TaskView::FindExecutable(goal),
            ),
            TaskView::FindExecutable(goal) => StepView::Ask(
                CallView::GetNameOfExecutable,
                TaskView::NameOfExecutable(goal),
            ),
            TaskView::NameOfExecutable(goal) => begin(goal),
            TaskView::CreateInterp => {
                let interp = reply->Pointer_0;
                if interp == 0 {
                    StepView::Done(Err(TclErrorView::NullPointer))
                } else {
                    StepView::Ask(CallView::Init(interp), TaskView::Init(interp))
                }
            },
            TaskView::Init(interp) => if reply->Int_0 == TCL_ERROR {
                StepView::Ask(CallView::GetStringResult(interp), TaskView::InitFailed(interp))
            } else {
                StepView::Done(Ok(OutputView::Interp(interp)))
            },
            TaskView::InitFailed(interp) => StepView::Ask(
                CallView::DeleteInterp(interp),
                TaskView::Discard(diagnosis(c_str_text(reply->Text_0))),
            ),
            TaskView::Discard(error) => StepView::Done(Err(error)),
            TaskView::Delete => StepView::Done(Ok(OutputView::Unit)),
            TaskView::MakeSafe(interp) => after_status(
                interp,
                reply->Int_0 as int,
                StepView::Done(Ok(OutputView::Unit)),
            ),
            TaskView::Eval(interp) => after_status(
                interp,
                reply->Int_0 as int,
                StepView::Ask(CallView::GetObjResult(interp), TaskView::ObjResult),
            ),
            TaskView::Failed => StepView::Done(Err(diagnosis(c_str_text(reply->Text_0)))),
            TaskView::IsSafe => StepView::Done(Ok(OutputView::Flag(reply->Int_0 == 1))),
            TaskView::SetVar(interp) => match reply->Text_0 {
                None => StepView::Ask(CallView::GetStringResult(interp), TaskView::Failed),
                Some(stored) => StepView::Done(Ok(OutputView::Bytes(stored))),
            },
            TaskView::StringResult => StepView::Done(
                match c_str_text(reply->Text_0) {
                    Ok(text) => Ok(OutputView::Text(text)),
                    Err(error) => Err(error),
                },
            ),
            TaskView::ObjResult => attach(reply->Pointer_0),
            TaskView::Attach(obj) => StepView::Ask(
                CallView::SetRefCount { obj, count: incremented(reply->Int_0 as int) as i32 },
                TaskView::Attached(obj),
            ),
            TaskView::Attached(obj) => StepView::Done(Ok(OutputView::Obj(obj))),
            TaskView::Release(obj) => {
                let count = decremented(reply->Int_0 as int);
                StepView::Ask(
                    CallView::SetRefCount { obj, count: count as i32 },
                    TaskView::Released(obj, should_free(count)),
                )
            },
            TaskView::Released(obj, free) => if free {
                StepView::Ask(CallView::FreeObj(obj), TaskView::Freed)
            } else {
                StepView::Done(Ok(OutputView::Flag(false)))
            },
            TaskView::Freed => StepView::Done(Ok(OutputView::Flag(true))),
            TaskView::IsShared => StepView::Done(Ok(OutputView::Flag(shared(reply->Int_0 as int)))),
            TaskView::Render => StepView::Done(Ok(OutputView::Text(decode_utf8(reply->Text_0->0)))),
        }
    }
}

impl Step {
    /// The step that asks for `call` and waits for its reply in `phase`.
    pub(crate) fn ask(call: Call, phase: Phase) -> (step: Step)
        requires
            phase@.well_formed(),
        ensures
            step@ == StepView::Ask(call@, phase@),
    {
        Step::Ask(call, Task { phase })
    }

    /// The step that attaches a handle to the value at `obj`.
    pub(crate) fn attach(obj: usize) -> (step: Step)
        ensures
            step@ == attach(obj),
    {
        if obj == 0 {
            Step::Done(Err(TclError::NullPointer))
        } else {
            Step::ask(Call::RefCount(obj), Phase::Attach(obj))
        }
    }

    /// The first step towards `goal` once the runtime is ready.
    pub(crate) fn begin(goal: Goal) -> (step: Step)
        ensures
            step@ == begin(goal),
    {
        match goal {
            Goal::Interp => Step::ask(Call::CreateInterp, Phase::CreateInterp),
            Goal::Obj => Step::ask(Call::NewObj, Phase::ObjResult),
            Goal::Attach(obj) => Step::attach(obj),
        }
    }

    /// The step after a command on `interp` returned `status`.
    fn after_status(interp: usize, status: i32, proceed: Step) -> (step: Step)
        requires
            interp != 0,
        ensures
            step@ == after_status(interp, status as int, proceed@),
    {
        if status == TCL_ERROR {
            Step::ask(Call::GetStringResult(interp), Phase::Failed)
        } else {
            proceed
        }
    }
}

impl Task {
    /// Every address that a task remembers is other than NULL.
    #[verifier::type_invariant]
    closed spec fn inv(&self) -> bool {
        self@.well_formed()
    }

    /// Tells whether `reply` is something that the call the task waits for
    /// can return. `resume` takes no other reply.
    pub fn accepts(&self, reply: &Reply) -> (accepted: bool)
        ensures
            accepted == self@.accepts(reply@),
    {
        match &self.phase {
            Phase::ProgramName(_) => match reply {
                Reply::Text(Some(name)) => !crate::c_str::contains_nul(name),
                _ => false,
            },
            Phase::NameOfExecutable(_) => match reply {
                Reply::Text(Some(_)) => true,
                _ => false,
            },
            Phase::CreateInterp | Phase::ObjResult => match reply {
                Reply::Pointer(_) => true,
                _ => false,
            },
            Phase::Init(_) | Phase::MakeSafe(_) | Phase::Eval(_) => match reply {
                Reply::Int(status) => known_status(*status),
                _ => false,
            },
            Phase::InitFailed(_) | Phase::Failed | Phase::SetVar(_) | Phase::StringResult => match reply {
                Reply::Text(_) => true,
                _ => false,
            },
            Phase::FindExecutable(_) | Phase::Discard(_) | Phase::Delete | Phase::Attached(_)
            | Phase::Released(_, _) | Phase::Freed => match reply {
                Reply::Nothing => true,
                _ => false,
            },
            Phase::IsSafe => match reply {
                Reply::Int(flag) => *flag == 0 || *flag == 1,
                _ => false,
            },
            Phase::Attach(_) => match reply {
                Reply::Int(count) => *count < i32::MAX,
                _ => false,
            },
            Phase::Release(_) => match reply {
                Reply::Int(count) => *count > i32::MIN,
                _ => false,
            },
            Phase::IsShared => match reply {
                Reply::Int(_) => true,
                _ => false,
            },
            Phase::Render => match reply {
                Reply::Text(Some(bytes)) => crate::c_str::str_from_utf8(bytes.as_slice()).is_ok(),
                _ => false,
            },
        }
    }

    /// Takes the reply to the call that the task waits for, and gives the
    /// step that follows.
    pub fn resume(self, reply: Reply) -> (step: Step)
        requires
            self@.accepts(reply@),
        ensures
            step@ == self@.next(reply@),
    {
        proof {
            use_type_invariant(&self);
        }
        match self.phase {
            Phase::ProgramName(goal) => match reply {
                Reply::Text(Some(name)) => Step::ask(
                    Call::FindExecutable(name),
                    Phase::FindExecutable(goal),
                ),
                _ => unreached(),
            },
            Phase::FindExecutable(goal) => Step::ask(
                Call::GetNameOfExecutable,
                Phase::NameOfExecutable(goal),
            ),
            Phase::NameOfExecutable(goal) => Step::begin(goal),
            Phase::CreateInterp => match reply {
                Reply::Pointer(interp) => if interp == 0 {
                    Step::Done(Err(TclError::NullPointer))
                } else {
                    Step::ask(Call::Init(interp), Phase::Init(interp))
                },
                _ => unreached(),
            },
            Phase::Init(interp) => match reply {
                Reply::Int(status) => if status == TCL_ERROR {
                    Step::ask(Call::GetStringResult(interp), Phase::InitFailed(interp))
                } else {
                    Step::Done(Ok(Output::Interp(TclInterp::created(interp))))
                },
                _ => unreached(),
            },
            Phase::InitFailed(interp) => match reply {
                Reply::Text(text) => {
                    let error = TclError::from_string_result(read_c_str(text));
                    Step::ask(Call::DeleteInterp(interp), Phase::Discard(error))
                },
                _ => unreached(),
            },
            Phase::Discard(error) => Step::Done(Err(error)),
            Phase::Delete => Step::Done(Ok(Output::Unit)),
            Phase::MakeSafe(interp) => match reply {
                Reply::Int(status) => Step::after_status(
                    interp,
                    status,
                    Step::Done(Ok(Output::Unit)),
                ),
                _ => unreached(),
            },
            Phase::Eval(interp) => match reply {
                Reply::Int(status) => Step::after_status(
                    interp,
                    status,
                    Step::ask(Call::GetObjResult(interp), Phase::ObjResult),
                ),
                _ => unreached(),
            },
            Phase::Failed => match reply {
                Reply::Text(text) => Step::Done(
                    Err(TclError::from_string_result(read_c_str(text))),
                ),
                _ => unreached(),
            },
            Phase::IsSafe => match reply {
                Reply::Int(flag) => Step::Done(Ok(Output::Flag(flag == 1))),
                _ => unreached(),
            },
            Phase::SetVar(interp) => match reply {
                Reply::Text(None) => Step::ask(Call::GetStringResult(interp), Phase::Failed),
                Reply::Text(Some(stored)) => Step::Done(Ok(Output::Bytes(stored))),
                _ => unreached(),
            },
            Phase::StringResult => match reply {
                Reply::Text(text) => match read_c_str(text) {
                    Ok(result) => Step::Done(Ok(Output::Text(result))),
                    Err(error) => Step::Done(Err(error)),
                },
                _ => unreached(),
            },
            Phase::ObjResult => match reply {
                Reply::Pointer(obj) => Step::attach(obj),
                _ => unreached(),
            },
            Phase::Attach(obj) => match reply {
                Reply::Int(count) => Step::ask(
                    Call::SetRefCount { obj, count: TclObj::incr_ref_count(count) },
                    Phase::Attached(obj),
                ),
                _ => unreached(),
            },
            Phase::Attached(obj) => Step::Done(Ok(Output::Obj(TclObj::attached(obj)))),
            Phase::Release(obj) => match reply {
                Reply::Int(count) => {
                    let (stored, free) = TclObj::decr_ref_count(count);
                    Step::ask(Call::SetRefCount { obj, count: stored }, Phase::Released(obj, free))
                },
                _ => unreached(),
            },
            Phase::Released(obj, free) => if free {
                Step::ask(Call::FreeObj(obj), Phase::Freed)
            } else {
                Step::Done(Ok(Output::Flag(false)))
            },
            Phase::Freed => Step::Done(Ok(Output::Flag(true))),
            Phase::IsShared => match reply {
                Reply::Int(count) => Step::Done(Ok(Output::Flag(count > 1))),
                _ => unreached(),
            },
            Phase::Render => match reply {
                Reply::Text(text) => match read_c_str(text) {
                    Ok(rendered) => Step::Done(Ok(Output::Text(rendered))),
                    Err(_) => unreached(),
                },
                _ => unreached(),
            },
        }
    }
}

/// The sorts of output in which an operation can end.
#[derive(Clone, Copy, Debug, PartialEq, Eq, Structural)]
pub enum Kind {
    Unit,
    Flag,
    Interp,
    Obj,
    Text,
    Bytes,
}

impl OutputView {
    /// The sort of this output.
    pub open spec fn kind(self) -> Kind {
        match self {
            OutputView::Unit => Kind::Unit,
            OutputView::Flag(_) => Kind::Flag,
            OutputView::Interp(_) => Kind::Interp,
            OutputView::Obj(_) => Kind::Obj,
            OutputView::Text(_) => Kind::Text,
            OutputView::Bytes(_) => Kind::Bytes,
        }
    }
}

impl Goal {
    /// The sort of output that reaching this goal gives.
    pub open spec fn kind(self) -> Kind {
        match self {
            Goal::Interp => Kind::Interp,
            Goal::Obj | Goal::Attach(_) => Kind::Obj,
        }
    }
}

impl TaskView {
    /// True when the operation that the task belongs to can only end in an
    /// error or in an output of the sort `kind`.
    pub open spec fn gives(self, kind: Kind) -> bool {
        match self {
            TaskView::ProgramName(goal) | TaskView::FindExecutable(goal)
            | TaskView::NameOfExecutable(goal) => kind == goal.kind(),
            TaskView::CreateInterp | TaskView::Init(_) => kind == Kind::Interp,
            TaskView::InitFailed(_) | TaskView::Discard(_) | TaskView::Failed => true,
            TaskView::Delete | TaskView::MakeSafe(_) => kind == Kind::Unit,
            TaskView::Eval(_) | TaskView::ObjResult | TaskView::Attach(_) | TaskView::Attached(
                _,
            ) => kind == Kind::Obj,
            TaskView::IsSafe | TaskView::Release(_) | TaskView::Released(_, _) | TaskView::Freed
            | TaskView::IsShared => kind == Kind::Flag,
            TaskView::SetVar(_) => kind == Kind::Bytes,
            TaskView::StringResult | TaskView::Render => kind == Kind::Text,
        }
    }

    /// A bound on the replies that the operation still takes before it is
    /// over.
    pub open spec fn rank(self) -> nat {
        match self {
            TaskView::ProgramName(_) => 7,
            TaskView::FindExecutable(_) => 6,
            TaskView::NameOfExecutable(_) => 5,
            TaskView::CreateInterp | TaskView::Eval(_) => 4,
            TaskView::Init(_) | TaskView::ObjResult | TaskView::Release(_) => 3,
            TaskView::InitFailed(_) | TaskView::MakeSafe(_) | TaskView::SetVar(_)
            | TaskView::Attach(_) | TaskView::Released(_, _) => 2,
            TaskView::Discard(_) | TaskView::Delete | TaskView::Failed | TaskView::IsSafe
            | TaskView::StringResult | TaskView::Attached(_) | TaskView::Freed
            | TaskView::IsShared | TaskView::Render => 1,
        }
    }
}

impl StepView {
    /// True when the operation can only end in an error or in an output of the
    /// sort `kind`.
    pub open spec fn gives(self, kind: Kind) -> bool {
        match self {
            StepView::Ask(_, task) => task.gives(kind),
            StepView::Done(Ok(output)) => output.kind() == kind,
            StepView::Done(Err(_)) => true,
        }
    }

    /// A bound on the replies that the operation still takes.
    pub open spec fn rank(self) -> nat {
        match self {
            StepView::Ask(_, task) => task.rank(),
            StepView::Done(_) => 0,
        }
    }

    /// True when the step asks for nothing that a task could not go on from:
    /// no handle to NULL comes of it.
    pub open spec fn well_formed(self) -> bool {
        match self {
            StepView::Ask(_, task) => task.well_formed(),
            StepView::Done(Ok(OutputView::Interp(interp))) => interp != 0,
            StepView::Done(Ok(OutputView::Obj(obj))) => obj != 0,
            StepView::Done(_) => true,
        }
    }
}

/// Every operation comes to its end: with each reply, the bound on the replies
/// still to come goes down.
pub proof fn lemma_next_decreases_rank(task: TaskView, reply: ReplyView)
    requires
        task.accepts(reply),
    ensures
        task.next(reply).rank() < task.rank(),
{
}

/// An operation ends in the sort of output that it set out for, whatever the
/// runtime replies on the way.
pub proof fn lemma_next_keeps_kind(task: TaskView, reply: ReplyView, kind: Kind)
    requires
        task.accepts(reply),
        task.gives(kind),
    ensures
        task.next(reply).gives(kind),
{
}

/// No step hands out a handle to NULL, or remembers NULL as an address.
pub proof fn lemma_next_well_formed(task: TaskView, reply: ReplyView)
    requires
        task.well_formed(),
        task.accepts(reply),
    ensures
        task.next(reply).well_formed(),
{
}

/// A task that follows a call takes no reply but of the shape that the call
/// returns.
pub proof fn lemma_reply_answers_call(task: TaskView, reply: ReplyView, answer: ReplyView)
    requires
        task.accepts(reply),
        task.next(reply) matches StepView::Ask(_, then) && then.accepts(answer),
    ensures
        task.next(reply) matches StepView::Ask(call, _) && call.answered_by(answer),
{
}

/// A value is freed only by the release of a handle, and only when the
/// reference count that the release stored was no longer positive.
pub proof fn lemma_free_follows_last_release(task: TaskView, reply: ReplyView)
    requires
        task.accepts(reply),
        task.next(reply) matches StepView::Ask(CallView::FreeObj(_), _),
    ensures
        task matches TaskView::Released(obj, free) && free && task.next(reply) == StepView::Ask(
            CallView::FreeObj(obj),
            TaskView::Freed,
        ),
{
}

/// How an operation ends that has come to `step` and whose calls are then
/// answered by the replies from index `at` on: `None` if a reply is missing,
/// is not accepted, or is left over.
pub open spec fn outcome_from(step: StepView, replies: Seq<ReplyView>, at: int) -> Option<
    Result<OutputView, TclErrorView>,
>
    decreases replies.len() - at,
{
    match step {
        StepView::Done(outcome) => if at >= replies.len() {
            Some(outcome)
        } else {
            None
        },
        StepView::Ask(_, task) => if 0 <= at < replies.len() && task.accepts(replies[at]) {
            outcome_from(task.next(replies[at]), replies, at + 1)
        } else {
            None
        },
    }
}

/// The calls that an operation makes which has come to `step` and whose calls
/// are then answered by the replies from index `at` on.
pub open spec fn calls_from(step: StepView, replies: Seq<ReplyView>, at: int) -> Seq<CallView>
    decreases replies.len() - at,
{
    match step {
        StepView::Done(_) => Seq::empty(),
        StepView::Ask(call, task) => seq![call] + if 0 <= at < replies.len() && task.accepts(
            replies[at],
        ) {
            calls_from(task.next(replies[at]), replies, at + 1)
        } else {
            Seq::empty()
        },
    }
}

/// True when the operation that starts with `step`, with its calls answered
/// by `replies` in turn, makes the calls `calls`, one for each reply, and
/// then ends in `outcome`.
pub open spec fn runs(
    step: StepView,
    replies: Seq<ReplyView>,
    calls: Seq<CallView>,
    outcome: Result<OutputView, TclErrorView>,
) -> bool {
    &&& outcome_from(step, replies, 0) == Some(outcome)
    &&& calls_from(step, replies, 0) =~= calls
}

/// An operation that has come to its end has taken no more replies than the
/// bound of its first step allows, and has made one call for each.
pub proof fn lemma_run_is_bounded(step: StepView, replies: Seq<ReplyView>, at: int)
    requires
        0 <= at <= replies.len(),
        outcome_from(step, replies, at) is Some,
    ensures
        replies.len() - at <= step.rank(),
        calls_from(step, replies, at).len() == replies.len() - at,
    decreases replies.len() - at,
{
    match step {
        StepView::Done(_) => {},
        StepView::Ask(_, task) => {
            lemma_next_decreases_rank(task, replies[at]);
            lemma_run_is_bounded(task.next(replies[at]), replies, at + 1);
        },
    }
}

/// An operation that ends well ends in an output of the sort that its first
/// step set out for.
pub proof fn lemma_outcome_has_kind(
    step: StepView,
    replies: Seq<ReplyView>,
    at: int,
    kind: Kind,
)
    requires
        0 <= at <= replies.len(),
        step.gives(kind),
        outcome_from(step, replies, at) matches Some(Ok(_)),
    ensures
        outcome_from(step, replies, at) matches Some(Ok(output)) && output.kind() == kind,
    decreases replies.len() - at,
{
    match step {
        StepView::Done(_) => {},
        StepView::Ask(_, task) => {
            lemma_next_keeps_kind(task, replies[at], kind);
            lemma_outcome_has_kind(task.next(replies[at]), replies, at + 1, kind);
        },
    }
}

} // verus!
