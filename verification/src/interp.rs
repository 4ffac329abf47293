//! The handle to an interpreter of the runtime.
use crate::c_str::{c_str_text, c_string, has_nul};
use crate::error::{diagnosis, nul_error, TclError, TclErrorView};
use crate::ffi::{is_completion_status, Call, CallView, ReplyView, TCL_ERROR, TCL_LEAVE_ERR_MSG};
use crate::init::{init, init_step, InitGuard};
use crate::task::{
    begin, calls_from, outcome_from, runs, Goal, Kind, OutputView, Phase, Step, StepView,
    TaskView,
};
use vstd::prelude::*;
use vstd::string::StrSliceExecFns;
use vstd::utf8::encode_utf8;

verus! {

/// The first step of evaluating `code` in the interpreter at `interp`: a
/// script that holds a NUL character is refused before the runtime hears of
/// it.
pub open spec fn eval_step(interp: usize, code: Seq<char>) -> StepView {
    if has_nul(encode_utf8(code)) {
        StepView::Done(Err(TclErrorView::NulBytes(code)))
    } else {
        StepView::Ask(
            CallView::Eval { interp, script: encode_utf8(code) },
            TaskView::Eval(interp),
        )
    }
}

/// The first step of setting the variable `name` to `value` in the
/// interpreter at `interp`: a NUL byte in the name, or else in the value, is
/// refused before the runtime hears of either.
pub open spec fn set_var_step(interp: usize, name: Seq<u8>, value: Seq<u8>) -> StepView {
    if has_nul(name) {
        StepView::Done(Err(nul_error(name)))
    } else if has_nul(value) {
        StepView::Done(Err(nul_error(value)))
    } else {
        StepView::Ask(
            CallView::SetVar { interp, name, value, flags: TCL_LEAVE_ERR_MSG },
            TaskView::SetVar(interp),
        )
    }
}

/// The one handle to an interpreter of the runtime.
///
/// It cannot be copied: whoever holds it is alone in using the interpreter,
/// and gives it up by `delete`.
#[derive(Debug)]
pub struct TclInterp {
    interp_ptr: usize,
}

impl View for TclInterp {
    type V = usize;

    closed spec fn view(&self) -> usize {
        self.interp_ptr
    }
}

impl TclInterp {
    /// A handle never refers to NULL.
    #[verifier::type_invariant]
    closed spec fn non_null(&self) -> bool {
        self.interp_ptr != 0
    }

    /// The handle for the interpreter at `interp_ptr`, once it is set up.
    pub(crate) fn created(interp_ptr: usize) -> (interp: TclInterp)
        requires
            interp_ptr != 0,
        ensures
            interp@ == interp_ptr,
    {
        TclInterp { interp_ptr }
    }

    /// Starts making a new interpreter.
    ///
    /// The runtime is made ready first if need be. The operation ends in
    /// `NullPointer` if the runtime has no interpreter to give. If setting the
    /// interpreter up fails, the interpreter is deleted again and the
    /// operation ends in the error.
    pub fn new(guard: &mut InitGuard) -> (step: Step)
        ensures
            final(guard).initialized(),
            step@ == init_step(old(guard).initialized(), Goal::Interp),
    {
        init(guard, Goal::Interp)
    }

    /// Starts deleting the interpreter, which ends the handle.
    pub fn delete(self) -> (step: Step)
        ensures
            step@ == StepView::Ask(CallView::DeleteInterp(self@), TaskView::Delete),
    {
        Step::ask(Call::DeleteInterp(self.as_ptr()), Phase::Delete)
    }

    /// Starts reading the interpreter's result as text.
    pub fn get_string_result(&self) -> (step: Step)
        ensures
            step@ == StepView::Ask(CallView::GetStringResult(self@), TaskView::StringResult),
    {
        Step::ask(Call::GetStringResult(self.as_ptr()), Phase::StringResult)
    }

    /// Starts attaching a handle to the interpreter's result.
    pub fn get_object_result(&self) -> (step: Step)
        ensures
            step@ == StepView::Ask(CallView::GetObjResult(self@), TaskView::ObjResult),
    {
        Step::ask(Call::GetObjResult(self.as_ptr()), Phase::ObjResult)
    }

    /// Starts making the interpreter safe.
    pub fn make_safe(&mut self) -> (step: Step)
        ensures
            final(self)@ == old(self)@,
            step@ == StepView::Ask(CallView::MakeSafe(old(self)@), TaskView::MakeSafe(old(self)@)),
    {
        let interp = self.as_ptr();
        Step::ask(Call::MakeSafe(interp), Phase::MakeSafe(interp))
    }

    /// Starts asking whether the interpreter is safe.
    pub fn is_safe(&self) -> (step: Step)
        ensures
            step@ == StepView::Ask(CallView::IsSafe(self@), TaskView::IsSafe),
    {
        Step::ask(Call::IsSafe(self.as_ptr()), Phase::IsSafe)
    }

    /// Starts evaluating `code`; the operation ends in a handle to the
    /// interpreter's result.
    pub fn eval(&mut self, code: &str) -> (step: Step)
        ensures
            final(self)@ == old(self)@,
            step@ == eval_step(old(self)@, code@),
    {
        let interp = self.as_ptr();
        proof {
            vstd::utf8::encode_utf8_valid_utf8(code@);
            vstd::utf8::encode_utf8_decode_utf8(code@);
        }
        match c_string(code.as_bytes_vec()) {
            Ok(script) => Step::ask(Call::Eval { interp, script }, Phase::Eval(interp)),
            Err(refused) => Step::Done(Err(TclError::from(refused))),
        }
    }

    /// Starts setting the variable `name` to `value`; the operation ends in
    /// the value that the runtime stored, which may be another.
    pub fn set_var(&mut self, name: Vec<u8>, value: Vec<u8>) -> (step: Step)
        ensures
            final(self)@ == old(self)@,
            step@ == set_var_step(old(self)@, name@, value@),
    {
        let interp = self.as_ptr();
        let name = match c_string(name) {
            Ok(name) => name,
            Err(refused) => {
                return Step::Done(Err(TclError::from(refused)));
            },
        };
        let value = match c_string(value) {
            Ok(value) => value,
            Err(refused) => {
                return Step::Done(Err(TclError::from(refused)));
            },
        };
        Step::ask(
            Call::SetVar { interp, name, value, flags: TCL_LEAVE_ERR_MSG },
            Phase::SetVar(interp),
        )
    }

    /// The address of the interpreter.
    pub fn as_ptr(&self) -> (interp_ptr: usize)
        ensures
            interp_ptr == self@,
            interp_ptr != 0,
    {
        proof {
            use_type_invariant(self);
        }
        self.interp_ptr
    }
}

/// Evaluating a script sets out for a handle to a value, and setting a
/// variable for the string that the runtime stored.
pub proof fn lemma_steps_give_kind(interp: usize, code: Seq<char>, name: Seq<u8>, value: Seq<u8>)
    ensures
        eval_step(interp, code).gives(Kind::Obj),
        set_var_step(interp, name, value).gives(Kind::Bytes),
{
}

/// Making an interpreter, once the runtime is ready. Without an interpreter
/// from the runtime the operation ends in `NullPointer`. An interpreter that
/// is set up is handed out. One whose setup fails is deleted, after its
/// message was read and before the error is reported.
pub proof fn lemma_new(interp: usize, status: i32, message: Option<Seq<u8>>)
    requires
        interp != 0,
        is_completion_status(status as int),
    ensures
        runs(
            begin(Goal::Interp),
            seq![ReplyView::Pointer(0)],
            seq![CallView::CreateInterp],
            Err(TclErrorView::NullPointer),
        ),
        status != TCL_ERROR ==> runs(
            begin(Goal::Interp),
            seq![ReplyView::Pointer(interp), ReplyView::Int(status)],
            seq![CallView::CreateInterp, CallView::Init(interp)],
            Ok(OutputView::Interp(interp)),
        ),
        runs(
            begin(Goal::Interp),
            seq![
                ReplyView::Pointer(interp),
                ReplyView::Int(TCL_ERROR),
                ReplyView::Text(message),
                ReplyView::Nothing,
            ],
            seq![
                CallView::CreateInterp,
                CallView::Init(interp),
                CallView::GetStringResult(interp),
                CallView::DeleteInterp(interp),
            ],
            Err(diagnosis(c_str_text(message))),
        ),
{
    reveal_with_fuel(outcome_from, 5);
    reveal_with_fuel(calls_from, 5);
}

/// Deleting an interpreter is one call.
pub proof fn lemma_delete(interp: usize)
    ensures
        runs(
            StepView::Ask(CallView::DeleteInterp(interp), TaskView::Delete),
            seq![ReplyView::Nothing],
            seq![CallView::DeleteInterp(interp)],
            Ok(OutputView::Unit),
        ),
{
    reveal_with_fuel(outcome_from, 2);
    reveal_with_fuel(calls_from, 2);
}

/// Reading the string result gives its text, `NullPointer` where the runtime
/// has none, and `InvalidUtf8` where it is not text.
pub proof fn lemma_get_string_result(interp: usize, text: Option<Seq<u8>>)
    ensures
        runs(
            StepView::Ask(CallView::GetStringResult(interp), TaskView::StringResult),
            seq![ReplyView::Text(text)],
            seq![CallView::GetStringResult(interp)],
            match c_str_text(text) {
                Ok(result) => Ok(OutputView::Text(result)),
                Err(error) => Err(error),
            },
        ),
{
    reveal_with_fuel(outcome_from, 2);
    reveal_with_fuel(calls_from, 2);
}

/// Attaching to the object result ends in `NullPointer` where the runtime has
/// none; else the value counts the new handle, and the handle is handed out.
pub proof fn lemma_get_object_result(interp: usize, obj: usize, count: i32)
    requires
        obj != 0,
        count < i32::MAX,
    ensures
        runs(
            StepView::Ask(CallView::GetObjResult(interp), TaskView::ObjResult),
            seq![ReplyView::Pointer(0)],
            seq![CallView::GetObjResult(interp)],
            Err(TclErrorView::NullPointer),
        ),
        runs(
            StepView::Ask(CallView::GetObjResult(interp), TaskView::ObjResult),
            seq![ReplyView::Pointer(obj), ReplyView::Int(count), ReplyView::Nothing],
            seq![
                CallView::GetObjResult(interp),
                CallView::RefCount(obj),
                CallView::SetRefCount { obj, count: (count + 1) as i32 },
            ],
            Ok(OutputView::Obj(obj)),
        ),
{
    reveal_with_fuel(outcome_from, 4);
    reveal_with_fuel(calls_from, 4);
}

/// Making an interpreter safe succeeds unless the runtime reports an error,
/// whose message is then read and reported.
pub proof fn lemma_make_safe(interp: usize, status: i32, message: Option<Seq<u8>>)
    requires
        is_completion_status(status as int),
    ensures
        status != TCL_ERROR ==> runs(
            StepView::Ask(CallView::MakeSafe(interp), TaskView::MakeSafe(interp)),
            seq![ReplyView::Int(status)],
            seq![CallView::MakeSafe(interp)],
            Ok(OutputView::Unit),
        ),
        runs(
            StepView::Ask(CallView::MakeSafe(interp), TaskView::MakeSafe(interp)),
            seq![ReplyView::Int(TCL_ERROR), ReplyView::Text(message)],
            seq![CallView::MakeSafe(interp), CallView::GetStringResult(interp)],
            Err(diagnosis(c_str_text(message))),
        ),
{
    reveal_with_fuel(outcome_from, 3);
    reveal_with_fuel(calls_from, 3);
}

/// The interpreter is safe exactly when the runtime answers 1, and not safe
/// when it answers 0.
pub proof fn lemma_is_safe(interp: usize, flag: i32)
    requires
        flag == 0 || flag == 1,
    ensures
        runs(
            StepView::Ask(CallView::IsSafe(interp), TaskView::IsSafe),
            seq![ReplyView::Int(flag)],
            seq![CallView::IsSafe(interp)],
            Ok(OutputView::Flag(flag == 1)),
        ),
{
    reveal_with_fuel(outcome_from, 2);
    reveal_with_fuel(calls_from, 2);
}

/// Evaluating a script. A script with a NUL character is refused without a
/// call. An error of the runtime is reported with its message. Else the
/// operation ends in a handle to the interpreter's result, which has counted
/// the handle, or in `NullPointer` where there is no result.
pub proof fn lemma_eval(
    interp: usize,
    code: Seq<char>,
    status: i32,
    message: Option<Seq<u8>>,
    obj: usize,
    count: i32,
)
    requires
        is_completion_status(status as int),
        obj != 0,
        count < i32::MAX,
    ensures
        has_nul(encode_utf8(code)) ==> runs(
            eval_step(interp, code),
            seq![],
            seq![],
            Err(TclErrorView::NulBytes(code)),
        ),
        !has_nul(encode_utf8(code)) ==> runs(
            eval_step(interp, code),
            seq![ReplyView::Int(TCL_ERROR), ReplyView::Text(message)],
            seq![
                CallView::Eval { interp, script: encode_utf8(code) },
                CallView::GetStringResult(interp),
            ],
            Err(diagnosis(c_str_text(message))),
        ),
        !has_nul(encode_utf8(code)) && status != TCL_ERROR ==> runs(
            eval_step(interp, code),
            seq![ReplyView::Int(status), ReplyView::Pointer(0)],
            seq![
                CallView::Eval { interp, script: encode_utf8(code) },
                CallView::GetObjResult(interp),
            ],
            Err(TclErrorView::NullPointer),
        ),
        !has_nul(encode_utf8(code)) && status != TCL_ERROR ==> runs(
            eval_step(interp, code),
            seq![
                ReplyView::Int(status),
                ReplyView::Pointer(obj),
                ReplyView::Int(count),
                ReplyView::Nothing,
            ],
            seq![
                CallView::Eval { interp, script: encode_utf8(code) },
                CallView::GetObjResult(interp),
                CallView::RefCount(obj),
                CallView::SetRefCount { obj, count: (count + 1) as i32 },
            ],
            Ok(OutputView::Obj(obj)),
        ),
{
    reveal_with_fuel(outcome_from, 5);
    reveal_with_fuel(calls_from, 5);
}

/// Setting a variable. A NUL byte in the name, or else in the value, is
/// refused without a call. Else the operation ends in the string that the
/// runtime stored; where the runtime stored none, its message is read and
/// reported.
pub proof fn lemma_set_var(
    interp: usize,
    name: Seq<u8>,
    value: Seq<u8>,
    stored: Seq<u8>,
    message: Option<Seq<u8>>,
)
    ensures
        has_nul(name) ==> runs(
            set_var_step(interp, name, value),
            seq![],
            seq![],
            Err(nul_error(name)),
        ),
        !has_nul(name) && has_nul(value) ==> runs(
            set_var_step(interp, name, value),
            seq![],
            seq![],
            Err(nul_error(value)),
        ),
        !has_nul(name) && !has_nul(value) ==> runs(
            set_var_step(interp, name, value),
            seq![ReplyView::Text(Some(stored))],
            seq![CallView::SetVar { interp, name, value, flags: TCL_LEAVE_ERR_MSG }],
            Ok(OutputView::Bytes(stored)),
        ),
        !has_nul(name) && !has_nul(value) ==> runs(
            set_var_step(interp, name, value),
            seq![ReplyView::Text(None), ReplyView::Text(message)],
            seq![
                CallView::SetVar { interp, name, value, flags: TCL_LEAVE_ERR_MSG },
                CallView::GetStringResult(interp),
            ],
            Err(diagnosis(c_str_text(message))),
        ),
{
    reveal_with_fuel(outcome_from, 3);
    reveal_with_fuel(calls_from, 3);
}

} // verus!
