//! The vocabulary shared with the Tcl runtime: its status codes and flags, the
//! entry points that the handles call, and what those hand back.
//!
//! Nothing here touches the runtime. A handle says which entry point is to be
//! called with which arguments (a `Call`); whoever holds the runtime makes the
//! call and brings back what it returned (a `Reply`). Pointers travel as
//! addresses, strings as the bytes before their terminating NUL.
use vstd::prelude::*;

verus! {

/// Status with which the runtime reports that a command completed normally.
pub const TCL_OK: i32 = 0;

/// Status with which the runtime reports an error; its message is left as the
/// interpreter's string result.
pub const TCL_ERROR: i32 = 1;

/// Status of a `return` command.
pub const TCL_RETURN: i32 = 2;

/// Status of a `break` command.
pub const TCL_BREAK: i32 = 3;

/// Status of a `continue` command.
pub const TCL_CONTINUE: i32 = 4;

/// Flag that asks the runtime to leave its error message in the interpreter.
pub const TCL_LEAVE_ERR_MSG: i32 = 0x200;

/// True for the five statuses that the runtime is allowed to report.
pub open spec fn is_completion_status(status: int) -> bool {
    TCL_OK <= status <= TCL_CONTINUE
}

/// Tells whether `status` is one of the five statuses of the runtime.
pub fn known_status(status: i32) -> (known: bool)
    ensures
        known == is_completion_status(status as int),
{
    TCL_OK <= status && status <= TCL_CONTINUE
}

/// What a handle asks for: a call of an entry point of the runtime, with its
/// arguments, or a read or write in the memory of one of its values.
#[derive(Debug, PartialEq, Eq)]
pub enum Call {
    /// The name under which the process was started, as the operating system
    /// gives it.
    ProgramName,
    /// `Tcl_FindExecutable`, with the name of the program.
    FindExecutable(Vec<u8>),
    /// `Tcl_GetNameOfExecutable`.
    GetNameOfExecutable,
    /// `Tcl_CreateInterp`.
    CreateInterp,
    /// `Tcl_DeleteInterp`, with the interpreter.
    DeleteInterp(usize),
    /// `Tcl_Init`, with the interpreter.
    Init(usize),
    /// `Tcl_Eval`.
    Eval { interp: usize, script: Vec<u8> },
    /// `Tcl_GetStringResult`, with the interpreter.
    GetStringResult(usize),
    /// `Tcl_GetObjResult`, with the interpreter.
    GetObjResult(usize),
    /// `Tcl_MakeSafe`, with the interpreter.
    MakeSafe(usize),
    /// `Tcl_IsSafe`, with the interpreter.
    IsSafe(usize),
    /// `Tcl_SetVar`.
    SetVar { interp: usize, name: Vec<u8>, value: Vec<u8>, flags: i32 },
    /// `Tcl_NewObj`.
    NewObj,
    /// `TclFreeObj`, with the value.
    FreeObj(usize),
    /// `Tcl_GetStringFromObj`, with the value and no place for the length.
    GetStringFromObj(usize),
    /// A read of the reference count that the value at this address holds.
    RefCount(usize),
    /// A write of the reference count that the value at `obj` holds.
    SetRefCount { obj: usize, count: i32 },
}

/// A `Call` with its strings as sequences of bytes.
pub enum CallView {
    ProgramName,
    FindExecutable(Seq<u8>),
    GetNameOfExecutable,
    CreateInterp,
    DeleteInterp(usize),
    Init(usize),
    Eval { interp: usize, script: Seq<u8> },
    GetStringResult(usize),
    GetObjResult(usize),
    MakeSafe(usize),
    IsSafe(usize),
    SetVar { interp: usize, name: Seq<u8>, value: Seq<u8>, flags: i32 },
    NewObj,
    FreeObj(usize),
    GetStringFromObj(usize),
    RefCount(usize),
    SetRefCount { obj: usize, count: i32 },
}

impl View for Call {
    type V = CallView;

    open spec fn view(&self) -> CallView {
        match self {
            Call::ProgramName => CallView::ProgramName,
            Call::FindExecutable(name) => CallView::FindExecutable(name@),
            Call::GetNameOfExecutable => CallView::GetNameOfExecutable,
            Call::CreateInterp => CallView::CreateInterp,
            Call::DeleteInterp(interp) => CallView::DeleteInterp(*interp),
            Call::Init(interp) => CallView::Init(*interp),
            Call::Eval { interp, script } => CallView::Eval { interp: *interp, script: script@ },
            Call::GetStringResult(interp) => CallView::GetStringResult(*interp),
            Call::GetObjResult(interp) => CallView::GetObjResult(*interp),
            Call::MakeSafe(interp) => CallView::MakeSafe(*interp),
            Call::IsSafe(interp) => CallView::IsSafe(*interp),
            Call::SetVar { interp, name, value, flags } => CallView::SetVar {
                interp: *interp,
                name: name@,
                value: value@,
                flags: *flags,
            },
            Call::NewObj => CallView::NewObj,
            Call::FreeObj(obj) => CallView::FreeObj(*obj),
            Call::GetStringFromObj(obj) => CallView::GetStringFromObj(*obj),
            Call::RefCount(obj) => CallView::RefCount(*obj),
            Call::SetRefCount { obj, count } => CallView::SetRefCount { obj: *obj, count: *count },
        }
    }
}

impl Clone for Call {
    fn clone(&self) -> (copy: Call)
        ensures
            copy@ == self@,
    {
        match self {
            Call::ProgramName => Call::ProgramName,
            Call::FindExecutable(name) => Call::FindExecutable(name.clone()),
            Call::GetNameOfExecutable => Call::GetNameOfExecutable,
            Call::CreateInterp => Call::CreateInterp,
            Call::DeleteInterp(interp) => Call::DeleteInterp(*interp),
            Call::Init(interp) => Call::Init(*interp),
            Call::Eval { interp, script } => Call::Eval { interp: *interp, script: script.clone() },
            Call::GetStringResult(interp) => Call::GetStringResult(*interp),
            Call::GetObjResult(interp) => Call::GetObjResult(*interp),
            Call::MakeSafe(interp) => Call::MakeSafe(*interp),
            Call::IsSafe(interp) => Call::IsSafe(*interp),
            Call::SetVar { interp, name, value, flags } => Call::SetVar {
                interp: *interp,
                name: name.clone(),
                value: value.clone(),
                flags: *flags,
            },
            Call::NewObj => Call::NewObj,
            Call::FreeObj(obj) => Call::FreeObj(*obj),
            Call::GetStringFromObj(obj) => Call::GetStringFromObj(*obj),
            Call::RefCount(obj) => Call::RefCount(*obj),
            Call::SetRefCount { obj, count } => Call::SetRefCount { obj: *obj, count: *count },
        }
    }
}

/// What a call handed back.
#[derive(Debug, PartialEq, Eq)]
pub enum Reply {
    /// The entry point returns nothing.
    Nothing,
    /// A pointer to an interpreter or a value; 0 is NULL.
    Pointer(usize),
    /// A C `int`: a status, a flag or a reference count.
    Int(i32),
    /// A pointer to a C string: `None` is NULL, else the bytes before the
    /// terminating NUL.
    Text(Option<Vec<u8>>),
}

/// A `Reply` with its string as a sequence of bytes.
pub enum ReplyView {
    Nothing,
    Pointer(usize),
    Int(i32),
    Text(Option<Seq<u8>>),
}

impl View for Reply {
    type V = ReplyView;

    open spec fn view(&self) -> ReplyView {
        match self {
            Reply::Nothing => ReplyView::Nothing,
            Reply::Pointer(address) => ReplyView::Pointer(*address),
            Reply::Int(value) => ReplyView::Int(*value),
            Reply::Text(None) => ReplyView::Text(None),
            Reply::Text(Some(bytes)) => ReplyView::Text(Some(bytes@)),
        }
    }
}

impl Clone for Reply {
    fn clone(&self) -> (copy: Reply)
        ensures
            copy@ == self@,
    {
        match self {
            Reply::Nothing => Reply::Nothing,
            Reply::Pointer(address) => Reply::Pointer(*address),
            Reply::Int(value) => Reply::Int(*value),
            Reply::Text(None) => Reply::Text(None),
            Reply::Text(Some(bytes)) => Reply::Text(Some(bytes.clone())),
        }
    }
}

impl CallView {
    /// True when `reply` has the shape of what this entry point returns.
    pub open spec fn answered_by(self, reply: ReplyView) -> bool {
        match self {
            CallView::FindExecutable(_)
            | CallView::DeleteInterp(_)
            | CallView::FreeObj(_)
            | CallView::SetRefCount { .. } => reply is Nothing,
            CallView::CreateInterp | CallView::GetObjResult(_) | CallView::NewObj => reply is Pointer,
            CallView::Init(_)
            | CallView::Eval { .. }
            | CallView::MakeSafe(_)
            | CallView::IsSafe(_)
            | CallView::RefCount(_) => reply is Int,
            CallView::ProgramName
            | CallView::GetNameOfExecutable
            | CallView::GetStringResult(_)
            | CallView::SetVar { .. }
            | CallView::GetStringFromObj(_) => reply is Text,
        }
    }
}

} // verus!
