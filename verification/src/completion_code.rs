//! The five ways in which the runtime says that a command came to its end.
use crate::ffi::{is_completion_status, TCL_BREAK, TCL_ERROR, TCL_OK, TCL_RETURN};
use std::borrow::Cow;
use vstd::prelude::*;

verus! {

/// A completion status of the runtime, with the message that an error left
/// behind as the interpreter's result.
#[derive(Debug, PartialEq, Eq)]
pub enum CompletionCode<'interp> {
    /// Everything went fine.
    Okay,
    /// There was an error; this is the message left as the result.
    Error(Cow<'interp, str>),
    /// The last command was a `return`.
    Return,
    /// The last command was a `break`.
    Break,
    /// The last command was a `continue`.
    Continue,
}

/// A `CompletionCode` with its message as a sequence of characters.
pub enum CompletionCodeView {
    Okay,
    Error(Seq<char>),
    Return,
    Break,
    Continue,
}

impl<'interp> View for CompletionCode<'interp> {
    type V = CompletionCodeView;

    open spec fn view(&self) -> CompletionCodeView {
        match self {
            CompletionCode::Okay => CompletionCodeView::Okay,
            CompletionCode::Error(message) => CompletionCodeView::Error(message@),
            CompletionCode::Return => CompletionCodeView::Return,
            CompletionCode::Break => CompletionCodeView::Break,
            CompletionCode::Continue => CompletionCodeView::Continue,
        }
    }
}

impl<'interp> Clone for CompletionCode<'interp> {
    fn clone(&self) -> (copy: Self)
        ensures
            copy@ == self@,
    {
        match self {
            CompletionCode::Okay => CompletionCode::Okay,
            CompletionCode::Error(message) => {
                let text = match message {
                    Cow::Borrowed(borrowed) => Cow::Borrowed(*borrowed),
                    Cow::Owned(owned) => Cow::Owned(owned.clone()),
                };
                CompletionCode::Error(text)
            },
            CompletionCode::Return => CompletionCode::Return,
            CompletionCode::Break => CompletionCode::Break,
            CompletionCode::Continue => CompletionCode::Continue,
        }
    }
}

/// The completion code that a status of the runtime stands for; `message` is
/// the interpreter's string result at that moment, which only an error keeps.
pub open spec fn completion_of(status: int, message: Seq<char>) -> CompletionCodeView {
    if status == TCL_OK {
        CompletionCodeView::Okay
    } else if status == TCL_ERROR {
        CompletionCodeView::Error(message)
    } else if status == TCL_RETURN {
        CompletionCodeView::Return
    } else if status == TCL_BREAK {
        CompletionCodeView::Break
    } else {
        CompletionCodeView::Continue
    }
}

impl<'interp> CompletionCode<'interp> {
    /// Reads a status of the runtime. The runtime reports no status but the
    /// five that `is_completion_status` admits.
    pub fn from_status(status: i32, message: Cow<'interp, str>) -> (code: Self)
        requires
            is_completion_status(status as int),
        ensures
            code@ == completion_of(status as int, message@),
    {
        if status == TCL_OK {
            CompletionCode::Okay
        } else if status == TCL_ERROR {
            CompletionCode::Error(message)
        } else if status == TCL_RETURN {
            CompletionCode::Return
        } else if status == TCL_BREAK {
            CompletionCode::Break
        } else {
            CompletionCode::Continue
        }
    }

    /// Tells whether this is an error.
    pub fn is_error(&self) -> (error: bool)
        ensures
            error == (self@ is Error),
    {
        match self {
            CompletionCode::Error(_) => true,
            _ => false,
        }
    }

    /// Lets every completion code but an error pass. An error must not reach
    /// this point: test with `is_error` first.
    #[inline]
    pub fn panic_if_error(self)
        requires
            !(self@ is Error),
    {
    }
}

} // verus!
