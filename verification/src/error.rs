//! The errors that the handles report.
use crate::c_str::{str_from_utf8, NulError};
use crate::completion_code::{completion_of, CompletionCode, CompletionCodeView};
use crate::ffi::TCL_ERROR;
use std::borrow::Cow;
use vstd::prelude::*;
use vstd::std_specs::convert::FromSpecImpl;
use vstd::utf8::{decode_utf8, valid_utf8};

verus! {

/// What can go wrong between this library and the runtime.
#[derive(Debug, PartialEq, Eq)]
pub enum TclError {
    /// A pointer from the runtime was NULL when it should not have been.
    NullPointer,
    /// A string meant for the runtime held NUL bytes; it is carried along.
    NulBytes(String),
    /// A string was not valid UTF-8.
    InvalidUtf8,
    /// The runtime itself reported an error, with this message.
    InternalError(String),
}

/// A `TclError` with its strings as sequences of characters.
pub enum TclErrorView {
    NullPointer,
    NulBytes(Seq<char>),
    InvalidUtf8,
    InternalError(Seq<char>),
}

impl View for TclError {
    type V = TclErrorView;

    open spec fn view(&self) -> TclErrorView {
        match self {
            TclError::NullPointer => TclErrorView::NullPointer,
            TclError::NulBytes(text) => TclErrorView::NulBytes(text@),
            TclError::InvalidUtf8 => TclErrorView::InvalidUtf8,
            TclError::InternalError(message) => TclErrorView::InternalError(message@),
        }
    }
}

impl Clone for TclError {
    fn clone(&self) -> (copy: TclError)
        ensures
            copy@ == self@,
    {
        match self {
            TclError::NullPointer => TclError::NullPointer,
            TclError::NulBytes(text) => TclError::NulBytes(text.clone()),
            TclError::InvalidUtf8 => TclError::InvalidUtf8,
            TclError::InternalError(message) => TclError::InternalError(message.clone()),
        }
    }
}

/// The error that a failed command leaves: the runtime's message where it
/// could be read, else the error met while reading it.
pub open spec fn diagnosis(message: Result<Seq<char>, TclErrorView>) -> TclErrorView {
    match message {
        Ok(text) => TclErrorView::InternalError(text),
        Err(error) => error,
    }
}

/// The error, if any, that a completion code amounts to.
pub open spec fn error_of(code: CompletionCodeView) -> Option<TclErrorView> {
    match code {
        CompletionCodeView::Error(message) => Some(TclErrorView::InternalError(message)),
        _ => None,
    }
}

/// A result whose two sides are taken by their views.
pub open spec fn result_view<T: View, E: View>(result: Result<T, E>) -> Result<T::V, E::V> {
    match result {
        Ok(value) => Ok(value@),
        Err(error) => Err(error@),
    }
}

/// An optional value taken by its view.
pub open spec fn option_view<T: View>(option: Option<T>) -> Option<T::V> {
    match option {
        Some(value) => Some(value@),
        None => None,
    }
}

/// A status of the runtime amounts to an error exactly when it is
/// `TCL_ERROR`, and the error is then the runtime's message.
pub proof fn lemma_error_of_status(status: int, message: Seq<char>)
    ensures
        error_of(completion_of(status, message)) == if status == TCL_ERROR {
            Some(diagnosis(Ok(message)))
        } else {
            None
        },
{
}

impl TclError {
    /// Turns the interpreter's string result, as it was read after a failure,
    /// into the error to report. Where reading the message failed, that
    /// failure is reported in its place.
    pub fn from_string_result(message: Result<String, TclError>) -> (error: TclError)
        ensures
            error@ == diagnosis(result_view(message)),
    {
        match message {
            Ok(text) => TclError::InternalError(text),
            Err(error) => error,
        }
    }

    /// The error that a completion code amounts to: only `Error` is one.
    pub fn from_completion_code(code: CompletionCode) -> (error: Option<TclError>)
        ensures
            option_view(error) == error_of(code@),
    {
        match code {
            CompletionCode::Error(message) => {
                let text = match message {
                    Cow::Borrowed(borrowed) => borrowed.to_owned(),
                    Cow::Owned(owned) => owned,
                };
                Some(TclError::InternalError(text))
            },
            _ => None,
        }
    }
}

/// The error for bytes that were refused because of a NUL byte: it carries
/// them as text where they are valid UTF-8.
pub open spec fn nul_error(bytes: Seq<u8>) -> TclErrorView {
    if valid_utf8(bytes) {
        TclErrorView::NulBytes(decode_utf8(bytes))
    } else {
        TclErrorView::InvalidUtf8
    }
}

impl From<core::str::Utf8Error> for TclError {
    fn from(_err: core::str::Utf8Error) -> (error: TclError) {
        TclError::InvalidUtf8
    }
}

impl FromSpecImpl<core::str::Utf8Error> for TclError {
    open spec fn obeys_from_spec() -> bool {
        true
    }

    open spec fn from_spec(_err: core::str::Utf8Error) -> TclError {
        TclError::InvalidUtf8
    }
}

impl From<NulError> for TclError {
    fn from(err: NulError) -> (error: TclError)
        ensures
            error@ == nul_error(err@),
    {
        let bytes = err.into_vec();
        match str_from_utf8(bytes.as_slice()) {
            Ok(text) => {
                proof {
                    vstd::utf8::encode_utf8_decode_utf8(text@);
                }
                TclError::NulBytes(text.to_owned())
            },
            Err(_) => TclError::InvalidUtf8,
        }
    }
}

impl FromSpecImpl<NulError> for TclError {
    open spec fn obeys_from_spec() -> bool {
        false
    }

    open spec fn from_spec(err: NulError) -> TclError {
        choose|error: TclError| error@ == nul_error(err@)
    }
}

} // verus!
