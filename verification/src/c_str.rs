//! Byte strings on their way to and from the runtime, which reads a string up
//! to its first NUL byte and promises nothing about its encoding.
use crate::error::{option_view, result_view, TclError, TclErrorView};
use vstd::prelude::*;
use vstd::string::StringSliceAdditionalSpecFns;
use vstd::utf8::{decode_utf8, valid_utf8};

verus! {

/// `core::str::Utf8Error`, with which `core::str::from_utf8` refuses bytes.
/// Nothing is read out of it.
#[verifier::external_type_specification]
#[verifier::external_body]
pub struct ExUtf8Error(core::str::Utf8Error);

/// True when `bytes` holds a NUL byte, so that a C string could only carry
/// its beginning.
pub open spec fn has_nul(bytes: Seq<u8>) -> bool {
    exists|i: int| 0 <= i < bytes.len() && bytes[i] == 0u8
}

/// True when `position` is where the first NUL byte of `bytes` stands.
pub open spec fn is_first_nul(bytes: Seq<u8>, position: int) -> bool {
    &&& 0 <= position < bytes.len()
    &&& bytes[position] == 0u8
    &&& forall|i: int| 0 <= i < position ==> bytes[i] != 0u8
}

/// Bytes that were refused as a C string because of a NUL byte among them.
#[derive(Debug)]
pub struct NulError {
    position: usize,
    bytes: Vec<u8>,
}

impl View for NulError {
    type V = Seq<u8>;

    closed spec fn view(&self) -> Seq<u8> {
        self.bytes@
    }
}

impl NulError {
    /// Where the first NUL byte stands.
    pub closed spec fn position(&self) -> int {
        self.position as int
    }

    /// Every refusal names the first NUL byte of the bytes it holds.
    #[verifier::type_invariant]
    closed spec fn well_formed(&self) -> bool {
        is_first_nul(self.bytes@, self.position as int)
    }

    /// The index of the first NUL byte.
    pub fn nul_position(&self) -> (position: usize)
        ensures
            position == self.position(),
            is_first_nul(self@, position as int),
    {
        proof {
            use_type_invariant(self);
        }
        self.position
    }

    /// Gives back the bytes that were refused.
    pub fn into_vec(self) -> (bytes: Vec<u8>)
        ensures
            bytes@ == self@,
            has_nul(bytes@),
    {
        proof {
            use_type_invariant(&self);
        }
        self.bytes
    }
}

/// Finds the first NUL byte of `bytes`.
pub fn first_nul(bytes: &Vec<u8>) -> (found: Option<usize>)
    ensures
        found is Some <==> has_nul(bytes@),
        found matches Some(position) ==> is_first_nul(bytes@, position as int),
{
    let mut i: usize = 0;
    while i < bytes.len()
        invariant
            i <= bytes.len(),
            forall|k: int| 0 <= k < i ==> bytes@[k] != 0u8,
        decreases bytes.len() - i,
    {
        if bytes[i] == 0 {
            return Some(i);
        }
        i += 1;
    }
    None
}

/// Tells whether a NUL byte is among `bytes`.
pub fn contains_nul(bytes: &Vec<u8>) -> (found: bool)
    ensures
        found == has_nul(bytes@),
{
    first_nul(bytes).is_some()
}

/// Checks that `bytes` can be handed over as a C string: they are returned
/// unchanged unless a NUL byte is among them.
pub fn c_string(bytes: Vec<u8>) -> (checked: Result<Vec<u8>, NulError>)
    ensures
        checked is Ok <==> !has_nul(bytes@),
        checked matches Ok(same) ==> same@ == bytes@,
        checked matches Err(refused) ==> refused@ == bytes@ && is_first_nul(
            bytes@,
            refused.position(),
        ),
{
    match first_nul(&bytes) {
        Some(position) => Err(NulError { position, bytes }),
        None => Ok(bytes),
    }
}

/// Reads `bytes` as UTF-8 by `core::str::from_utf8`: the call succeeds exactly
/// on valid UTF-8, and the string slice it then returns has the very bytes it
/// was given.
#[verifier::external_body]
pub(crate) fn str_from_utf8(bytes: &[u8]) -> (text: Result<&str, core::str::Utf8Error>)
    ensures
        text is Ok <==> valid_utf8(bytes@),
        text matches Ok(slice) ==> slice.spec_bytes() == bytes@,
{
    core::str::from_utf8(bytes)
}

/// What a C string from the runtime holds as text: nothing behind a NULL
/// pointer, and no text in bytes that are not UTF-8.
pub open spec fn c_str_text(text: Option<Seq<u8>>) -> Result<Seq<char>, TclErrorView> {
    match text {
        None => Err(TclErrorView::NullPointer),
        Some(bytes) => if valid_utf8(bytes) {
            Ok(decode_utf8(bytes))
        } else {
            Err(TclErrorView::InvalidUtf8)
        },
    }
}

/// Reads a C string from the runtime as text.
pub fn read_c_str(text: Option<Vec<u8>>) -> (read: Result<String, TclError>)
    ensures
        result_view(read) == c_str_text(option_view(text)),
{
    match text {
        None => Err(TclError::NullPointer),
        Some(bytes) => match str_from_utf8(bytes.as_slice()) {
            Ok(slice) => {
                proof {
                    vstd::utf8::encode_utf8_decode_utf8(slice@);
                }
                Ok(slice.to_owned())
            },
            Err(error) => Err(TclError::from(error)),
        },
    }
}

} // verus!
