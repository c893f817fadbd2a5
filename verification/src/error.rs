use vstd::prelude::*;

verus! {

/// A typed construction failure: the native entry point reported a non-zero
/// status code, and this value carries that code for diagnostics. No raw
/// status code escapes the wrapper layer in any other form.
#[derive(Debug, Clone, Copy, PartialEq, Eq, Structural)]
pub struct InferenceError {
    code: i32,
}

impl InferenceError {
    /// The native status code that this failure carries.
    pub closed spec fn code_spec(&self) -> i32 {
        self.code
    }

    /// The native status code that this failure carries.
    #[verifier::when_used_as_spec(code_spec)]
    pub fn code(&self) -> (c: i32)
        ensures
            c == self.code_spec(),
    {
        self.code
    }

    /// Wraps a failing native status code as a typed error. Zero is the
    /// universal success sentinel, so only non-zero codes become errors.
    pub fn from_status(code: i32) -> (e: InferenceError)
        requires
            code != 0,
        ensures
            e.code() == code,
    {
        InferenceError { code }
    }
}

/// Translates the native status convention at the boundary: a zero code is
/// success, and any other code becomes a typed error carrying it.
pub fn check_status(code: i32) -> (r: Result<(), InferenceError>)
    ensures
        code == 0 <==> r is Ok,
        r matches Err(e) ==> e.code() == code,
{
    if code == 0 {
        Ok(())
    } else {
        Err(InferenceError::from_status(code))
    }
}

} // verus!
