use vstd::prelude::*;

verus! {

/// An error reported by the compiler: a bare result code, or the diagnostics
/// it wrote (held as `B`, the handle through which they are read).
#[derive(Debug)]
pub enum Error<B> {
    Code(i32),
    Blob(B),
}

/// The result that a compiler call with result code `code` and diagnostics
/// `blob` comes to: success for a non-negative code; for a negative one the
/// diagnostics where the compiler wrote some, else the code itself.
pub open spec fn blob_outcome<B>(code: i32, blob: Option<B>) -> Result<(), Error<B>> {
    if code >= 0 {
        Ok(())
    } else {
        match blob {
            Some(b) => Err(Error::Blob(b)),
            None => Err(Error::Code(code)),
        }
    }
}

/// Whether a result code of the compiler reports success: the compiler
/// marks failures by negative codes.
pub fn succeeded(result: i32) -> (r: bool)
    ensures
        r == (result >= 0),
{
    result >= 0
}

/// Turns a result code and the diagnostics that came with it into a `Result`.
pub fn result_from_blob<B>(code: i32, blob: Option<B>) -> (r: Result<(), Error<B>>)
    ensures
        r == blob_outcome(code, blob),
        r is Ok <==> succeeded_spec(code),
        code >= 0 ==> r == Ok::<(), Error<B>>(()),
        code < 0 && blob is Some ==> r == Err::<(), Error<B>>(Error::Blob(blob->0)),
        code < 0 && blob is None ==> r == Err::<(), Error<B>>(Error::Code(code)),
{
    if code < 0 {
        match blob {
            Some(b) => Err(Error::Blob(b)),
            None => Err(Error::Code(code)),
        }
    } else {
        Ok(())
    }
}

/// Whether `code` reports success.
pub open spec fn succeeded_spec(code: i32) -> bool {
    code >= 0
}

/// The outcome of a call that either hands back an object or, where it hands
/// back none, writes diagnostics: the object where there is one, else the
/// diagnostics as an error.
pub fn object_or_diagnostics<T, B>(object: Option<T>, diagnostics: Option<B>) -> (r: Result<T, Error<B>>)
    requires
        object is Some || diagnostics is Some,
    ensures
        object is Some ==> r == Ok::<T, Error<B>>(object->0),
        object is None ==> r == Err::<T, Error<B>>(Error::Blob(diagnostics->0)),
{
    match object {
        Some(o) => Ok(o),
        None => match diagnostics {
            Some(d) => Err(Error::Blob(d)),
            None => {
                assert(false);
                Err(Error::Code(-1))
            },
        },
    }
}

/// The outcome of a call that reports a result code and, on success, hands
/// back an object: the object for a non-negative code, else the error that
/// `result_from_blob` makes of the code and the diagnostics.
pub fn created_object<T, B>(code: i32, object: Option<T>, diagnostics: Option<B>) -> (r: Result<T, Error<B>>)
    requires
        code < 0 || object is Some,
    ensures
        code >= 0 ==> r == Ok::<T, Error<B>>(object->0),
        code < 0 ==> r == match blob_outcome(code, diagnostics) {
            Ok(_) => Err::<T, Error<B>>(Error::Code(code)),
            Err(e) => Err::<T, Error<B>>(e),
        },
        code < 0 && diagnostics is Some ==> r == Err::<T, Error<B>>(Error::Blob(diagnostics->0)),
        code < 0 && diagnostics is None ==> r == Err::<T, Error<B>>(Error::Code(code)),
{
    match result_from_blob(code, diagnostics) {
        Ok(()) => match object {
            Some(o) => Ok(o),
            None => {
                assert(false);
                Err(Error::Code(code))
            },
        },
        Err(e) => Err(e),
    }
}

/// Law: a failing code never loses the diagnostics that came with it: for
/// every negative code and every diagnostics value the outcome is an error
/// that carries exactly those diagnostics, and only without diagnostics is
/// it the code. A non-negative code is success whatever came with it.
pub proof fn lemma_failure_keeps_diagnostics<B>(code: i32, diagnostics: B)
    ensures
        code < 0 ==> blob_outcome(code, Some(diagnostics)) == Err::<(), Error<B>>(Error::Blob(diagnostics)),
        code < 0 ==> blob_outcome::<B>(code, None) == Err::<(), Error<B>>(Error::Code(code)),
        code >= 0 ==> blob_outcome(code, Some(diagnostics)) is Ok,
        code >= 0 ==> blob_outcome::<B>(code, None) is Ok,
{
}

/// The answer to whether a parameter location is used: the flag the compiler
/// wrote where its result code reports success, else no answer.
pub fn location_use_answer(result: i32, used: bool) -> (r: Option<bool>)
    ensures
        r == (if result >= 0 { Some(used) } else { None::<bool> }),
{
    if succeeded(result) {
        Some(used)
    } else {
        None
    }
}

} // verus!
