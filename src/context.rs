//! The handle on the native library's global state, and the conversion of
//! the native library's status codes and null results into `Result` values.
use vstd::prelude::*;

verus! {

/// A status code of the native library.
pub type Error = i32;

/// The error that stands for a module the native library could not load.
pub const MODULE_NOT_LOADED: Error = -1;

/// Exclusive ownership of the native library's one global initialisation.
///
/// At most one may be live in a process; the native library is torn down
/// when it goes away, which invalidates every node view taken from it.
#[derive(Debug)]
pub struct SmiContext {}

impl SmiContext {
    /// The context that a native initialisation status yields: a context on
    /// status zero, else that status as the error.
    pub fn from_init_status(ret: i32) -> (r: Result<SmiContext, Error>)
        ensures
            ret == 0 <==> r is Ok,
            ret != 0 ==> r == Err::<SmiContext, Error>(ret),
    {
        if ret == 0 {
            Ok(SmiContext {})
        } else {
            Err(ret)
        }
    }

    /// The outcome of a native call that reports a status: success on zero,
    /// else that status as the error.
    pub fn check_status(ret: i32) -> (r: Result<(), Error>)
        ensures
            r == (if ret == 0 {
                Ok::<(), Error>(())
            } else {
                Err(ret)
            }),
    {
        if ret == 0 {
            Ok(())
        } else {
            Err(ret)
        }
    }

    /// The outcome of loading a module, given whether the native library
    /// handed back a module.
    pub fn check_loaded(loaded: bool) -> (r: Result<(), Error>)
        ensures
            r == (if loaded {
                Ok::<(), Error>(())
            } else {
                Err(MODULE_NOT_LOADED)
            }),
    {
        if loaded {
            Ok(())
        } else {
            Err(MODULE_NOT_LOADED)
        }
    }

    /// The length to hand the native lookup for an object identifier, or
    /// `None` where it does not fit the native length type.
    pub fn oid_arg_len(oid: &[u32]) -> (r: Option<u32>)
        ensures
            oid@.len() <= u32::MAX ==> r == Some(oid@.len() as u32),
            oid@.len() > u32::MAX ==> r is None,
    {
        let n = oid.len();
        if n <= u32::MAX as usize {
            Some(n as u32)
        } else {
            None
        }
    }
}

} // verus!
