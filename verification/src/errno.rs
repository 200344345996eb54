//! The one rule by which a native result becomes a POSIX return value.

use crate::abi::{c_int, ssize_t, Error};
use crate::native::{errno_after, sentinel, Call, Native, Sys};
use vstd::prelude::*;

verus! {

/// Converts a native result: a success value comes back as it is; a
/// failure stores its code in `errno` and comes back as all ones. The kernel
/// is not asked anything.
pub fn e<K: Native>(sys: &mut Sys<K>, result: Result<usize, Error>) -> (ret: usize)
    ensures
        ret == sentinel(result),
        final(sys).errno() == errno_after(old(sys).errno(), result),
        final(sys).trace() == old(sys).trace(),
        final(sys).held() == old(sys).held(),
{
    match result {
        Ok(value) => value,
        Err(error) => {
            sys.set_errno(error.errno);
            usize::MAX
        },
    }
}

/// All ones is -1 at the widths at which the POSIX surface returns it.
pub proof fn lemma_all_ones()
    ensures
        #[verifier::truncate] (usize::MAX as c_int) == -1,
        #[verifier::truncate] (usize::MAX as ssize_t) == -1,
{
    let all: usize = usize::MAX;
    assert(all <= !0usize) by (bit_vector);
    assert(all == !0usize);
    assert(all as i32 == -1i32) by (bit_vector)
        requires
            all == !0usize,
    ;
    assert(all as isize == -1isize) by (bit_vector)
        requires
            all == !0usize,
    ;
}

/// A failed native call is reported in full: it converts to all ones,
/// which a caller reads as -1, and `errno` holds the kernel's code.
pub proof fn failure_is_reported(errno: c_int, error: Error)
    ensures
        sentinel(Err(error)) == usize::MAX,
        sentinel(Err(error)) as c_int == -1,
        sentinel(Err(error)) as ssize_t == -1,
        errno_after(errno, Err(error)) == error.errno,
{
    lemma_all_ones();
}

/// A native call that succeeded leaves `errno` alone, and its value comes
/// back unchanged.
pub proof fn success_keeps_errno(errno: c_int, value: usize)
    ensures
        sentinel(Ok(value)) == value,
        errno_after(errno, Ok(value)) == errno,
{
}

/// `errno` changes only through a failure: where what a result converts to
/// is not all ones, `errno` is what it was.
pub proof fn errno_set_only_on_failure(errno: c_int, result: Result<usize, Error>)
    requires
        sentinel(result) != usize::MAX,
    ensures
        result is Ok,
        errno_after(errno, result) == errno,
{
}

/// Where a function makes one native call and passes its result on, a
/// failure of that call is reported in full: what the function returns
/// reads as -1, and `errno` holds the kernel's code.
pub proof fn forwarded_failure_is_reported<K: Native>(before: Sys<K>, after: Sys<K>, call: Call)
    requires
        after.forwarded(before, call),
        after.answer().result is Err,
    ensures
        sentinel(after.answer().result) as c_int == -1,
        sentinel(after.answer().result) as ssize_t == -1,
        after.errno() == after.answer().result->Err_0.errno,
{
    lemma_all_ones();
}

/// Where a function makes one native call and passes its result on, a
/// success of that call leaves `errno` as it was.
pub proof fn forwarded_success_keeps_errno<K: Native>(before: Sys<K>, after: Sys<K>, call: Call)
    requires
        after.forwarded(before, call),
        after.answer().result is Ok,
    ensures
        sentinel(after.answer().result) == after.answer().result->Ok_0,
        after.errno() == before.errno(),
{
}

} // verus!
