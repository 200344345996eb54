//! Clocks and sleeping.

use crate::abi::{c_int, c_long, clockid_t, Error, NativeTimeSpec, TimeSpec, EINTR};
use crate::errno::e;
use crate::native::{errno_after, sentinel, Call, Event, Native, Sys};
use vstd::prelude::*;

verus! {

/// The POSIX form of a native time value.
pub open spec fn posix_time(native: NativeTimeSpec) -> TimeSpec {
    TimeSpec { tv_sec: native.tv_sec, tv_nsec: native.tv_nsec as c_long }
}

/// The return value of a call on time: -1 where the kernel's answer reads
/// as -1 at the width of a `c_int`, else 0.
pub open spec fn time_ret(event: Event) -> c_int {
    if sentinel(event.result) as c_int == -1 {
        -1i32
    } else {
        0i32
    }
}

/// The caller's time value after a clock was read: where the call returned
/// 0, the POSIX form of what the kernel wrote, else what it was.
pub open spec fn time_after(before: TimeSpec, event: Event) -> TimeSpec {
    if time_ret(event) == 0 {
        posix_time(event.output.time())
    } else {
        before
    }
}

/// Whether a sleep was interrupted: the kernel's call failed with the code
/// for an interrupting signal.
pub open spec fn interrupted(event: Event) -> bool {
    event.result == Err::<usize, Error>(Error { errno: EINTR })
}

/// The caller's remainder after a sleep. It takes the POSIX form of what
/// the kernel wrote where the call returned 0, and where the sleep was
/// interrupted: what is left of the sleep is handed on as the kernel
/// reported it. After any other failure, and after a success whose value
/// reads as -1, it is what it was.
pub open spec fn remainder_after(before: TimeSpec, event: Event) -> TimeSpec {
    if time_ret(event) == 0 || interrupted(event) {
        posix_time(event.output.time())
    } else {
        before
    }
}

/// The kernel was asked to sleep for `rqtp`. The record for what is left
/// of an interrupted sleep starts as the caller's, or as zero if the
/// caller gave none.
pub open spec fn asks_sleep(event: Event, rqtp: TimeSpec, rmtp: Option<TimeSpec>) -> bool {
    event.call == Call::Nanosleep {
        req: NativeTimeSpec::of(rqtp),
        rem: match rmtp {
            Some(left) => NativeTimeSpec::of(left),
            None => NativeTimeSpec::zero(),
        },
    }
}

/// Sleeps for `rqtp`. What the kernel reports as left of the sleep goes to
/// `rmtp`, if that is given, after a sleep that ran to its end and after
/// one that a signal interrupted; the latter returns -1 with `errno` at
/// `EINTR`. Any other call that returns -1 leaves `rmtp` alone.
pub fn nanosleep<K: Native>(sys: &mut Sys<K>, rqtp: &TimeSpec, rmtp: Option<&mut TimeSpec>) -> (ret:
    c_int)
    ensures
        final(sys).trace() == old(sys).trace().push(final(sys).answer()),
        final(sys).errno() == errno_after(old(sys).errno(), final(sys).answer().result),
        ret == time_ret(final(sys).answer()),
        match rmtp {
            Some(left) => {
                &&& asks_sleep(final(sys).answer(), *rqtp, Some(*left))
                &&& *final(left) == remainder_after(*left, final(sys).answer())
            },
            None => asks_sleep(final(sys).answer(), *rqtp, None),
        },
{
    let request = NativeTimeSpec::from_posix(rqtp);
    match rmtp {
        Some(left) => {
            let mut remainder = NativeTimeSpec::from_posix(left);
            let result = sys.native_nanosleep(&request, &mut remainder);
            let cut_short = match result {
                Err(error) => error.errno == EINTR,
                Ok(_) => false,
            };
            let ret = e(sys, result) as c_int;
            if ret != -1 || cut_short {
                left.tv_sec = remainder.tv_sec;
                left.tv_nsec = remainder.tv_nsec as c_long;
            }
            if ret == -1 {
                -1
            } else {
                0
            }
        },
        None => {
            let mut remainder = NativeTimeSpec::zeroed();
            let result = sys.native_nanosleep(&request, &mut remainder);
            if e(sys, result) as c_int == -1 {
                -1
            } else {
                0
            }
        },
    }
}

/// An interrupted sleep returns -1, sets `errno` to `EINTR`, and leaves in
/// the caller's remainder exactly what the kernel reported as left.
pub proof fn interrupted_sleep_hands_on_the_remainder(
    errno: c_int,
    before: TimeSpec,
    event: Event,
)
    requires
        interrupted(event),
    ensures
        time_ret(event) == -1,
        errno_after(errno, event.result) == EINTR,
        remainder_after(before, event).tv_sec == event.output.time().tv_sec,
        remainder_after(before, event).tv_nsec == event.output.time().tv_nsec,
{
    crate::errno::lemma_all_ones();
}

/// Reads the clock `clk_id` into `tp`. The kernel is handed what `tp`
/// held; `tp` changes only if the call did not fail.
pub fn clock_gettime<K: Native>(sys: &mut Sys<K>, clk_id: clockid_t, tp: &mut TimeSpec) -> (ret:
    c_int)
    ensures
        final(sys).forwarded(
            *old(sys),
            Call::ClockGettime { clock: clk_id as usize, tp: NativeTimeSpec::of(*old(tp)) },
        ),
        ret == time_ret(final(sys).answer()),
        *final(tp) == time_after(*old(tp), final(sys).answer()),
{
    let mut native = NativeTimeSpec::from_posix(tp);
    let result = sys.native_clock_gettime(clk_id as usize, &mut native);
    if e(sys, result) as c_int == -1 {
        -1
    } else {
        tp.tv_sec = native.tv_sec;
        tp.tv_nsec = native.tv_nsec as c_long;
        0
    }
}

} // verus!
