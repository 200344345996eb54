//! Processes, their identities and their environment.

use crate::abi::{c_int, gid_t, pid_t, uid_t, Error, O_CREAT, O_WRONLY};
use crate::errno::e;
use crate::native::{byte_strings, errno_after, sentinel, Call, Event, Native, Sys};
use crate::text::{copy_range, variable, variable_of, variable_path, variable_value};
use vstd::prelude::*;

verus! {

/// Moves the end of the data segment to `addr` and returns the new end, or
/// 0 if the kernel refuses. `errno` is left alone.
pub fn brk<K: Native>(sys: &mut Sys<K>, addr: usize) -> (end: usize)
    ensures
        final(sys).trace() == old(sys).trace().push(final(sys).answer()),
        final(sys).answer().call == (Call::Brk { addr }),
        final(sys).errno() == old(sys).errno(),
        end == match final(sys).answer().result {
            Ok(value) => value,
            Err(_) => 0,
        },
{
    match sys.native_brk(addr) {
        Ok(value) => value,
        Err(_) => 0,
    }
}

/// Asks the kernel to end the process with `status`. The kernel of a
/// running system does not come back from this call.
pub fn exit<K: Native>(sys: &mut Sys<K>, status: c_int)
    ensures
        final(sys).trace() == old(sys).trace().push(final(sys).answer()),
        final(sys).answer().call == (Call::Exit { status: status as usize }),
        final(sys).errno() == old(sys).errno(),
{
    let _ = sys.native_exit(status as usize);
}

/// Duplicates the calling process: a clone with no flags.
pub fn fork<K: Native>(sys: &mut Sys<K>) -> (ret: pid_t)
    ensures
        final(sys).forwarded(*old(sys), Call::Clone { flags: 0 }),
        ret == sentinel(final(sys).answer().result),
{
    let result = sys.native_clone(0);
    e(sys, result)
}

/// The effective group id.
pub fn getegid<K: Native>(sys: &mut Sys<K>) -> (ret: gid_t)
    ensures
        final(sys).forwarded(*old(sys), Call::Getegid),
        ret == sentinel(final(sys).answer().result),
{
    let result = sys.native_getegid();
    e(sys, result)
}

/// The effective user id.
pub fn geteuid<K: Native>(sys: &mut Sys<K>) -> (ret: uid_t)
    ensures
        final(sys).forwarded(*old(sys), Call::Geteuid),
        ret == sentinel(final(sys).answer().result),
{
    let result = sys.native_geteuid();
    e(sys, result)
}

/// The real group id.
pub fn getgid<K: Native>(sys: &mut Sys<K>) -> (ret: gid_t)
    ensures
        final(sys).forwarded(*old(sys), Call::Getgid),
        ret == sentinel(final(sys).answer().result),
{
    let result = sys.native_getgid();
    e(sys, result)
}

/// The process group of `pid`.
pub fn getpgid<K: Native>(sys: &mut Sys<K>, pid: pid_t) -> (ret: pid_t)
    ensures
        final(sys).forwarded(*old(sys), Call::Getpgid { pid }),
        ret == sentinel(final(sys).answer().result),
{
    let result = sys.native_getpgid(pid);
    e(sys, result)
}

/// The id of the calling process.
pub fn getpid<K: Native>(sys: &mut Sys<K>) -> (ret: pid_t)
    ensures
        final(sys).forwarded(*old(sys), Call::Getpid),
        ret == sentinel(final(sys).answer().result),
{
    let result = sys.native_getpid();
    e(sys, result)
}

/// The id of the parent process.
pub fn getppid<K: Native>(sys: &mut Sys<K>) -> (ret: pid_t)
    ensures
        final(sys).forwarded(*old(sys), Call::Getppid),
        ret == sentinel(final(sys).answer().result),
{
    let result = sys.native_getppid();
    e(sys, result)
}

/// The real user id.
pub fn getuid<K: Native>(sys: &mut Sys<K>) -> (ret: uid_t)
    ensures
        final(sys).forwarded(*old(sys), Call::Getuid),
        ret == sentinel(final(sys).answer().result),
{
    let result = sys.native_getuid();
    e(sys, result)
}

/// Sends the signal `sig` to the process `pid`.
pub fn kill<K: Native>(sys: &mut Sys<K>, pid: pid_t, sig: c_int) -> (ret: c_int)
    ensures
        final(sys).forwarded(*old(sys), Call::Kill { pid, sig: sig as usize }),
        ret == sentinel(final(sys).answer().result) as c_int,
{
    let result = sys.native_kill(pid, sig as usize);
    e(sys, result) as c_int
}

/// A process group as the target of a signal: the group's number negated,
/// as a machine word.
pub open spec fn group_target(pgrp: pid_t) -> usize {
    if pgrp == 0 {
        0
    } else {
        (usize::MAX - pgrp + 1) as usize
    }
}

/// Sends the signal `sig` to every process of the group `pgrp`.
pub fn killpg<K: Native>(sys: &mut Sys<K>, pgrp: pid_t, sig: c_int) -> (ret: c_int)
    ensures
        final(sys).forwarded(*old(sys), Call::Kill { pid: group_target(pgrp), sig: sig as usize }),
        ret == sentinel(final(sys).answer().result) as c_int,
{
    let target = if pgrp == 0 {
        0
    } else {
        usize::MAX - pgrp + 1
    };
    let result = sys.native_kill(target, sig as usize);
    e(sys, result) as c_int
}

/// Sets the process group of `pid` to `pgid`.
pub fn setpgid<K: Native>(sys: &mut Sys<K>, pid: pid_t, pgid: pid_t) -> (ret: c_int)
    ensures
        final(sys).forwarded(*old(sys), Call::Setpgid { pid, pgid }),
        ret == sentinel(final(sys).answer().result) as c_int,
{
    let result = sys.native_setpgid(pid, pgid);
    e(sys, result) as c_int
}

/// Sets the real and the effective group id.
pub fn setregid<K: Native>(sys: &mut Sys<K>, rgid: gid_t, egid: gid_t) -> (ret: c_int)
    ensures
        final(sys).forwarded(*old(sys), Call::Setregid { rgid, egid }),
        ret == sentinel(final(sys).answer().result) as c_int,
{
    let result = sys.native_setregid(rgid, egid);
    e(sys, result) as c_int
}

/// Sets the real and the effective user id.
pub fn setreuid<K: Native>(sys: &mut Sys<K>, ruid: uid_t, euid: uid_t) -> (ret: c_int)
    ensures
        final(sys).forwarded(*old(sys), Call::Setreuid { ruid, euid }),
        ret == sentinel(final(sys).answer().result) as c_int,
{
    let result = sys.native_setreuid(ruid, euid);
    e(sys, result) as c_int
}

/// Waits for the child `pid`. The status that the kernel reports, 0 if it
/// reports none, goes to `stat_loc` if that is given, also where the wait
/// failed.
pub fn waitpid<K: Native>(
    sys: &mut Sys<K>,
    pid: pid_t,
    stat_loc: Option<&mut c_int>,
    options: c_int,
) -> (ret: pid_t)
    ensures
        final(sys).forwarded(
            *old(sys),
            Call::Waitpid { pid, status: 0, options: options as usize },
        ),
        ret == sentinel(final(sys).answer().result),
        match stat_loc {
            Some(loc) => *final(loc) == final(sys).answer().output.word() as c_int,
            None => true,
        },
{
    let mut status: usize = 0;
    let result = sys.native_waitpid(pid, &mut status, options as usize);
    let ret = e(sys, result);
    match stat_loc {
        Some(loc) => {
            *loc = status as c_int;
        },
        None => {},
    }
    ret
}

/// How far a walk over the environment got: the number of exchanges with
/// the kernel that it took, and the failure that ended it, if one did.
pub struct Stored {
    pub used: int,
    pub failure: Option<Error>,
}

/// The flags with which a variable of the environment scheme is opened.
pub open spec fn variable_flags() -> usize {
    O_WRONLY | O_CREAT
}

/// Whether the events from index `at` on are those of storing one
/// environment entry, and how far they go. An entry without `=` or without
/// a name takes no exchange. Any other entry has its variable opened under
/// the environment scheme; its value is written to the descriptor unless it
/// is empty; and the descriptor is closed. The first failure ends the walk:
/// after a failed write the descriptor stays open. `None` where the events
/// are not of this form.
pub open spec fn stores_variable(entry: Seq<u8>, events: Seq<Event>, at: int) -> Option<Stored> {
    if variable_of(entry) is None {
        Some(Stored { used: 0, failure: None })
    } else if !(at < events.len() && events[at].call == (Call::Open {
        path: variable_path(entry),
        flags: variable_flags(),
    })) {
        None
    } else {
        match events[at].result {
            Err(error) => Some(Stored { used: 1, failure: Some(error) }),
            Ok(fd) => {
                let value = variable_value(entry);
                if value.len() == 0 {
                    closes_variable(fd, events, at + 1, 2)
                } else if !(at + 1 < events.len() && events[at + 1].call == (Call::Write {
                    fd,
                    buf: value,
                })) {
                    None
                } else {
                    match events[at + 1].result {
                        Err(error) => Some(Stored { used: 2, failure: Some(error) }),
                        Ok(_) => closes_variable(fd, events, at + 2, 3),
                    }
                }
            },
        }
    }
}

/// The last step of storing an entry: the event at `at` closes `fd`, and
/// `used` exchanges were made with it.
pub open spec fn closes_variable(fd: usize, events: Seq<Event>, at: int, used: int) -> Option<
    Stored,
> {
    if !(at < events.len() && events[at].call == (Call::Close { fd })) {
        None
    } else {
        match events[at].result {
            Err(error) => Some(Stored { used, failure: Some(error) }),
            Ok(_) => Some(Stored { used, failure: None }),
        }
    }
}

/// Whether `events` begin with the exchanges of storing the entries of
/// `envp` one after the other, up to the first failure, and how far these
/// go.
pub open spec fn stores_environment(envp: Seq<Seq<u8>>, events: Seq<Event>) -> Option<Stored>
    decreases envp.len(),
{
    if envp.len() == 0 {
        Some(Stored { used: 0, failure: None })
    } else {
        match stores_environment(envp.drop_last(), events) {
            None => None,
            Some(before) => if before.failure is Some {
                Some(before)
            } else {
                match stores_variable(envp.last(), events, before.used) {
                    None => None,
                    Some(last) => Some(
                        Stored { used: before.used + last.used, failure: last.failure },
                    ),
                }
            },
        }
    }
}

/// What `execve` does. The environment is stored first, entry by entry; a
/// failure there is the result, and the program is not started. Then the
/// kernel is asked to run `path` with the arguments.
pub open spec fn executes(
    path: Seq<u8>,
    argv: Seq<Seq<u8>>,
    envp: Seq<Seq<u8>>,
    errno: c_int,
    added: Seq<Event>,
    ret: c_int,
    errno_after_all: c_int,
) -> bool {
    match stores_environment(envp, added) {
        None => false,
        Some(stored) => match stored.failure {
            Some(error) => {
                &&& added.len() == stored.used
                &&& ret == -1
                &&& errno_after_all == error.errno
            },
            None => {
                &&& added.len() == stored.used + 1
                &&& added[stored.used].call == (Call::Execve { path, args: argv })
                &&& ret == sentinel(added[stored.used].result) as c_int
                &&& errno_after_all == errno_after(errno, added[stored.used].result)
            },
        },
    }
}

/// Storing one entry looks only at the events that it takes: more events
/// behind them change nothing.
pub proof fn lemma_stores_variable_extends(
    entry: Seq<u8>,
    events: Seq<Event>,
    at: int,
    more: Seq<Event>,
)
    requires
        0 <= at,
        stores_variable(entry, events, at) is Some,
    ensures
        stores_variable(entry, events + more, at) == stores_variable(entry, events, at),
{
    let longer = events + more;
    assert(forall|i: int| 0 <= i < events.len() ==> longer[i] == events[i]);
}

/// Storing an environment looks only at the events that it takes: more
/// events behind them change nothing.
pub proof fn lemma_stores_environment_extends(
    envp: Seq<Seq<u8>>,
    events: Seq<Event>,
    more: Seq<Event>,
)
    requires
        stores_environment(envp, events) is Some,
    ensures
        stores_environment(envp, events + more) == stores_environment(envp, events),
        stores_environment(envp, events)->Some_0.used >= 0,
    decreases envp.len(),
{
    if envp.len() > 0 {
        lemma_stores_environment_extends(envp.drop_last(), events, more);
        let before = stores_environment(envp.drop_last(), events)->Some_0;
        if before.failure is None {
            lemma_stores_variable_extends(envp.last(), events, before.used, more);
        }
    }
}

/// Stores one environment entry and returns the failure that ended it, if
/// one did. `errno` is left alone.
pub fn store_variable<K: Native>(sys: &mut Sys<K>, entry: &[u8]) -> (failure: Option<Error>)
    ensures
        final(sys).continues(*old(sys)),
        final(sys).added(*old(sys)).len() == 0 ==> final(sys).held() == old(sys).held(),
        final(sys).errno() == old(sys).errno(),
        stores_variable(entry@, final(sys).added(*old(sys)), 0) == Some(
            Stored { used: final(sys).added(*old(sys)).len() as int, failure },
        ),
{
    let value_at = match variable(entry) {
        Some(value_at) => value_at,
        None => {
            assert(sys.added(*old(sys)) =~= Seq::<Event>::empty());
            return None;
        },
    };
    let mut path: Vec<u8> = Vec::new();
    path.push(101);
    path.push(110);
    path.push(118);
    path.push(58);
    let name = copy_range(entry, 0, value_at - 1);
    path.extend_from_slice(name.as_slice());
    assert(path@ =~= variable_path(entry@));
    let opened = sys.native_open(path.as_slice(), O_WRONLY | O_CREAT);
    let ghost first = sys.trace().last();
    let fd = match opened {
        Ok(fd) => fd,
        Err(error) => {
            assert(sys.added(*old(sys)) =~= seq![first]);
            return Some(error);
        },
    };
    if value_at < entry.len() {
        let value = copy_range(entry, value_at, entry.len());
        assert(value@ =~= variable_value(entry@));
        let written = sys.native_write(fd, value.as_slice());
        let ghost second = sys.trace().last();
        match written {
            Ok(_) => {},
            Err(error) => {
                assert(sys.added(*old(sys)) =~= seq![first, second]);
                return Some(error);
            },
        }
        let closed = sys.native_close(fd);
        assert(sys.added(*old(sys)) =~= seq![first, second, sys.trace().last()]);
        match closed {
            Ok(_) => None,
            Err(error) => Some(error),
        }
    } else {
        assert(variable_value(entry@).len() == 0);
        let closed = sys.native_close(fd);
        assert(sys.added(*old(sys)) =~= seq![first, sys.trace().last()]);
        match closed {
            Ok(_) => None,
            Err(error) => Some(error),
        }
    }
}

/// Replaces the process image with the program at `path`, after storing
/// `envp` in the environment scheme.
pub fn execve<K: Native>(sys: &mut Sys<K>, path: &[u8], argv: &[Vec<u8>], envp: &[Vec<u8>]) -> (ret:
    c_int)
    ensures
        final(sys).continues(*old(sys)),
        executes(
            path@,
            byte_strings(argv@),
            byte_strings(envp@),
            old(sys).errno(),
            final(sys).added(*old(sys)),
            ret,
            final(sys).errno(),
        ),
{
    let ghost entries = byte_strings(envp@);
    let mut i: usize = 0;
    assert(sys.added(*old(sys)) =~= Seq::<Event>::empty());
    assert(entries.take(0) =~= Seq::<Seq<u8>>::empty());
    while i < envp.len()
        invariant
            i <= envp.len(),
            entries == byte_strings(envp@),
            sys.continues(*old(sys)),
            sys.errno() == old(sys).errno(),
            stores_environment(entries.take(i as int), sys.added(*old(sys))) == Some(
                Stored { used: sys.added(*old(sys)).len() as int, failure: None },
            ),
        decreases envp.len() - i,
    {
        let ghost before = *sys;
        let ghost walked = sys.added(*old(sys));
        let failure = store_variable(sys, envp[i].as_slice());
        proof {
            let step = sys.added(before);
            let all = sys.added(*old(sys));
            assert(all =~= walked + step);
            lemma_stores_environment_extends(entries.take(i as int), walked, step);
            assert(entries.take(i + 1).drop_last() =~= entries.take(i as int));
            assert(entries.take(i + 1).last() == envp@[i as int]@);
            lemma_stores_variable_at(envp@[i as int]@, walked, step);
        }
        match failure {
            Some(error) => {
                proof {
                    lemma_stores_environment_fails(entries, i + 1, sys.added(*old(sys)));
                    crate::errno::lemma_all_ones();
                }
                return e(sys, Err(error)) as c_int;
            },
            None => {},
        }
        i += 1;
    }
    assert(entries.take(i as int) =~= entries);
    let ghost walked = sys.added(*old(sys));
    let result = sys.native_execve(path, argv);
    proof {
        let all = sys.added(*old(sys));
        assert(all =~= walked + seq![sys.trace().last()]);
        lemma_stores_environment_extends(entries, walked, seq![sys.trace().last()]);
    }
    e(sys, result) as c_int
}

/// What stores an entry from the first event on stores it from the index
/// `walked.len()` on when the events stand behind `walked`.
proof fn lemma_stores_variable_at(entry: Seq<u8>, walked: Seq<Event>, step: Seq<Event>)
    requires
        stores_variable(entry, step, 0) is Some,
    ensures
        stores_variable(entry, walked + step, walked.len() as int) == stores_variable(
            entry,
            step,
            0,
        ),
{
    let all = walked + step;
    assert(forall|i: int| 0 <= i < step.len() ==> all[walked.len() + i] == step[i]);
}

/// A walk that failed within the first `n` entries fails in the same way
/// on all entries.
proof fn lemma_stores_environment_fails(envp: Seq<Seq<u8>>, n: int, events: Seq<Event>)
    requires
        0 <= n <= envp.len(),
        stores_environment(envp.take(n), events) is Some,
        stores_environment(envp.take(n), events)->Some_0.failure is Some,
    ensures
        stores_environment(envp, events) == stores_environment(envp.take(n), events),
    decreases envp.len() - n,
{
    if n < envp.len() {
        assert(envp.take(n + 1).drop_last() =~= envp.take(n));
        lemma_stores_environment_fails(envp, n + 1, events);
    } else {
        assert(envp.take(n) =~= envp);
    }
}

/// The paths of the openings among `events`, in order.
pub open spec fn opened(events: Seq<Event>) -> Seq<Seq<u8>>
    decreases events.len(),
{
    if events.len() == 0 {
        Seq::empty()
    } else {
        match events.last().call {
            Call::Open { path, flags } => opened(events.drop_last()).push(path),
            _ => opened(events.drop_last()),
        }
    }
}

/// The paths of the variables that the well-formed entries of `envp` name,
/// in order.
pub open spec fn variables(envp: Seq<Seq<u8>>) -> Seq<Seq<u8>>
    decreases envp.len(),
{
    if envp.len() == 0 {
        Seq::empty()
    } else if variable_of(envp.last()) is Some {
        variables(envp.drop_last()).push(variable_path(envp.last()))
    } else {
        variables(envp.drop_last())
    }
}

/// Where storing an environment met no failure, exactly the variables of
/// its well-formed entries were opened, each once and in the order of the
/// entries; an entry without `=` or without a name opened nothing.
pub proof fn stored_environment_opens_its_variables(envp: Seq<Seq<u8>>, events: Seq<Event>)
    requires
        stores_environment(envp, events) is Some,
        stores_environment(envp, events)->Some_0.failure is None,
    ensures
        0 <= stores_environment(envp, events)->Some_0.used <= events.len(),
        opened(events.take(stores_environment(envp, events)->Some_0.used)) == variables(envp),
    decreases envp.len(),
{
    if envp.len() == 0 {
        assert(events.take(0) =~= Seq::<Event>::empty());
    } else {
        let before = stores_environment(envp.drop_last(), events)->Some_0;
        stored_environment_opens_its_variables(envp.drop_last(), events);
        let at = before.used;
        let last = stores_variable(envp.last(), events, at)->Some_0;
        if variable_of(envp.last()) is Some {
            lemma_opened_next(events, at);
            lemma_opened_next(events, at + 1);
            if last.used == 3 {
                lemma_opened_next(events, at + 2);
            }
        }
    }
}

/// The openings among the first `n + 1` events are those among the first
/// `n`, and the event at `n` if it is an opening.
proof fn lemma_opened_next(events: Seq<Event>, n: int)
    requires
        0 <= n < events.len(),
    ensures
        opened(events.take(n + 1)) == match events[n].call {
            Call::Open { path, flags } => opened(events.take(n)).push(path),
            _ => opened(events.take(n)),
        },
{
    assert(events.take(n + 1).drop_last() =~= events.take(n));
    assert(events.take(n + 1).last() == events[n]);
}

/// The descriptors that the openings among `events` gave, in order.
pub open spec fn descriptors(events: Seq<Event>) -> Seq<usize>
    decreases events.len(),
{
    if events.len() == 0 {
        Seq::empty()
    } else {
        match (events.last().call, events.last().result) {
            (Call::Open { path, flags }, Ok(fd)) => descriptors(events.drop_last()).push(fd),
            _ => descriptors(events.drop_last()),
        }
    }
}

/// The descriptors that the closings among `events` name, in order.
pub open spec fn closed(events: Seq<Event>) -> Seq<usize>
    decreases events.len(),
{
    if events.len() == 0 {
        Seq::empty()
    } else {
        match events.last().call {
            Call::Close { fd } => closed(events.drop_last()).push(fd),
            _ => closed(events.drop_last()),
        }
    }
}

/// Where storing an environment met no failure, every descriptor that was
/// opened was closed, once, before the next was opened: the closings name
/// the opened descriptors in the order in which they came.
pub proof fn stored_environment_closes_what_it_opens(envp: Seq<Seq<u8>>, events: Seq<Event>)
    requires
        stores_environment(envp, events) is Some,
        stores_environment(envp, events)->Some_0.failure is None,
    ensures
        0 <= stores_environment(envp, events)->Some_0.used <= events.len(),
        closed(events.take(stores_environment(envp, events)->Some_0.used)) == descriptors(
            events.take(stores_environment(envp, events)->Some_0.used),
        ),
    decreases envp.len(),
{
    if envp.len() == 0 {
        assert(events.take(0) =~= Seq::<Event>::empty());
    } else {
        let before = stores_environment(envp.drop_last(), events)->Some_0;
        stored_environment_closes_what_it_opens(envp.drop_last(), events);
        let at = before.used;
        let last = stores_variable(envp.last(), events, at)->Some_0;
        if variable_of(envp.last()) is Some {
            lemma_closed_next(events, at);
            lemma_closed_next(events, at + 1);
            if last.used == 3 {
                lemma_closed_next(events, at + 2);
            }
        }
    }
}

/// The closings and the opened descriptors among the first `n + 1` events
/// are those among the first `n`, and what the event at `n` adds.
proof fn lemma_closed_next(events: Seq<Event>, n: int)
    requires
        0 <= n < events.len(),
    ensures
        closed(events.take(n + 1)) == match events[n].call {
            Call::Close { fd } => closed(events.take(n)).push(fd),
            _ => closed(events.take(n)),
        },
        descriptors(events.take(n + 1)) == match (events[n].call, events[n].result) {
            (Call::Open { path, flags }, Ok(fd)) => descriptors(events.take(n)).push(fd),
            _ => descriptors(events.take(n)),
        },
{
    assert(events.take(n + 1).drop_last() =~= events.take(n));
    assert(events.take(n + 1).last() == events[n]);
}

} // verus!
