//! The native kernel interface and the record of what was asked of it.
//!
//! The kernel is reached through the trait [`Native`], one method for each
//! native call. Nothing is assumed of its answers: every function of this
//! library is proved for whatever the kernel replies. A [`Sys`] holds the
//! kernel together with the process-wide `errno` and a ghost record of every
//! call made and of its answer, in order. The contracts of the library speak
//! of that record.

use crate::abi::{c_int, Error, NativeStat, NativeTimeSpec};
use vstd::prelude::*;

verus! {

/// The native kernel: one method for each call that this library issues.
/// A method returns the kernel's success value or its error; where the call
/// hands data back, the method writes it through its `&mut` parameter.
pub trait Native {
    /// Moves the end of the data segment.
    fn brk(&mut self, addr: usize) -> Result<usize, Error>;

    /// Changes the working directory.
    fn chdir(&mut self, path: &[u8]) -> Result<usize, Error>;

    /// Duplicates the calling process.
    fn clone(&mut self, flags: usize) -> Result<usize, Error>;

    /// Closes a descriptor.
    fn close(&mut self, fd: usize) -> Result<usize, Error>;

    /// Reads a clock into `tp`.
    fn clock_gettime(&mut self, clock: usize, tp: &mut NativeTimeSpec) -> Result<usize, Error>;

    /// Duplicates a descriptor; the scheme behind it interprets `param`.
    fn dup(&mut self, fd: usize, param: &[u8]) -> Result<usize, Error>;

    /// Duplicates a descriptor onto the number `new_fd`.
    fn dup2(&mut self, fd: usize, new_fd: usize, param: &[u8]) -> Result<usize, Error>;

    /// Replaces the process image with the program at `path`.
    fn execve(&mut self, path: &[u8], args: &[Vec<u8>]) -> Result<usize, Error>;

    /// Ends the calling process.
    fn exit(&mut self, status: usize) -> Result<usize, Error>;

    /// Changes the mode of an open file.
    fn fchmod(&mut self, fd: usize, mode: u16) -> Result<usize, Error>;

    /// Changes the owner of an open file.
    fn fchown(&mut self, fd: usize, uid: u32, gid: u32) -> Result<usize, Error>;

    /// Manipulates a descriptor.
    fn fcntl(&mut self, fd: usize, cmd: usize, arg: usize) -> Result<usize, Error>;

    /// Writes the canonical path of a descriptor into `buf` and returns its length.
    fn fpath(&mut self, fd: usize, buf: &mut [u8]) -> Result<usize, Error>;

    /// Renames an open file.
    fn frename(&mut self, fd: usize, path: &[u8]) -> Result<usize, Error>;

    /// Writes the status of an open file into `stat`.
    fn fstat(&mut self, fd: usize, stat: &mut NativeStat) -> Result<usize, Error>;

    /// Flushes an open file.
    fn fsync(&mut self, fd: usize) -> Result<usize, Error>;

    /// Cuts or extends an open file to `len` bytes.
    fn ftruncate(&mut self, fd: usize, len: usize) -> Result<usize, Error>;

    /// Writes the working directory into `buf` and returns its length.
    fn getcwd(&mut self, buf: &mut [u8]) -> Result<usize, Error>;

    /// The effective group id.
    fn getegid(&mut self) -> Result<usize, Error>;

    /// The effective user id.
    fn geteuid(&mut self) -> Result<usize, Error>;

    /// The real group id.
    fn getgid(&mut self) -> Result<usize, Error>;

    /// The process group of `pid`.
    fn getpgid(&mut self, pid: usize) -> Result<usize, Error>;

    /// The id of the calling process.
    fn getpid(&mut self) -> Result<usize, Error>;

    /// The id of the parent process.
    fn getppid(&mut self) -> Result<usize, Error>;

    /// The real user id.
    fn getuid(&mut self) -> Result<usize, Error>;

    /// Sends a signal.
    fn kill(&mut self, pid: usize, sig: usize) -> Result<usize, Error>;

    /// Creates a hard link.
    fn link(&mut self, old_path: &[u8], new_path: &[u8]) -> Result<usize, Error>;

    /// Moves the position of an open file.
    fn lseek(&mut self, fd: usize, offset: isize, whence: usize) -> Result<usize, Error>;

    /// Sleeps for `req`; writes what is left of an interrupted sleep into `rem`.
    fn nanosleep(&mut self, req: &NativeTimeSpec, rem: &mut NativeTimeSpec) -> Result<usize, Error>;

    /// Opens a path.
    fn open(&mut self, path: &[u8], flags: usize) -> Result<usize, Error>;

    /// Creates a pipe and writes its two descriptors into `fds`.
    fn pipe2(&mut self, fds: &mut [usize; 2], flags: usize) -> Result<usize, Error>;

    /// Reads from a descriptor into `buf` and returns the number of bytes.
    fn read(&mut self, fd: usize, buf: &mut [u8]) -> Result<usize, Error>;

    /// Removes a directory.
    fn rmdir(&mut self, path: &[u8]) -> Result<usize, Error>;

    /// Sets the process group of `pid`.
    fn setpgid(&mut self, pid: usize, pgid: usize) -> Result<usize, Error>;

    /// Sets the real and effective group ids.
    fn setregid(&mut self, rgid: usize, egid: usize) -> Result<usize, Error>;

    /// Sets the real and effective user ids.
    fn setreuid(&mut self, ruid: usize, euid: usize) -> Result<usize, Error>;

    /// Removes a file.
    fn unlink(&mut self, path: &[u8]) -> Result<usize, Error>;

    /// Waits for a child and writes its status into `status`.
    fn waitpid(&mut self, pid: usize, status: &mut usize, options: usize) -> Result<usize, Error>;

    /// Writes `buf` to a descriptor and returns the number of bytes.
    fn write(&mut self, fd: usize, buf: &[u8]) -> Result<usize, Error>;
}

/// A native call with its arguments. A buffer or a record that the kernel
/// writes to appears with the contents it had when the call was made.
pub enum Call {
    Brk { addr: usize },
    Chdir { path: Seq<u8> },
    Clone { flags: usize },
    Close { fd: usize },
    ClockGettime { clock: usize, tp: NativeTimeSpec },
    Dup { fd: usize, param: Seq<u8> },
    Dup2 { fd: usize, new_fd: usize, param: Seq<u8> },
    Execve { path: Seq<u8>, args: Seq<Seq<u8>> },
    Exit { status: usize },
    Fchmod { fd: usize, mode: u16 },
    Fchown { fd: usize, uid: u32, gid: u32 },
    Fcntl { fd: usize, cmd: usize, arg: usize },
    Fpath { fd: usize, buf: Seq<u8> },
    Frename { fd: usize, path: Seq<u8> },
    Fstat { fd: usize, stat: NativeStat },
    Fsync { fd: usize },
    Ftruncate { fd: usize, len: usize },
    Getcwd { buf: Seq<u8> },
    Getegid,
    Geteuid,
    Getgid,
    Getpgid { pid: usize },
    Getpid,
    Getppid,
    Getuid,
    Kill { pid: usize, sig: usize },
    Link { old_path: Seq<u8>, new_path: Seq<u8> },
    Lseek { fd: usize, offset: isize, whence: usize },
    Nanosleep { req: NativeTimeSpec, rem: NativeTimeSpec },
    Open { path: Seq<u8>, flags: usize },
    Pipe2 { fds: (usize, usize), flags: usize },
    Read { fd: usize, buf: Seq<u8> },
    Rmdir { path: Seq<u8> },
    Setpgid { pid: usize, pgid: usize },
    Setregid { rgid: usize, egid: usize },
    Setreuid { ruid: usize, euid: usize },
    Unlink { path: Seq<u8> },
    Waitpid { pid: usize, status: usize, options: usize },
    Write { fd: usize, buf: Seq<u8> },
}

/// What a native call wrote through its `&mut` parameter, as it stood when
/// the call returned.
pub enum Output {
    Nothing,
    Bytes(Seq<u8>),
    Stat(NativeStat),
    Time(NativeTimeSpec),
    Word(usize),
    Pair(usize, usize),
}

impl Output {
    /// The bytes written; none if the call writes no bytes.
    pub open spec fn bytes(self) -> Seq<u8> {
        match self {
            Output::Bytes(bytes) => bytes,
            _ => Seq::empty(),
        }
    }

    /// The status record written; all zero if the call writes none.
    pub open spec fn stat(self) -> NativeStat {
        match self {
            Output::Stat(stat) => stat,
            _ => NativeStat::zero(),
        }
    }

    /// The time value written; zero if the call writes none.
    pub open spec fn time(self) -> NativeTimeSpec {
        match self {
            Output::Time(time) => time,
            _ => NativeTimeSpec::zero(),
        }
    }

    /// The word written; zero if the call writes none.
    pub open spec fn word(self) -> usize {
        match self {
            Output::Word(word) => word,
            _ => 0,
        }
    }

    /// The two words written; zeros if the call writes none.
    pub open spec fn pair(self) -> (usize, usize) {
        match self {
            Output::Pair(first, second) => (first, second),
            _ => (0, 0),
        }
    }
}

/// One exchange with the kernel: the call, its result and what it wrote.
pub struct Event {
    pub call: Call,
    pub result: Result<usize, Error>,
    pub output: Output,
}

/// `n` zero bytes: a buffer as it is handed to the kernel to be filled.
pub open spec fn zeros(n: nat) -> Seq<u8> {
    Seq::new(n, |i: int| 0u8)
}

/// The byte strings that a list of vectors holds.
pub open spec fn byte_strings(items: Seq<Vec<u8>>) -> Seq<Seq<u8>> {
    Seq::new(items.len(), |i: int| items[i]@)
}

/// The kernel, the process-wide `errno`, and the record of all exchanges
/// with the kernel so far. The kernel and the record are private: the kernel
/// is asked, and the record written, by the methods of this module alone,
/// each of which does both.
pub struct Sys<K: Native> {
    kernel: K,
    errno: c_int,
    trace: Ghost<Seq<Event>>,
}

impl<K: Native> Sys<K> {
    /// The record of all exchanges with the kernel so far, oldest first.
    pub closed spec fn trace(self) -> Seq<Event> {
        self.trace@
    }

    /// The process-wide `errno` as it stands.
    pub closed spec fn errno(self) -> c_int {
        self.errno
    }

    /// The kernel as it stands.
    pub closed spec fn held(self) -> K {
        self.kernel
    }

    /// A fresh session: nothing was asked of the kernel yet, `errno` is 0.
    pub fn new(kernel: K) -> (sys: Self)
        ensures
            sys.held() == kernel,
            sys.errno() == 0,
            sys.trace() == Seq::<Event>::empty(),
    {
        Sys { kernel, errno: 0, trace: Ghost(Seq::empty()) }
    }

    /// The kernel, to look at.
    pub fn kernel(&self) -> (kernel: &K)
        ensures
            *kernel == self.held(),
    {
        &self.kernel
    }

    /// The value of `errno`.
    pub fn get_errno(&self) -> (code: c_int)
        ensures
            code == self.errno(),
    {
        self.errno
    }

    /// Stores `code` in `errno`. The kernel is not asked anything.
    pub fn set_errno(&mut self, code: c_int)
        ensures
            final(self).errno() == code,
            final(self).trace() == old(self).trace(),
            final(self).held() == old(self).held(),
    {
        self.errno = code;
    }

    /// The events recorded after the state `before` was taken.
    pub open spec fn added(self, before: Self) -> Seq<Event> {
        self.trace().skip(before.trace().len() as int)
    }

    /// The record only grows: what `before` held is still there, in place.
    pub open spec fn continues(self, before: Self) -> bool {
        self.trace() =~= before.trace() + self.added(before)
    }

    /// The answer to the latest call.
    pub open spec fn answer(self) -> Event {
        self.trace().last()
    }

    /// Exactly one call was made since `before`, with the result `result`
    /// and the output `output`, and `errno` was left alone.
    pub open spec fn asked(
        self,
        before: Self,
        call: Call,
        result: Result<usize, Error>,
        output: Output,
    ) -> bool {
        &&& self.trace() == before.trace().push(Event { call, result, output })
        &&& self.errno() == before.errno()
    }

    /// Exactly one call was made since `before`, namely `call`, and its
    /// failure, if it failed, went to `errno`.
    pub open spec fn forwarded(self, before: Self, call: Call) -> bool {
        &&& self.trace() == before.trace().push(self.answer())
        &&& self.answer().call == call
        &&& self.errno() == errno_after(before.errno(), self.answer().result)
    }

    /// Nothing was asked of the kernel since `before`.
    pub open spec fn silent(self, before: Self) -> bool {
        self.trace() == before.trace()
    }

    fn record(
        &mut self,
        Ghost(call): Ghost<Call>,
        result: &Result<usize, Error>,
        Ghost(output): Ghost<Output>,
    )
        ensures
            final(self).asked(*old(self), call, *result, output),
            final(self).held() == old(self).held(),
    {
        proof {
            self.trace@ = self.trace@.push(Event { call, result: *result, output });
        }
    }

    pub(crate) fn native_brk(&mut self, addr: usize) -> (result: Result<usize, Error>)
        ensures
            final(self).asked(
                *old(self),
                Call::Brk { addr },
                result,
                Output::Nothing,
            ),
    {
        let ghost call = Call::Brk { addr };
        let result = self.kernel.brk(addr);
        self.record(Ghost(call), &result, Ghost(Output::Nothing));
        result
    }

    pub(crate) fn native_chdir(&mut self, path: &[u8]) -> (result: Result<usize, Error>)
        ensures
            final(self).asked(
                *old(self),
                Call::Chdir { path: path@ },
                result,
                Output::Nothing,
            ),
    {
        let ghost call = Call::Chdir { path: path@ };
        let result = self.kernel.chdir(path);
        self.record(Ghost(call), &result, Ghost(Output::Nothing));
        result
    }

    pub(crate) fn native_clone(&mut self, flags: usize) -> (result: Result<usize, Error>)
        ensures
            final(self).asked(
                *old(self),
                Call::Clone { flags },
                result,
                Output::Nothing,
            ),
    {
        let ghost call = Call::Clone { flags };
        let result = self.kernel.clone(flags);
        self.record(Ghost(call), &result, Ghost(Output::Nothing));
        result
    }

    pub(crate) fn native_close(&mut self, fd: usize) -> (result: Result<usize, Error>)
        ensures
            final(self).asked(
                *old(self),
                Call::Close { fd },
                result,
                Output::Nothing,
            ),
    {
        let ghost call = Call::Close { fd };
        let result = self.kernel.close(fd);
        self.record(Ghost(call), &result, Ghost(Output::Nothing));
        result
    }

    pub(crate) fn native_clock_gettime(&mut self, clock: usize, tp: &mut NativeTimeSpec) -> (result: Result<usize, Error>)
        ensures
            final(self).asked(
                *old(self),
                Call::ClockGettime { clock, tp: *old(tp) },
                result,
                Output::Time(*final(tp)),
            ),
    {
        let ghost call = Call::ClockGettime { clock, tp: *tp };
        let result = self.kernel.clock_gettime(clock, tp);
        self.record(Ghost(call), &result, Ghost(Output::Time(*tp)));
        result
    }

    pub(crate) fn native_dup(&mut self, fd: usize, param: &[u8]) -> (result: Result<usize, Error>)
        ensures
            final(self).asked(
                *old(self),
                Call::Dup { fd, param: param@ },
                result,
                Output::Nothing,
            ),
    {
        let ghost call = Call::Dup { fd, param: param@ };
        let result = self.kernel.dup(fd, param);
        self.record(Ghost(call), &result, Ghost(Output::Nothing));
        result
    }

    pub(crate) fn native_dup2(&mut self, fd: usize, new_fd: usize, param: &[u8]) -> (result: Result<usize, Error>)
        ensures
            final(self).asked(
                *old(self),
                Call::Dup2 { fd, new_fd, param: param@ },
                result,
                Output::Nothing,
            ),
    {
        let ghost call = Call::Dup2 { fd, new_fd, param: param@ };
        let result = self.kernel.dup2(fd, new_fd, param);
        self.record(Ghost(call), &result, Ghost(Output::Nothing));
        result
    }

    pub(crate) fn native_execve(&mut self, path: &[u8], args: &[Vec<u8>]) -> (result: Result<usize, Error>)
        ensures
            final(self).asked(
                *old(self),
                Call::Execve { path: path@, args: byte_strings(args@) },
                result,
                Output::Nothing,
            ),
    {
        let ghost call = Call::Execve { path: path@, args: byte_strings(args@) };
        let result = self.kernel.execve(path, args);
        self.record(Ghost(call), &result, Ghost(Output::Nothing));
        result
    }

    pub(crate) fn native_exit(&mut self, status: usize) -> (result: Result<usize, Error>)
        ensures
            final(self).asked(
                *old(self),
                Call::Exit { status },
                result,
                Output::Nothing,
            ),
    {
        let ghost call = Call::Exit { status };
        let result = self.kernel.exit(status);
        self.record(Ghost(call), &result, Ghost(Output::Nothing));
        result
    }

    pub(crate) fn native_fchmod(&mut self, fd: usize, mode: u16) -> (result: Result<usize, Error>)
        ensures
            final(self).asked(
                *old(self),
                Call::Fchmod { fd, mode },
                result,
                Output::Nothing,
            ),
    {
        let ghost call = Call::Fchmod { fd, mode };
        let result = self.kernel.fchmod(fd, mode);
        self.record(Ghost(call), &result, Ghost(Output::Nothing));
        result
    }

    pub(crate) fn native_fchown(&mut self, fd: usize, uid: u32, gid: u32) -> (result: Result<usize, Error>)
        ensures
            final(self).asked(
                *old(self),
                Call::Fchown { fd, uid, gid },
                result,
                Output::Nothing,
            ),
    {
        let ghost call = Call::Fchown { fd, uid, gid };
        let result = self.kernel.fchown(fd, uid, gid);
        self.record(Ghost(call), &result, Ghost(Output::Nothing));
        result
    }

    pub(crate) fn native_fcntl(&mut self, fd: usize, cmd: usize, arg: usize) -> (result: Result<usize, Error>)
        ensures
            final(self).asked(
                *old(self),
                Call::Fcntl { fd, cmd, arg },
                result,
                Output::Nothing,
            ),
    {
        let ghost call = Call::Fcntl { fd, cmd, arg };
        let result = self.kernel.fcntl(fd, cmd, arg);
        self.record(Ghost(call), &result, Ghost(Output::Nothing));
        result
    }

    pub(crate) fn native_fpath(&mut self, fd: usize, buf: &mut [u8]) -> (result: Result<usize, Error>)
        ensures
            final(self).asked(
                *old(self),
                Call::Fpath { fd, buf: old(buf)@ },
                result,
                Output::Bytes(final(buf)@),
            ),
    {
        let ghost call = Call::Fpath { fd, buf: buf@ };
        let result = self.kernel.fpath(fd, buf);
        self.record(Ghost(call), &result, Ghost(Output::Bytes(buf@)));
        result
    }

    pub(crate) fn native_frename(&mut self, fd: usize, path: &[u8]) -> (result: Result<usize, Error>)
        ensures
            final(self).asked(
                *old(self),
                Call::Frename { fd, path: path@ },
                result,
                Output::Nothing,
            ),
    {
        let ghost call = Call::Frename { fd, path: path@ };
        let result = self.kernel.frename(fd, path);
        self.record(Ghost(call), &result, Ghost(Output::Nothing));
        result
    }

    pub(crate) fn native_fstat(&mut self, fd: usize, stat: &mut NativeStat) -> (result: Result<usize, Error>)
        ensures
            final(self).asked(
                *old(self),
                Call::Fstat { fd, stat: *old(stat) },
                result,
                Output::Stat(*final(stat)),
            ),
    {
        let ghost call = Call::Fstat { fd, stat: *stat };
        let result = self.kernel.fstat(fd, stat);
        self.record(Ghost(call), &result, Ghost(Output::Stat(*stat)));
        result
    }

    pub(crate) fn native_fsync(&mut self, fd: usize) -> (result: Result<usize, Error>)
        ensures
            final(self).asked(
                *old(self),
                Call::Fsync { fd },
                result,
                Output::Nothing,
            ),
    {
        let ghost call = Call::Fsync { fd };
        let result = self.kernel.fsync(fd);
        self.record(Ghost(call), &result, Ghost(Output::Nothing));
        result
    }

    pub(crate) fn native_ftruncate(&mut self, fd: usize, len: usize) -> (result: Result<usize, Error>)
        ensures
            final(self).asked(
                *old(self),
                Call::Ftruncate { fd, len },
                result,
                Output::Nothing,
            ),
    {
        let ghost call = Call::Ftruncate { fd, len };
        let result = self.kernel.ftruncate(fd, len);
        self.record(Ghost(call), &result, Ghost(Output::Nothing));
        result
    }

    pub(crate) fn native_getcwd(&mut self, buf: &mut [u8]) -> (result: Result<usize, Error>)
        ensures
            final(self).asked(
                *old(self),
                Call::Getcwd { buf: old(buf)@ },
                result,
                Output::Bytes(final(buf)@),
            ),
    {
        let ghost call = Call::Getcwd { buf: buf@ };
        let result = self.kernel.getcwd(buf);
        self.record(Ghost(call), &result, Ghost(Output::Bytes(buf@)));
        result
    }

    pub(crate) fn native_getegid(&mut self) -> (result: Result<usize, Error>)
        ensures
            final(self).asked(
                *old(self),
                Call::Getegid,
                result,
                Output::Nothing,
            ),
    {
        let ghost call = Call::Getegid;
        let result = self.kernel.getegid();
        self.record(Ghost(call), &result, Ghost(Output::Nothing));
        result
    }

    pub(crate) fn native_geteuid(&mut self) -> (result: Result<usize, Error>)
        ensures
            final(self).asked(
                *old(self),
                Call::Geteuid,
                result,
                Output::Nothing,
            ),
    {
        let ghost call = Call::Geteuid;
        let result = self.kernel.geteuid();
        self.record(Ghost(call), &result, Ghost(Output::Nothing));
        result
    }

    pub(crate) fn native_getgid(&mut self) -> (result: Result<usize, Error>)
        ensures
            final(self).asked(
                *old(self),
                Call::Getgid,
                result,
                Output::Nothing,
            ),
    {
        let ghost call = Call::Getgid;
        let result = self.kernel.getgid();
        self.record(Ghost(call), &result, Ghost(Output::Nothing));
        result
    }

    pub(crate) fn native_getpgid(&mut self, pid: usize) -> (result: Result<usize, Error>)
        ensures
            final(self).asked(
                *old(self),
                Call::Getpgid { pid },
                result,
                Output::Nothing,
            ),
    {
        let ghost call = Call::Getpgid { pid };
        let result = self.kernel.getpgid(pid);
        self.record(Ghost(call), &result, Ghost(Output::Nothing));
        result
    }

    pub(crate) fn native_getpid(&mut self) -> (result: Result<usize, Error>)
        ensures
            final(self).asked(
                *old(self),
                Call::Getpid,
                result,
                Output::Nothing,
            ),
    {
        let ghost call = Call::Getpid;
        let result = self.kernel.getpid();
        self.record(Ghost(call), &result, Ghost(Output::Nothing));
        result
    }

    pub(crate) fn native_getppid(&mut self) -> (result: Result<usize, Error>)
        ensures
            final(self).asked(
                *old(self),
                Call::Getppid,
                result,
                Output::Nothing,
            ),
    {
        let ghost call = Call::Getppid;
        let result = self.kernel.getppid();
        self.record(Ghost(call), &result, Ghost(Output::Nothing));
        result
    }

    pub(crate) fn native_getuid(&mut self) -> (result: Result<usize, Error>)
        ensures
            final(self).asked(
                *old(self),
                Call::Getuid,
                result,
                Output::Nothing,
            ),
    {
        let ghost call = Call::Getuid;
        let result = self.kernel.getuid();
        self.record(Ghost(call), &result, Ghost(Output::Nothing));
        result
    }

    pub(crate) fn native_kill(&mut self, pid: usize, sig: usize) -> (result: Result<usize, Error>)
        ensures
            final(self).asked(
                *old(self),
                Call::Kill { pid, sig },
                result,
                Output::Nothing,
            ),
    {
        let ghost call = Call::Kill { pid, sig };
        let result = self.kernel.kill(pid, sig);
        self.record(Ghost(call), &result, Ghost(Output::Nothing));
        result
    }

    pub(crate) fn native_link(&mut self, old_path: &[u8], new_path: &[u8]) -> (result: Result<usize, Error>)
        ensures
            final(self).asked(
                *old(self),
                Call::Link { old_path: old_path@, new_path: new_path@ },
                result,
                Output::Nothing,
            ),
    {
        let ghost call = Call::Link { old_path: old_path@, new_path: new_path@ };
        let result = self.kernel.link(old_path, new_path);
        self.record(Ghost(call), &result, Ghost(Output::Nothing));
        result
    }

    pub(crate) fn native_lseek(&mut self, fd: usize, offset: isize, whence: usize) -> (result: Result<usize, Error>)
        ensures
            final(self).asked(
                *old(self),
                Call::Lseek { fd, offset, whence },
                result,
                Output::Nothing,
            ),
    {
        let ghost call = Call::Lseek { fd, offset, whence };
        let result = self.kernel.lseek(fd, offset, whence);
        self.record(Ghost(call), &result, Ghost(Output::Nothing));
        result
    }

    pub(crate) fn native_nanosleep(&mut self, req: &NativeTimeSpec, rem: &mut NativeTimeSpec) -> (result: Result<usize, Error>)
        ensures
            final(self).asked(
                *old(self),
                Call::Nanosleep { req: *req, rem: *old(rem) },
                result,
                Output::Time(*final(rem)),
            ),
    {
        let ghost call = Call::Nanosleep { req: *req, rem: *rem };
        let result = self.kernel.nanosleep(req, rem);
        self.record(Ghost(call), &result, Ghost(Output::Time(*rem)));
        result
    }

    pub(crate) fn native_open(&mut self, path: &[u8], flags: usize) -> (result: Result<usize, Error>)
        ensures
            final(self).asked(
                *old(self),
                Call::Open { path: path@, flags },
                result,
                Output::Nothing,
            ),
    {
        let ghost call = Call::Open { path: path@, flags };
        let result = self.kernel.open(path, flags);
        self.record(Ghost(call), &result, Ghost(Output::Nothing));
        result
    }

    pub(crate) fn native_pipe2(&mut self, fds: &mut [usize; 2], flags: usize) -> (result: Result<usize, Error>)
        ensures
            final(self).asked(
                *old(self),
                Call::Pipe2 { fds: (old(fds)@[0], old(fds)@[1]), flags },
                result,
                Output::Pair(final(fds)@[0], final(fds)@[1]),
            ),
    {
        let ghost call = Call::Pipe2 { fds: (fds@[0], fds@[1]), flags };
        let result = self.kernel.pipe2(fds, flags);
        self.record(Ghost(call), &result, Ghost(Output::Pair(fds@[0], fds@[1])));
        result
    }

    pub(crate) fn native_read(&mut self, fd: usize, buf: &mut [u8]) -> (result: Result<usize, Error>)
        ensures
            final(self).asked(
                *old(self),
                Call::Read { fd, buf: old(buf)@ },
                result,
                Output::Bytes(final(buf)@),
            ),
    {
        let ghost call = Call::Read { fd, buf: buf@ };
        let result = self.kernel.read(fd, buf);
        self.record(Ghost(call), &result, Ghost(Output::Bytes(buf@)));
        result
    }

    pub(crate) fn native_rmdir(&mut self, path: &[u8]) -> (result: Result<usize, Error>)
        ensures
            final(self).asked(
                *old(self),
                Call::Rmdir { path: path@ },
                result,
                Output::Nothing,
            ),
    {
        let ghost call = Call::Rmdir { path: path@ };
        let result = self.kernel.rmdir(path);
        self.record(Ghost(call), &result, Ghost(Output::Nothing));
        result
    }

    pub(crate) fn native_setpgid(&mut self, pid: usize, pgid: usize) -> (result: Result<usize, Error>)
        ensures
            final(self).asked(
                *old(self),
                Call::Setpgid { pid, pgid },
                result,
                Output::Nothing,
            ),
    {
        let ghost call = Call::Setpgid { pid, pgid };
        let result = self.kernel.setpgid(pid, pgid);
        self.record(Ghost(call), &result, Ghost(Output::Nothing));
        result
    }

    pub(crate) fn native_setregid(&mut self, rgid: usize, egid: usize) -> (result: Result<usize, Error>)
        ensures
            final(self).asked(
                *old(self),
                Call::Setregid { rgid, egid },
                result,
                Output::Nothing,
            ),
    {
        let ghost call = Call::Setregid { rgid, egid };
        let result = self.kernel.setregid(rgid, egid);
        self.record(Ghost(call), &result, Ghost(Output::Nothing));
        result
    }

    pub(crate) fn native_setreuid(&mut self, ruid: usize, euid: usize) -> (result: Result<usize, Error>)
        ensures
            final(self).asked(
                *old(self),
                Call::Setreuid { ruid, euid },
                result,
                Output::Nothing,
            ),
    {
        let ghost call = Call::Setreuid { ruid, euid };
        let result = self.kernel.setreuid(ruid, euid);
        self.record(Ghost(call), &result, Ghost(Output::Nothing));
        result
    }

    pub(crate) fn native_unlink(&mut self, path: &[u8]) -> (result: Result<usize, Error>)
        ensures
            final(self).asked(
                *old(self),
                Call::Unlink { path: path@ },
                result,
                Output::Nothing,
            ),
    {
        let ghost call = Call::Unlink { path: path@ };
        let result = self.kernel.unlink(path);
        self.record(Ghost(call), &result, Ghost(Output::Nothing));
        result
    }

    pub(crate) fn native_waitpid(&mut self, pid: usize, status: &mut usize, options: usize) -> (result: Result<usize, Error>)
        ensures
            final(self).asked(
                *old(self),
                Call::Waitpid { pid, status: *old(status), options },
                result,
                Output::Word(*final(status)),
            ),
    {
        let ghost call = Call::Waitpid { pid, status: *status, options };
        let result = self.kernel.waitpid(pid, status, options);
        self.record(Ghost(call), &result, Ghost(Output::Word(*status)));
        result
    }

    pub(crate) fn native_write(&mut self, fd: usize, buf: &[u8]) -> (result: Result<usize, Error>)
        ensures
            final(self).asked(
                *old(self),
                Call::Write { fd, buf: buf@ },
                result,
                Output::Nothing,
            ),
    {
        let ghost call = Call::Write { fd, buf: buf@ };
        let result = self.kernel.write(fd, buf);
        self.record(Ghost(call), &result, Ghost(Output::Nothing));
        result
    }
}

/// What a native result becomes as a number: the success value, or all ones
/// for a failure.
pub open spec fn sentinel(result: Result<usize, Error>) -> usize {
    match result {
        Ok(value) => value,
        Err(_) => usize::MAX,
    }
}

/// `errno` after a native result was converted: a failure stores its code,
/// a success leaves `errno` as it was.
pub open spec fn errno_after(errno: c_int, result: Result<usize, Error>) -> c_int {
    match result {
        Ok(_) => errno,
        Err(error) => error.errno,
    }
}

} // verus!
