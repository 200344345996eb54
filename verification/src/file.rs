//! Files, directories and descriptors.

use crate::abi::{
    blksize_t, c_int, dev_t, gid_t, ino_t, mode_t, nlink_t, off_t, ssize_t, time_t, uid_t,
    NativeStat, Stat, MODE_FIFO, O_CLOEXEC, O_CREAT, O_DIRECTORY, O_EXCL, O_NOFOLLOW, O_RDONLY,
    O_WRONLY,
};
use crate::errno::e;
use crate::native::{errno_after, sentinel, zeros, Call, Event, Native, Sys};
use vstd::prelude::*;

verus! {

/// Size of the buffer that receives a directory's path.
pub const PATH_BUFFER_LEN: usize = 4096;

/// Changes the working directory to `path`.
pub fn chdir<K: Native>(sys: &mut Sys<K>, path: &[u8]) -> (ret: c_int)
    ensures
        final(sys).forwarded(*old(sys), Call::Chdir { path: path@ }),
        ret == sentinel(final(sys).answer().result) as c_int,
{
    let result = sys.native_chdir(path);
    e(sys, result) as c_int
}

/// Closes the descriptor `fd`.
pub fn close<K: Native>(sys: &mut Sys<K>, fd: c_int) -> (ret: c_int)
    ensures
        final(sys).forwarded(*old(sys), Call::Close { fd: fd as usize }),
        ret == sentinel(final(sys).answer().result) as c_int,
{
    let result = sys.native_close(fd as usize);
    e(sys, result) as c_int
}

/// Duplicates the descriptor `fd`.
pub fn dup<K: Native>(sys: &mut Sys<K>, fd: c_int) -> (ret: c_int)
    ensures
        final(sys).forwarded(*old(sys), Call::Dup { fd: fd as usize, param: Seq::<u8>::empty() }),
        ret == sentinel(final(sys).answer().result) as c_int,
{
    let none: Vec<u8> = Vec::new();
    let result = sys.native_dup(fd as usize, none.as_slice());
    assert(none@ =~= Seq::<u8>::empty());
    e(sys, result) as c_int
}

/// Duplicates the descriptor `fd1` onto the number `fd2`.
pub fn dup2<K: Native>(sys: &mut Sys<K>, fd1: c_int, fd2: c_int) -> (ret: c_int)
    ensures
        final(sys).forwarded(
            *old(sys),
            Call::Dup2 { fd: fd1 as usize, new_fd: fd2 as usize, param: Seq::<u8>::empty() },
        ),
        ret == sentinel(final(sys).answer().result) as c_int,
{
    let none: Vec<u8> = Vec::new();
    let result = sys.native_dup2(fd1 as usize, fd2 as usize, none.as_slice());
    assert(none@ =~= Seq::<u8>::empty());
    e(sys, result) as c_int
}

/// Changes the mode of the open file `fd`.
pub fn fchmod<K: Native>(sys: &mut Sys<K>, fd: c_int, mode: mode_t) -> (ret: c_int)
    ensures
        final(sys).forwarded(*old(sys), Call::Fchmod { fd: fd as usize, mode }),
        ret == sentinel(final(sys).answer().result) as c_int,
{
    let result = sys.native_fchmod(fd as usize, mode);
    e(sys, result) as c_int
}

/// Changes the owner of the open file `fd`. The kernel takes the two ids at
/// 32 bits.
pub fn fchown<K: Native>(sys: &mut Sys<K>, fd: c_int, owner: uid_t, group: gid_t) -> (ret: c_int)
    ensures
        final(sys).forwarded(
            *old(sys),
            Call::Fchown { fd: fd as usize, uid: owner as u32, gid: group as u32 },
        ),
        ret == sentinel(final(sys).answer().result) as c_int,
{
    let result = sys.native_fchown(fd as usize, owner as u32, group as u32);
    e(sys, result) as c_int
}

/// Manipulates the descriptor `fd`.
pub fn fcntl<K: Native>(sys: &mut Sys<K>, fd: c_int, cmd: c_int, args: c_int) -> (ret: c_int)
    ensures
        final(sys).forwarded(
            *old(sys),
            Call::Fcntl { fd: fd as usize, cmd: cmd as usize, arg: args as usize },
        ),
        ret == sentinel(final(sys).answer().result) as c_int,
{
    let result = sys.native_fcntl(fd as usize, cmd as usize, args as usize);
    e(sys, result) as c_int
}

/// Flushes the open file `fd`.
pub fn fsync<K: Native>(sys: &mut Sys<K>, fd: c_int) -> (ret: c_int)
    ensures
        final(sys).forwarded(*old(sys), Call::Fsync { fd: fd as usize }),
        ret == sentinel(final(sys).answer().result) as c_int,
{
    let result = sys.native_fsync(fd as usize);
    e(sys, result) as c_int
}

/// Cuts or extends the open file `fd` to `len` bytes.
pub fn ftruncate<K: Native>(sys: &mut Sys<K>, fd: c_int, len: off_t) -> (ret: c_int)
    ensures
        final(sys).forwarded(*old(sys), Call::Ftruncate { fd: fd as usize, len: len as usize }),
        ret == sentinel(final(sys).answer().result) as c_int,
{
    let result = sys.native_ftruncate(fd as usize, len as usize);
    e(sys, result) as c_int
}

/// Creates the hard link `path2` to `path1`.
pub fn link<K: Native>(sys: &mut Sys<K>, path1: &[u8], path2: &[u8]) -> (ret: c_int)
    ensures
        final(sys).forwarded(*old(sys), Call::Link { old_path: path1@, new_path: path2@ }),
        ret == sentinel(final(sys).answer().result) as c_int,
{
    let result = sys.native_link(path1, path2);
    e(sys, result) as c_int
}

/// Moves the position of the open file `fd` and returns the new position.
pub fn lseek<K: Native>(sys: &mut Sys<K>, fd: c_int, offset: off_t, whence: c_int) -> (ret: off_t)
    ensures
        final(sys).forwarded(
            *old(sys),
            Call::Lseek { fd: fd as usize, offset: offset as isize, whence: whence as usize },
        ),
        ret == sentinel(final(sys).answer().result) as off_t,
{
    let result = sys.native_lseek(fd as usize, offset as isize, whence as usize);
    e(sys, result) as off_t
}

/// Opens `path`. The kernel takes the open flags and the mode as one word.
pub fn open<K: Native>(sys: &mut Sys<K>, path: &[u8], oflag: c_int, mode: mode_t) -> (ret: c_int)
    ensures
        final(sys).forwarded(
            *old(sys),
            Call::Open { path: path@, flags: (oflag as usize) | (mode as usize) },
        ),
        ret == sentinel(final(sys).answer().result) as c_int,
{
    let result = sys.native_open(path, (oflag as usize) | (mode as usize));
    e(sys, result) as c_int
}

/// Reads from the descriptor `fd` into `buf` and returns the number of bytes
/// read. The buffer holds afterwards what the kernel left in it.
pub fn read<K: Native>(sys: &mut Sys<K>, fd: c_int, buf: &mut [u8]) -> (ret: ssize_t)
    ensures
        final(sys).forwarded(*old(sys), Call::Read { fd: fd as usize, buf: old(buf)@ }),
        final(sys).answer().output.bytes() == final(buf)@,
        ret == sentinel(final(sys).answer().result) as ssize_t,
{
    let result = sys.native_read(fd as usize, buf);
    e(sys, result) as ssize_t
}

/// Removes the directory `path`.
pub fn rmdir<K: Native>(sys: &mut Sys<K>, path: &[u8]) -> (ret: c_int)
    ensures
        final(sys).forwarded(*old(sys), Call::Rmdir { path: path@ }),
        ret == sentinel(final(sys).answer().result) as c_int,
{
    let result = sys.native_rmdir(path);
    e(sys, result) as c_int
}

/// Removes the file `path`.
pub fn unlink<K: Native>(sys: &mut Sys<K>, path: &[u8]) -> (ret: c_int)
    ensures
        final(sys).forwarded(*old(sys), Call::Unlink { path: path@ }),
        ret == sentinel(final(sys).answer().result) as c_int,
{
    let result = sys.native_unlink(path);
    e(sys, result) as c_int
}

/// Writes `buf` to the descriptor `fd` and returns the number of bytes
/// written.
pub fn write<K: Native>(sys: &mut Sys<K>, fd: c_int, buf: &[u8]) -> (ret: ssize_t)
    ensures
        final(sys).forwarded(*old(sys), Call::Write { fd: fd as usize, buf: buf@ }),
        ret == sentinel(final(sys).answer().result) as ssize_t,
{
    let result = sys.native_write(fd as usize, buf);
    e(sys, result) as ssize_t
}

/// What an operation does that reaches a file through a descriptor of its
/// own: `path` is opened with `flags`; if that fails, its failure is the
/// result. Otherwise one call is made on the descriptor, the descriptor is
/// closed, and the result is that of the call in between. A failure of the
/// closing goes unreported.
pub open spec fn through_descriptor(
    path: Seq<u8>,
    flags: usize,
    errno: c_int,
    added: Seq<Event>,
    ret: c_int,
    errno_after_all: c_int,
) -> bool {
    &&& added.len() >= 1
    &&& added[0].call == Call::Open { path, flags }
    &&& match added[0].result {
        Err(error) => added.len() == 1 && ret == -1 && errno_after_all == error.errno,
        Ok(fd) => {
            &&& added.len() == 3
            &&& added[2].call == Call::Close { fd }
            &&& ret == sentinel(added[1].result) as c_int
            &&& errno_after_all == errno_after(errno, added[1].result)
        },
    }
}

/// Changes the mode of the file `path`.
pub fn chmod<K: Native>(sys: &mut Sys<K>, path: &[u8], mode: mode_t) -> (ret: c_int)
    ensures
        final(sys).continues(*old(sys)),
        through_descriptor(
            path@,
            O_WRONLY,
            old(sys).errno(),
            final(sys).added(*old(sys)),
            ret,
            final(sys).errno(),
        ),
        final(sys).added(*old(sys)).len() == 3 ==> final(sys).added(*old(sys))[1].call
            == (Call::Fchmod { fd: sentinel(final(sys).added(*old(sys))[0].result), mode }),
{
    let opened = sys.native_open(path, O_WRONLY);
    let ghost first = sys.trace().last();
    match opened {
        Err(error) => {
            proof {
                crate::errno::lemma_all_ones();
                assert(sys.added(*old(sys)) =~= seq![first]);
            }
            e(sys, Err(error)) as c_int
        },
        Ok(fd) => {
            let result = sys.native_fchmod(fd, mode);
            let ghost second = sys.trace().last();
            let _ = sys.native_close(fd);
            assert(sys.added(*old(sys)) =~= seq![first, second, sys.trace().last()]);
            e(sys, result) as c_int
        },
    }
}

/// Changes the owner of the file `path`. The kernel takes the two ids at 32
/// bits.
pub fn chown<K: Native>(sys: &mut Sys<K>, path: &[u8], owner: uid_t, group: gid_t) -> (ret: c_int)
    ensures
        final(sys).continues(*old(sys)),
        through_descriptor(
            path@,
            O_WRONLY,
            old(sys).errno(),
            final(sys).added(*old(sys)),
            ret,
            final(sys).errno(),
        ),
        final(sys).added(*old(sys)).len() == 3 ==> final(sys).added(*old(sys))[1].call
            == (Call::Fchown {
            fd: sentinel(final(sys).added(*old(sys))[0].result),
            uid: owner as u32,
            gid: group as u32,
        }),
{
    let opened = sys.native_open(path, O_WRONLY);
    let ghost first = sys.trace().last();
    match opened {
        Err(error) => {
            proof {
                crate::errno::lemma_all_ones();
                assert(sys.added(*old(sys)) =~= seq![first]);
            }
            e(sys, Err(error)) as c_int
        },
        Ok(fd) => {
            let result = sys.native_fchown(fd, owner as u32, group as u32);
            let ghost second = sys.trace().last();
            let _ = sys.native_close(fd);
            assert(sys.added(*old(sys)) =~= seq![first, second, sys.trace().last()]);
            e(sys, result) as c_int
        },
    }
}

/// Renames the file `oldpath` to `newpath`.
pub fn rename<K: Native>(sys: &mut Sys<K>, oldpath: &[u8], newpath: &[u8]) -> (ret: c_int)
    ensures
        final(sys).continues(*old(sys)),
        through_descriptor(
            oldpath@,
            O_WRONLY,
            old(sys).errno(),
            final(sys).added(*old(sys)),
            ret,
            final(sys).errno(),
        ),
        final(sys).added(*old(sys)).len() == 3 ==> final(sys).added(*old(sys))[1].call
            == (Call::Frename {
            fd: sentinel(final(sys).added(*old(sys))[0].result),
            path: newpath@,
        }),
{
    let opened = sys.native_open(oldpath, O_WRONLY);
    let ghost first = sys.trace().last();
    match opened {
        Ok(fd) => {
            let result = sys.native_frename(fd, newpath);
            let ghost second = sys.trace().last();
            let _ = sys.native_close(fd);
            assert(sys.added(*old(sys)) =~= seq![first, second, sys.trace().last()]);
            e(sys, result) as c_int
        },
        Err(error) => {
            proof {
                crate::errno::lemma_all_ones();
                assert(sys.added(*old(sys)) =~= seq![first]);
            }
            e(sys, Err(error)) as c_int
        },
    }
}

/// What creating a file system object by opening it does: `path` is opened
/// with `flags`; a descriptor that comes back is closed at once and the
/// result is 0, whatever the closing gave; a failure of the opening is the
/// result.
pub open spec fn creates(
    path: Seq<u8>,
    flags: usize,
    errno: c_int,
    added: Seq<Event>,
    ret: c_int,
    errno_after_all: c_int,
) -> bool {
    &&& added.len() >= 1
    &&& added[0].call == Call::Open { path, flags }
    &&& match added[0].result {
        Err(error) => added.len() == 1 && ret == -1 && errno_after_all == error.errno,
        Ok(fd) => {
            &&& added.len() == 2
            &&& added[1].call == Call::Close { fd }
            &&& ret == 0
            &&& errno_after_all == errno
        },
    }
}

/// The flags with which a directory is created: it must not exist yet, and
/// of `mode` the nine permission bits count.
pub open spec fn mkdir_flags(mode: mode_t) -> usize {
    O_CREAT | O_EXCL | O_CLOEXEC | O_DIRECTORY | ((mode as usize) & 0o777)
}

/// The flags with which a named pipe is created: of `mode` the nine
/// permission bits count.
pub open spec fn mkfifo_flags(mode: mode_t) -> usize {
    O_CREAT | (MODE_FIFO as usize) | ((mode as usize) & 0o777)
}

fn create<K: Native>(sys: &mut Sys<K>, path: &[u8], flags: usize) -> (ret: c_int)
    ensures
        final(sys).continues(*old(sys)),
        creates(path@, flags, old(sys).errno(), final(sys).added(*old(sys)), ret, final(sys).errno()),
{
    let opened = sys.native_open(path, flags);
    let ghost first = sys.trace().last();
    match opened {
        Ok(fd) => {
            let _ = sys.native_close(fd);
            assert(sys.added(*old(sys)) =~= seq![first, sys.trace().last()]);
            0
        },
        Err(error) => {
            proof {
                crate::errno::lemma_all_ones();
                assert(sys.added(*old(sys)) =~= seq![first]);
            }
            e(sys, Err(error)) as c_int
        },
    }
}

/// Creates the directory `path`.
pub fn mkdir<K: Native>(sys: &mut Sys<K>, path: &[u8], mode: mode_t) -> (ret: c_int)
    ensures
        final(sys).continues(*old(sys)),
        creates(
            path@,
            mkdir_flags(mode),
            old(sys).errno(),
            final(sys).added(*old(sys)),
            ret,
            final(sys).errno(),
        ),
{
    let flags = O_CREAT | O_EXCL | O_CLOEXEC | O_DIRECTORY | ((mode as usize) & 0o777);
    create(sys, path, flags)
}

/// Creates the named pipe `path`.
pub fn mkfifo<K: Native>(sys: &mut Sys<K>, path: &[u8], mode: mode_t) -> (ret: c_int)
    ensures
        final(sys).continues(*old(sys)),
        creates(
            path@,
            mkfifo_flags(mode),
            old(sys).errno(),
            final(sys).added(*old(sys)),
            ret,
            final(sys).errno(),
        ),
{
    let flags = O_CREAT | (MODE_FIFO as usize) | ((mode as usize) & 0o777);
    create(sys, path, flags)
}

/// The POSIX form of a native status record. The device of a special file
/// is not known to the kernel and reads 0; the native record's block count
/// and nanoseconds have no place in the POSIX form.
pub open spec fn posix_stat(native: NativeStat) -> Stat {
    Stat {
        st_dev: native.st_dev as dev_t,
        st_ino: native.st_ino as ino_t,
        st_nlink: native.st_nlink as nlink_t,
        st_mode: native.st_mode,
        st_uid: native.st_uid as uid_t,
        st_gid: native.st_gid as gid_t,
        st_rdev: 0,
        st_size: native.st_size as off_t,
        st_blksize: native.st_blksize as blksize_t,
        st_atim: native.st_atime as time_t,
        st_mtim: native.st_mtime as time_t,
        st_ctim: native.st_ctime as time_t,
    }
}

/// The status of `fildes` was asked for, by one call with a zeroed record.
pub open spec fn asks_status(event: Event, fildes: c_int) -> bool {
    event.call == Call::Fstat { fd: fildes as usize, stat: NativeStat::zero() }
}

/// The return value of a status query: 0 where the kernel answered 0, and
/// -1 for a failure and for any other answer.
pub open spec fn status_ret(event: Event) -> c_int {
    if sentinel(event.result) == 0 {
        0i32
    } else {
        -1i32
    }
}

/// The caller's status record after a status query: the POSIX form of what
/// the kernel wrote where the query returned 0, else what it was.
pub open spec fn status_after(before: Stat, event: Event) -> Stat {
    if sentinel(event.result) == 0 {
        posix_stat(event.output.stat())
    } else {
        before
    }
}

/// Writes the status of the open file `fildes` into `buf`, if `buf` is
/// given.
pub fn fstat<K: Native>(sys: &mut Sys<K>, fildes: c_int, buf: Option<&mut Stat>) -> (ret: c_int)
    ensures
        final(sys).trace() == old(sys).trace().push(final(sys).answer()),
        asks_status(final(sys).answer(), fildes),
        final(sys).errno() == errno_after(old(sys).errno(), final(sys).answer().result),
        ret == status_ret(final(sys).answer()),
        match buf {
            Some(b) => *final(b) == status_after(*b, final(sys).answer()),
            None => true,
        },
{
    let mut native = NativeStat::zeroed();
    let result = sys.native_fstat(fildes as usize, &mut native);
    if e(sys, result) == 0 {
        match buf {
            Some(b) => {
                b.st_dev = native.st_dev as dev_t;
                b.st_ino = native.st_ino as ino_t;
                b.st_nlink = native.st_nlink as nlink_t;
                b.st_mode = native.st_mode;
                b.st_uid = native.st_uid as uid_t;
                b.st_gid = native.st_gid as gid_t;
                b.st_rdev = 0;
                b.st_size = native.st_size as off_t;
                b.st_blksize = native.st_blksize as blksize_t;
                b.st_atim = native.st_atime as time_t;
                b.st_mtim = native.st_mtime as time_t;
                b.st_ctim = native.st_ctime as time_t;
            },
            None => {},
        }
        0
    } else {
        -1
    }
}

/// What asking for the status of a path does: `path` is opened with
/// `flags`; if that fails, its failure is the result. Otherwise the status
/// of the descriptor is asked for, under the number that the descriptor has
/// as a `c_int`, and the descriptor is closed.
pub open spec fn status_of_path(
    path: Seq<u8>,
    flags: usize,
    errno: c_int,
    added: Seq<Event>,
    ret: c_int,
    errno_after_all: c_int,
) -> bool {
    &&& added.len() >= 1
    &&& added[0].call == Call::Open { path, flags }
    &&& match added[0].result {
        Err(error) => added.len() == 1 && ret == -1 && errno_after_all == error.errno,
        Ok(fd) => {
            &&& added.len() == 3
            &&& asks_status(added[1], fd as c_int)
            &&& added[2].call == Call::Close { fd }
            &&& ret == status_ret(added[1])
            &&& errno_after_all == errno_after(errno, added[1].result)
        },
    }
}

/// The caller's status record after the status of a path was asked for.
pub open spec fn path_status_after(before: Stat, added: Seq<Event>) -> Stat {
    if added.len() == 3 {
        status_after(before, added[1])
    } else {
        before
    }
}

fn stat_with<K: Native>(sys: &mut Sys<K>, path: &[u8], flags: usize, buf: Option<&mut Stat>) -> (ret:
    c_int)
    ensures
        final(sys).continues(*old(sys)),
        status_of_path(
            path@,
            flags,
            old(sys).errno(),
            final(sys).added(*old(sys)),
            ret,
            final(sys).errno(),
        ),
        match buf {
            Some(b) => *final(b) == path_status_after(*b, final(sys).added(*old(sys))),
            None => true,
        },
{
    let opened = sys.native_open(path, flags);
    let ghost first = sys.trace().last();
    match opened {
        Err(error) => {
            proof {
                crate::errno::lemma_all_ones();
                assert(sys.added(*old(sys)) =~= seq![first]);
            }
            e(sys, Err(error)) as c_int
        },
        Ok(fd) => {
            let ret = fstat(sys, fd as c_int, buf);
            let ghost second = sys.trace().last();
            let _ = sys.native_close(fd);
            assert(sys.added(*old(sys)) =~= seq![first, second, sys.trace().last()]);
            ret
        },
    }
}

/// Writes the status of the file `path` into `buf`, following a symbolic
/// link.
pub fn stat<K: Native>(sys: &mut Sys<K>, path: &[u8], buf: Option<&mut Stat>) -> (ret: c_int)
    ensures
        final(sys).continues(*old(sys)),
        status_of_path(
            path@,
            O_RDONLY,
            old(sys).errno(),
            final(sys).added(*old(sys)),
            ret,
            final(sys).errno(),
        ),
        match buf {
            Some(b) => *final(b) == path_status_after(*b, final(sys).added(*old(sys))),
            None => true,
        },
{
    stat_with(sys, path, O_RDONLY, buf)
}

/// The flags with which `lstat` opens a path: to read, without following a
/// symbolic link.
pub open spec fn lstat_flags() -> usize {
    O_RDONLY | O_NOFOLLOW
}

/// Writes the status of the file `path` into `buf`; of a symbolic link, the
/// status of the link itself.
pub fn lstat<K: Native>(sys: &mut Sys<K>, path: &[u8], buf: Option<&mut Stat>) -> (ret: c_int)
    ensures
        final(sys).continues(*old(sys)),
        status_of_path(
            path@,
            lstat_flags(),
            old(sys).errno(),
            final(sys).added(*old(sys)),
            ret,
            final(sys).errno(),
        ),
        match buf {
            Some(b) => *final(b) == path_status_after(*b, final(sys).added(*old(sys))),
            None => true,
        },
{
    stat_with(sys, path, O_RDONLY | O_NOFOLLOW, buf)
}

/// What changing to the directory of a descriptor does: the path of `fd` is
/// queried with a zeroed buffer of `PATH_BUFFER_LEN` bytes. If the answer
/// converts to all ones, the result is -1. Otherwise the working directory
/// is changed to the whole buffer as the kernel left it, not only to the
/// bytes that the answer counts.
pub open spec fn changes_to_descriptor(
    fd: c_int,
    errno: c_int,
    added: Seq<Event>,
    ret: c_int,
    errno_after_all: c_int,
) -> bool {
    &&& added.len() >= 1
    &&& added[0].call == Call::Fpath { fd: fd as usize, buf: zeros(PATH_BUFFER_LEN as nat) }
    &&& if sentinel(added[0].result) == usize::MAX {
        &&& added.len() == 1
        &&& ret == -1
        &&& errno_after_all == errno_after(errno, added[0].result)
    } else {
        &&& added.len() == 2
        &&& added[1].call == Call::Chdir { path: added[0].output.bytes() }
        &&& ret == sentinel(added[1].result) as c_int
        &&& errno_after_all == errno_after(errno, added[1].result)
    }
}

/// Changes the working directory to the directory open as `fd`.
pub fn fchdir<K: Native>(sys: &mut Sys<K>, fd: c_int) -> (ret: c_int)
    ensures
        final(sys).continues(*old(sys)),
        changes_to_descriptor(
            fd,
            old(sys).errno(),
            final(sys).added(*old(sys)),
            ret,
            final(sys).errno(),
        ),
{
    let mut path = [0u8; 4096];
    assert(path@ =~= zeros(PATH_BUFFER_LEN as nat));
    let queried = sys.native_fpath(fd as usize, &mut path);
    let ghost first = sys.trace().last();
    if e(sys, queried) == usize::MAX {
        assert(sys.added(*old(sys)) =~= seq![first]);
        -1
    } else {
        let result = sys.native_chdir(&path);
        assert(sys.added(*old(sys)) =~= seq![first, sys.trace().last()]);
        e(sys, result) as c_int
    }
}

/// Writes the working directory into `buf`. Returns whether the kernel's
/// answer converts to anything but all ones: `true` stands for the
/// buffer, `false` for the null pointer of the C surface.
pub fn getcwd<K: Native>(sys: &mut Sys<K>, buf: &mut [u8]) -> (filled: bool)
    ensures
        final(sys).forwarded(*old(sys), Call::Getcwd { buf: old(buf)@ }),
        final(sys).answer().output.bytes() == final(buf)@,
        filled == (sentinel(final(sys).answer().result) != usize::MAX),
{
    let result = sys.native_getcwd(buf);
    e(sys, result) != usize::MAX
}

/// Creates a pipe and writes its reading and its writing descriptor into
/// the first two places of `fds`, whatever the kernel answered.
pub fn pipe<K: Native>(sys: &mut Sys<K>, fds: &mut [c_int]) -> (ret: c_int)
    requires
        old(fds)@.len() >= 2,
    ensures
        final(sys).forwarded(*old(sys), Call::Pipe2 { fds: (0, 0), flags: 0 }),
        ret == sentinel(final(sys).answer().result) as c_int,
        final(fds)@ == old(fds)@.update(0, final(sys).answer().output.pair().0 as c_int).update(
            1,
            final(sys).answer().output.pair().1 as c_int,
        ),
{
    let mut pair: [usize; 2] = [0, 0];
    let result = sys.native_pipe2(&mut pair, 0);
    let ret = e(sys, result);
    fds[0] = pair[0] as c_int;
    fds[1] = pair[1] as c_int;
    ret as c_int
}

} // verus!
