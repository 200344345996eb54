//! The C-level types, structures and constants that the POSIX surface and the
//! native kernel interface agree on.

use vstd::prelude::*;

verus! {

#[allow(non_camel_case_types)]
pub type c_int = i32;

#[allow(non_camel_case_types)]
pub type c_long = i64;

#[allow(non_camel_case_types)]
pub type size_t = usize;

#[allow(non_camel_case_types)]
pub type ssize_t = isize;

#[allow(non_camel_case_types)]
pub type off_t = i64;

#[allow(non_camel_case_types)]
pub type mode_t = u16;

#[allow(non_camel_case_types)]
pub type pid_t = usize;

#[allow(non_camel_case_types)]
pub type uid_t = usize;

#[allow(non_camel_case_types)]
pub type gid_t = usize;

#[allow(non_camel_case_types)]
pub type dev_t = usize;

#[allow(non_camel_case_types)]
pub type ino_t = usize;

#[allow(non_camel_case_types)]
pub type nlink_t = usize;

#[allow(non_camel_case_types)]
pub type blksize_t = isize;

#[allow(non_camel_case_types)]
pub type time_t = i64;

#[allow(non_camel_case_types)]
pub type clockid_t = i32;

#[allow(non_camel_case_types)]
pub type socklen_t = u32;

#[allow(non_camel_case_types)]
pub type sa_family_t = u16;

#[allow(non_camel_case_types)]
pub type in_port_t = u16;

/// The only address family that sockets support.
pub const AF_INET: c_int = 2;

pub const SOCK_STREAM: c_int = 1;

pub const SOCK_DGRAM: c_int = 2;

pub const SOCK_NONBLOCK: c_int = 0o4000;

pub const SOCK_CLOEXEC: c_int = 0o2000000;

/// Number of payload bytes in a socket address.
pub const SOCKADDR_DATA_LEN: usize = 14;

/// Size in bytes of a whole socket address: the family tag and the payload.
pub const SOCKADDR_LEN: usize = 16;

pub const O_RDONLY: usize = 0x0001_0000;

pub const O_WRONLY: usize = 0x0002_0000;

pub const O_RDWR: usize = 0x0003_0000;

pub const O_NONBLOCK: usize = 0x0004_0000;

pub const O_CLOEXEC: usize = 0x0100_0000;

pub const O_CREAT: usize = 0x0200_0000;

pub const O_EXCL: usize = 0x0800_0000;

pub const O_DIRECTORY: usize = 0x1000_0000;

pub const O_NOFOLLOW: usize = 0x8000_0000;

/// File type bits of a named pipe.
pub const MODE_FIFO: u16 = 0x1000;

/// A signal interrupted the call.
pub const EINTR: c_int = 4;

/// Invalid argument.
pub const EINVAL: c_int = 22;

/// Protocol error: the network service answered with something that is not
/// a socket path.
pub const EPROTO: c_int = 71;

/// The socket type does not fit the protocol.
pub const EPROTOTYPE: c_int = 91;

/// The protocol is not supported.
pub const EPROTONOSUPPORT: c_int = 93;

/// The operation is not supported on this endpoint.
pub const EOPNOTSUPP: c_int = 95;

/// The address family is not supported.
pub const EAFNOSUPPORT: c_int = 97;

/// The endpoint is already connected.
pub const EISCONN: c_int = 106;

/// A socket address in its binary layout: a family tag and fourteen payload
/// bytes. For `AF_INET` the payload begins with the port in network byte
/// order, followed by the four address bytes.
#[derive(Clone, Copy, Debug, PartialEq, Eq)]
pub struct SockAddr {
    pub sa_family: sa_family_t,
    pub data: [u8; 14],
}

/// File status as POSIX callers see it.
#[derive(Clone, Copy, Debug, PartialEq, Eq)]
pub struct Stat {
    pub st_dev: dev_t,
    pub st_ino: ino_t,
    pub st_nlink: nlink_t,
    pub st_mode: mode_t,
    pub st_uid: uid_t,
    pub st_gid: gid_t,
    pub st_rdev: dev_t,
    pub st_size: off_t,
    pub st_blksize: blksize_t,
    pub st_atim: time_t,
    pub st_mtim: time_t,
    pub st_ctim: time_t,
}

/// A point in time or a duration as POSIX callers see it.
#[derive(Clone, Copy, Debug, PartialEq, Eq)]
pub struct TimeSpec {
    pub tv_sec: time_t,
    pub tv_nsec: c_long,
}

/// File status as the kernel reports it.
#[derive(Clone, Copy, Debug, PartialEq, Eq)]
pub struct NativeStat {
    pub st_dev: u64,
    pub st_ino: u64,
    pub st_mode: u16,
    pub st_nlink: u32,
    pub st_uid: u32,
    pub st_gid: u32,
    pub st_size: u64,
    pub st_blksize: u32,
    pub st_blocks: u64,
    pub st_mtime: u64,
    pub st_mtime_nsec: u32,
    pub st_atime: u64,
    pub st_atime_nsec: u32,
    pub st_ctime: u64,
    pub st_ctime_nsec: u32,
}

/// A point in time or a duration as the kernel reports it.
#[derive(Clone, Copy, Debug, PartialEq, Eq)]
pub struct NativeTimeSpec {
    pub tv_sec: i64,
    pub tv_nsec: i32,
}

/// The failure of a native call: the kernel's numeric error code.
#[derive(Clone, Copy, Debug, PartialEq, Eq)]
pub struct Error {
    pub errno: i32,
}

impl NativeStat {
    /// The status record with every field zero.
    pub open spec fn zero() -> NativeStat {
        NativeStat {
            st_dev: 0,
            st_ino: 0,
            st_mode: 0,
            st_nlink: 0,
            st_uid: 0,
            st_gid: 0,
            st_size: 0,
            st_blksize: 0,
            st_blocks: 0,
            st_mtime: 0,
            st_mtime_nsec: 0,
            st_atime: 0,
            st_atime_nsec: 0,
            st_ctime: 0,
            st_ctime_nsec: 0,
        }
    }

    pub fn zeroed() -> (s: NativeStat)
        ensures
            s == NativeStat::zero(),
    {
        NativeStat {
            st_dev: 0,
            st_ino: 0,
            st_mode: 0,
            st_nlink: 0,
            st_uid: 0,
            st_gid: 0,
            st_size: 0,
            st_blksize: 0,
            st_blocks: 0,
            st_mtime: 0,
            st_mtime_nsec: 0,
            st_atime: 0,
            st_atime_nsec: 0,
            st_ctime: 0,
            st_ctime_nsec: 0,
        }
    }
}

impl NativeTimeSpec {
    /// The time value with both fields zero.
    pub open spec fn zero() -> NativeTimeSpec {
        NativeTimeSpec { tv_sec: 0, tv_nsec: 0 }
    }

    pub fn zeroed() -> (t: NativeTimeSpec)
        ensures
            t == NativeTimeSpec::zero(),
    {
        NativeTimeSpec { tv_sec: 0, tv_nsec: 0 }
    }

    /// The kernel's form of a POSIX time value: the seconds as they are, the
    /// nanoseconds cut to 32 bits.
    pub open spec fn of(t: TimeSpec) -> NativeTimeSpec {
        NativeTimeSpec { tv_sec: t.tv_sec, tv_nsec: t.tv_nsec as i32 }
    }

    pub fn from_posix(t: &TimeSpec) -> (n: NativeTimeSpec)
        ensures
            n == NativeTimeSpec::of(*t),
    {
        NativeTimeSpec { tv_sec: t.tv_sec, tv_nsec: #[verifier::truncate] (t.tv_nsec as i32) }
    }
}

} // verus!
